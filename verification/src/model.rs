//! The state that placing and drawing panes reads: workspaces, panes,
//! terminals and the settings of borders.

use crate::canvas::PaneBorderStyle;
use crate::geometry::{Rect, SplitBorder};
use crate::style::{Palette, TerminalTheme};
use std::collections::{HashMap, HashSet};
use vstd::prelude::*;

verus! {

/// The number of a pane.
#[derive(Clone, Copy, Debug, PartialEq, Eq, Structural)]
pub struct PaneId {
    pub raw: u32,
}

impl PaneId {
    pub fn from_raw(raw: u32) -> (id: PaneId)
        ensures
            id.raw == raw,
    {
        PaneId { raw }
    }
}

/// The number of a terminal.
#[derive(Clone, Copy, Debug, PartialEq, Eq, Structural)]
pub struct TerminalId {
    pub raw: u64,
}

/// Where a terminal stands in its scrollback.
#[derive(Clone, Copy, Debug, PartialEq, Eq, Structural)]
pub struct ScrollMetrics {
    /// Rows between the bottom of the view and the newest row.
    pub offset_from_bottom: usize,
    /// The scrollback is long enough for a scrollbar.
    pub shows_scrollbar: bool,
}

/// What a running terminal reports of itself.
#[derive(Clone, Copy, Debug, PartialEq, Eq)]
pub struct TerminalRuntime {
    pub scroll_metrics: Option<ScrollMetrics>,
}

/// The running terminals.
#[derive(Debug)]
pub struct TerminalRuntimeRegistry {
    /// By the number of the terminal.
    pub runtimes: HashMap<u64, TerminalRuntime>,
}

/// The running terminals of the panes of one workspace.
#[derive(Debug)]
pub struct PaneRuntimes {
    /// By the number of the pane.
    pub runtimes: HashMap<u32, TerminalRuntime>,
}

/// A pane as it is laid out on the screen.
#[derive(Clone, Copy, Debug, PartialEq, Eq)]
pub struct PaneInfo {
    pub id: PaneId,
    /// The whole pane, its border included.
    pub rect: Rect,
    /// The part that the terminal fills.
    pub inner_rect: Rect,
    /// The column of the scrollbar, where one is shown.
    pub scrollbar_rect: Option<Rect>,
    pub is_focused: bool,
}

/// The tiling of a tab in the area that it is given.
#[derive(Debug)]
pub struct Layout {
    pub pane_count: usize,
    pub focused: PaneId,
    /// The panes, each with its share of the area.
    pub panes: Vec<PaneInfo>,
    /// The lines between the panes.
    pub splits: Vec<SplitBorder>,
}

/// A tab: its tiling and the terminals of its panes.
#[derive(Debug)]
pub struct Tab {
    pub layout: Layout,
    /// The focused pane alone fills the tab.
    pub zoomed: bool,
    /// By the number of the pane.
    pub terminals: HashMap<u32, TerminalId>,
}

/// How panes are set apart from each other.
#[derive(Clone, Copy, Debug, PartialEq, Eq, Structural)]
pub enum PaneBorderMode {
    /// A box around every pane.
    Box,
    /// A single line between neighbours.
    Line,
    /// Nothing between them.
    Off,
}

/// How many pixels a terminal cell takes on the host's screen.
#[derive(Clone, Copy, Debug, PartialEq, Eq, Structural)]
pub struct HostCellSize {
    pub width_px: u32,
    pub height_px: u32,
}

/// A new size for the terminal of a pane.
#[derive(Clone, Copy, Debug, PartialEq, Eq, Structural)]
pub struct ResizeRequest {
    pub pane_id: PaneId,
    pub rows: u16,
    pub cols: u16,
    pub cell_width_px: u32,
    pub cell_height_px: u32,
}

/// What the keyboard drives.
#[derive(Clone, Copy, Debug, PartialEq, Eq, Structural)]
pub enum Mode {
    /// The focused terminal.
    Terminal,
    /// A cursor that selects text to copy.
    Copy,
    /// Something else.
    Other,
}

/// The cursor of copy mode, in cells of its pane's terminal.
#[derive(Clone, Copy, Debug, PartialEq, Eq, Structural)]
pub struct CopyMode {
    pub pane_id: PaneId,
    pub cursor_row: u16,
    pub cursor_col: u16,
}

/// The panes and lines that are on the screen.
#[derive(Debug)]
pub struct ViewState {
    pub pane_infos: Vec<PaneInfo>,
    pub split_borders: Vec<SplitBorder>,
}

/// The workspaces, and what decides where their panes go and how they look.
#[derive(Debug)]
pub struct AppState {
    /// The index of the workspace that is shown.
    pub active: Option<usize>,
    /// Each workspace as its visible tab.
    pub workspaces: Vec<Tab>,
    pub mode: Mode,
    pub pane_border_mode: PaneBorderMode,
    pub pane_border_style: PaneBorderStyle,
    pub palette: Palette,
    /// What the host terminal says of its colours.
    pub host_terminal_theme: TerminalTheme,
    pub view: ViewState,
    pub copy_mode: Option<CopyMode>,
    /// The numbers of the terminals whose size is held by a direct attachment.
    pub direct_attach_resize_locks: HashSet<u64>,
    /// The keys that make a new workspace, where any are bound.
    pub new_workspace_label: Option<String>,
}

} // verus!
