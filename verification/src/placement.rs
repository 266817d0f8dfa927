//! Where each pane of a tab goes, and the sizes that its terminals get.

use crate::geometry;
use crate::geometry::{
    has_line_room, inner_rect_for_line_mode, pane_inner_rect, stable_terminal_inner_rect, Rect,
    SplitBorder,
};
use crate::model::{
    AppState, HostCellSize, PaneBorderMode, PaneId, PaneInfo, PaneRuntimes, ResizeRequest, Tab,
    TerminalId, TerminalRuntime, TerminalRuntimeRegistry,
};
use std::collections::HashSet;
use vstd::prelude::*;

verus! {

broadcast use vstd::std_specs::hash::group_hash_axioms;

/// The terminal's view is above the newest row.
pub open spec fn scrolled_back(rt: TerminalRuntime) -> bool {
    rt.scroll_metrics matches Some(metrics) && metrics.offset_from_bottom > 0
}

/// Whether the terminal's view is above the newest row.
pub fn pane_is_scrolled_back(rt: &TerminalRuntime) -> (back: bool)
    ensures
        back == scrolled_back(*rt),
{
    match rt.scroll_metrics {
        Some(metrics) => metrics.offset_from_bottom > 0,
        None => false,
    }
}

/// The last column of `pane_inner`, where a scrollbar goes.
pub open spec fn gutter(pane_inner: Rect) -> Rect {
    geometry::clamped_rect((pane_inner.x + pane_inner.width - 1) as u16, pane_inner.y, 1, pane_inner.height)
}

/// The last column of `pane_inner` has a number within `u16`, where one is
/// kept for a scrollbar.
pub open spec fn gutter_fits(pane_inner: Rect) -> bool {
    pane_inner.width > 4 ==> pane_inner.x + pane_inner.width - 1 <= u16::MAX
}

/// The scrollbar's column: the gutter of a pane that keeps one, while the
/// terminal has scrollback to show.
pub open spec fn scrollbar_column(rt: TerminalRuntime, pane_inner: Rect) -> Option<Rect> {
    if pane_inner.width > 4 && (rt.scroll_metrics matches Some(metrics)
        && metrics.shows_scrollbar) {
        Some(gutter(pane_inner))
    } else {
        None
    }
}

/// The part of a pane that its terminal fills, and the column of its scrollbar
/// where one is shown.
pub fn stable_scrollbar_gutter(rt: &TerminalRuntime, pane_inner: Rect) -> (parts: (
    Rect,
    Option<Rect>,
))
    requires
        gutter_fits(pane_inner),
    ensures
        parts.0 == geometry::terminal_inner(pane_inner),
        parts.1 == scrollbar_column(*rt, pane_inner),
{
    let inner_rect = stable_terminal_inner_rect(pane_inner);
    if inner_rect == pane_inner {
        return (inner_rect, None);
    }
    let gutter = Rect::new(
        pane_inner.x + pane_inner.width.saturating_sub(1),
        pane_inner.y,
        1,
        pane_inner.height,
    );
    let scrollbar_rect = match rt.scroll_metrics {
        Some(metrics) => if metrics.shows_scrollbar {
            Some(gutter)
        } else {
            None
        },
        None => None,
    };
    (inner_rect, scrollbar_rect)
}

/// The terminal of a pane of `tab`, and what it reports, where it runs.
pub open spec fn tab_runtime(
    registry: TerminalRuntimeRegistry,
    tab: Tab,
    pane: PaneId,
) -> Option<(TerminalId, TerminalRuntime)> {
    if tab.terminals@.contains_key(pane.raw) && registry.runtimes@.contains_key(
        tab.terminals@[pane.raw].raw,
    ) {
        let terminal = tab.terminals@[pane.raw];
        Some((terminal, registry.runtimes@[terminal.raw]))
    } else {
        None
    }
}

/// The terminal of a pane of `tab`, and what it reports, where it runs.
pub fn runtime_for_tab_pane<'a>(
    terminal_runtimes: &'a TerminalRuntimeRegistry,
    tab: &'a Tab,
    pane_id: PaneId,
) -> (found: Option<(&'a TerminalId, &'a TerminalRuntime)>)
    ensures
        match found {
            Some((terminal, rt)) => tab_runtime(*terminal_runtimes, *tab, pane_id) == Some(
                (*terminal, *rt),
            ),
            None => tab_runtime(*terminal_runtimes, *tab, pane_id) is None,
        },
{
    match tab.terminals.get(&pane_id.raw) {
        Some(terminal_id) => match terminal_runtimes.runtimes.get(&terminal_id.raw) {
            Some(runtime) => Some((terminal_id, runtime)),
            None => None,
        },
        None => None,
    }
}

/// The numbers of the panes of `tab` whose terminals run.
pub open spec fn running_in_tab(registry: TerminalRuntimeRegistry, tab: Tab) -> Set<u32> {
    tab.terminals@.dom().filter(
        |pane: u32| registry.runtimes@.contains_key(tab.terminals@[pane].raw),
    )
}

/// A pane that a tab shows, with the room inside its border or split lines.
pub struct ShownPane {
    pub id: PaneId,
    pub rect: Rect,
    pub is_focused: bool,
    pub room: Rect,
}

/// The room of one pane among others: inside its box, between its split lines,
/// or the whole area where nothing sets panes apart.
pub open spec fn tiled_room(
    mode: PaneBorderMode,
    multi_pane: bool,
    rect: Rect,
    area: Rect,
    splits: Seq<SplitBorder>,
) -> Rect {
    if multi_pane && mode == PaneBorderMode::Box {
        geometry::bordered_inner(rect)
    } else if multi_pane && mode == PaneBorderMode::Line {
        geometry::line_inner(rect, splits)
    } else {
        area
    }
}

/// The panes that `tab` shows in `area`: the focused one alone where the tab is
/// zoomed, else all of its tiling in order.
pub open spec fn shown_panes(
    tab: Tab,
    area: Rect,
    mode: PaneBorderMode,
    splits: Seq<SplitBorder>,
) -> Seq<ShownPane> {
    let multi_pane = tab.layout.pane_count > 1;
    if tab.zoomed {
        seq![
            ShownPane {
                id: tab.layout.focused,
                rect: area,
                is_focused: true,
                room: geometry::framed_inner(area, multi_pane && mode == PaneBorderMode::Box),
            },
        ]
    } else {
        Seq::new(
            tab.layout.panes@.len(),
            |i: int|
                {
                    let info = tab.layout.panes@[i];
                    ShownPane {
                        id: info.id,
                        rect: info.rect,
                        is_focused: info.is_focused,
                        room: tiled_room(mode, multi_pane, info.rect, area, splits),
                    }
                },
        )
    }
}

/// A shown pane with the parts of its room: a running terminal leaves a gutter
/// for its scrollbar.
pub open spec fn placed(pane: ShownPane, runtimes: Map<u32, TerminalRuntime>) -> PaneInfo {
    let running = runtimes.contains_key(pane.id.raw);
    PaneInfo {
        id: pane.id,
        rect: pane.rect,
        inner_rect: if running {
            geometry::terminal_inner(pane.room)
        } else {
            pane.room
        },
        scrollbar_rect: if running {
            scrollbar_column(runtimes[pane.id.raw], pane.room)
        } else {
            None
        },
        is_focused: pane.is_focused,
    }
}

/// The new size of a shown pane's terminal: none where it does not run or its
/// size is locked.
pub open spec fn resize_request(
    pane: ShownPane,
    running: Set<u32>,
    terminals: Map<u32, TerminalId>,
    locks: Set<u64>,
    cell_size: HostCellSize,
) -> Option<ResizeRequest> {
    if running.contains(pane.id.raw) && terminals.contains_key(pane.id.raw) && !locks.contains(
        terminals[pane.id.raw].raw,
    ) {
        let inner = geometry::terminal_inner(pane.room);
        Some(
            ResizeRequest {
                pane_id: pane.id,
                rows: inner.height,
                cols: inner.width,
                cell_width_px: cell_size.width_px,
                cell_height_px: cell_size.height_px,
            },
        )
    } else {
        None
    }
}

/// The new sizes of the terminals of `panes`, in order.
pub open spec fn resize_requests(
    panes: Seq<ShownPane>,
    running: Set<u32>,
    terminals: Map<u32, TerminalId>,
    locks: Set<u64>,
    cell_size: HostCellSize,
) -> Seq<ResizeRequest>
    decreases panes.len(),
{
    if panes.len() == 0 {
        seq![]
    } else {
        let before = resize_requests(panes.drop_last(), running, terminals, locks, cell_size);
        match resize_request(panes.last(), running, terminals, locks, cell_size) {
            Some(request) => before.push(request),
            None => before,
        }
    }
}

/// The panes of the workspace that is shown, placed in `area`: none where there
/// is no such workspace.
pub open spec fn placed_panes(
    app: AppState,
    pane_runtimes: PaneRuntimes,
    area: Rect,
    splits: Seq<SplitBorder>,
) -> Seq<PaneInfo> {
    match active_tab(app) {
        Some(tab) => shown_panes(tab, area, app.pane_border_mode, splits).map_values(
            |pane: ShownPane| placed(pane, pane_runtimes.runtimes@),
        ),
        None => seq![],
    }
}

/// The new sizes of the terminals of the workspace that is shown, in order.
pub open spec fn asked_sizes(
    app: AppState,
    pane_runtimes: PaneRuntimes,
    area: Rect,
    cell_size: HostCellSize,
    splits: Seq<SplitBorder>,
) -> Seq<ResizeRequest> {
    match active_tab(app) {
        Some(tab) => resize_requests(
            shown_panes(tab, area, app.pane_border_mode, splits),
            pane_runtimes.runtimes@.dom(),
            tab.terminals@,
            app.direct_attach_resize_locks@,
            cell_size,
        ),
        None => seq![],
    }
}

/// The new sizes of the terminals of the workspace that is shown, where
/// `resize_panes` asks for them.
pub open spec fn sizes_where_asked(
    app: AppState,
    pane_runtimes: PaneRuntimes,
    area: Rect,
    resize_panes: bool,
    cell_size: HostCellSize,
    splits: Seq<SplitBorder>,
) -> Seq<ResizeRequest> {
    if resize_panes {
        asked_sizes(app, pane_runtimes, area, cell_size, splits)
    } else {
        seq![]
    }
}

/// Adding a pane adds its request at the end, where it has one.
proof fn resize_requests_step(
    panes: Seq<ShownPane>,
    n: int,
    running: Set<u32>,
    terminals: Map<u32, TerminalId>,
    locks: Set<u64>,
    cell_size: HostCellSize,
)
    requires
        0 <= n < panes.len(),
    ensures
        resize_requests(panes.take(n + 1), running, terminals, locks, cell_size) == {
            let before = resize_requests(panes.take(n), running, terminals, locks, cell_size);
            match resize_request(panes[n], running, terminals, locks, cell_size) {
                Some(request) => before.push(request),
                None => before,
            }
        },
{
    assert(panes.take(n + 1).drop_last() =~= panes.take(n));
    assert(panes.take(n + 1).last() == panes[n]);
}

/// The tab of the workspace that is shown.
pub open spec fn active_tab(app: AppState) -> Option<Tab> {
    match app.active {
        Some(index) => if index < app.workspaces@.len() {
            Some(app.workspaces@[index as int])
        } else {
            None
        },
        None => None,
    }
}

/// The sums that placing the panes of `tab` between split lines forms stay
/// within `u16`.
pub open spec fn tiling_fits(tab: Tab, mode: PaneBorderMode, splits: Seq<SplitBorder>) -> bool {
    !tab.zoomed && tab.layout.pane_count > 1 && mode == PaneBorderMode::Line ==> forall|i: int|
        0 <= i < tab.layout.panes@.len() ==> geometry::line_inner_fits(
            (#[trigger] tab.layout.panes@[i]).rect,
            splits,
        )
}

/// The scrollbar columns of the running panes have numbers within `u16`.
pub open spec fn gutters_fit(panes: Seq<ShownPane>, running: Set<u32>) -> bool {
    forall|i: int|
        0 <= i < panes.len() && running.contains((#[trigger] panes[i]).id.raw) ==> gutter_fits(
            panes[i].room,
        )
}

/// The sums that placing the panes of the workspace that is shown forms stay
/// within `u16`.
pub open spec fn placing_fits(
    app: AppState,
    pane_runtimes: PaneRuntimes,
    area: Rect,
    splits: Seq<SplitBorder>,
) -> bool {
    active_tab(app) matches Some(tab) ==> {
        &&& tiling_fits(tab, app.pane_border_mode, splits)
        &&& gutters_fit(
            shown_panes(tab, area, app.pane_border_mode, splits),
            pane_runtimes.runtimes@.dom(),
        )
    }
}

/// The new size of a pane's terminal, unless its size is locked.
fn request_resize(
    tab: &Tab,
    locks: &HashSet<u64>,
    pane_id: PaneId,
    inner_rect: Rect,
    cell_size: HostCellSize,
) -> (request: Option<ResizeRequest>)
    ensures
        request == if tab.terminals@.contains_key(pane_id.raw) && !locks@.contains(
            tab.terminals@[pane_id.raw].raw,
        ) {
            Some(
                ResizeRequest {
                    pane_id,
                    rows: inner_rect.height,
                    cols: inner_rect.width,
                    cell_width_px: cell_size.width_px,
                    cell_height_px: cell_size.height_px,
                },
            )
        } else {
            None
        },
{
    match tab.terminals.get(&pane_id.raw) {
        Some(terminal_id) => if !locks.contains(&terminal_id.raw) {
            Some(
                ResizeRequest {
                    pane_id,
                    rows: inner_rect.height,
                    cols: inner_rect.width,
                    cell_width_px: cell_size.width_px,
                    cell_height_px: cell_size.height_px,
                },
            )
        } else {
            None
        },
        None => None,
    }
}

/// The room of one pane among others.
fn pane_room(
    mode: PaneBorderMode,
    multi_pane: bool,
    rect: Rect,
    area: Rect,
    splits: &[SplitBorder],
) -> (room: Rect)
    requires
        multi_pane && mode == PaneBorderMode::Line ==> geometry::line_inner_fits(rect, splits@),
    ensures
        room == tiled_room(mode, multi_pane, rect, area, splits@),
{
    if multi_pane && mode == PaneBorderMode::Box {
        pane_inner_rect(rect, true)
    } else if multi_pane && mode == PaneBorderMode::Line {
        inner_rect_for_line_mode(rect, splits)
    } else {
        area
    }
}

/// Whether the panes of `tab` can be placed between those split lines within
/// `u16`.
pub fn can_tile(tab: &Tab, mode: PaneBorderMode, splits: &[SplitBorder]) -> (fits: bool)
    ensures
        fits == tiling_fits(*tab, mode, splits@),
{
    if tab.zoomed || tab.layout.pane_count <= 1 || mode != PaneBorderMode::Line {
        return true;
    }
    let mut i: usize = 0;
    while i < tab.layout.panes.len()
        invariant
            !tab.zoomed && tab.layout.pane_count > 1 && mode == PaneBorderMode::Line,
            i <= tab.layout.panes@.len(),
            forall|k: int|
                0 <= k < i ==> geometry::line_inner_fits(
                    (#[trigger] tab.layout.panes@[k]).rect,
                    splits@,
                ),
        decreases tab.layout.panes@.len() - i,
    {
        if !has_line_room(tab.layout.panes[i].rect, splits) {
            assert(!geometry::line_inner_fits(tab.layout.panes@[i as int].rect, splits@));
            return false;
        }
        i += 1;
    }
    true
}

/// Whether the last column of `pane_inner` has a number within `u16`, where one
/// is kept for a scrollbar.
pub fn has_gutter(pane_inner: Rect) -> (fits: bool)
    ensures
        fits == gutter_fits(pane_inner),
{
    pane_inner.width <= 4 || pane_inner.width - 1 <= u16::MAX - pane_inner.x
}

/// Whether the panes of the workspace that is shown can be placed in `area`
/// within `u16`.
pub fn can_place_panes(
    app: &AppState,
    pane_runtimes: &PaneRuntimes,
    area: Rect,
    split_borders: &[SplitBorder],
) -> (fits: bool)
    ensures
        fits == placing_fits(*app, *pane_runtimes, area, split_borders@),
{
    let ws_idx: usize = match app.active {
        Some(index) => index,
        None => return true,
    };
    if ws_idx >= app.workspaces.len() {
        return true;
    }
    let ws = &app.workspaces[ws_idx];
    if !can_tile(ws, app.pane_border_mode, split_borders) {
        return false;
    }
    let multi_pane = ws.layout.pane_count > 1;
    let ghost shown = shown_panes(*ws, area, app.pane_border_mode, split_borders@);
    let ghost running = pane_runtimes.runtimes@.dom();
    if ws.zoomed {
        let framed = multi_pane && app.pane_border_mode == PaneBorderMode::Box;
        let pane_inner = pane_inner_rect(area, framed);
        assert(shown[0].room == pane_inner && shown[0].id == ws.layout.focused);
        return !pane_runtimes.runtimes.contains_key(&ws.layout.focused.raw) || has_gutter(
            pane_inner,
        );
    }
    let mut i: usize = 0;
    while i < ws.layout.panes.len()
        invariant
            active_tab(*app) == Some(*ws),
            !ws.zoomed,
            multi_pane == (ws.layout.pane_count > 1),
            tiling_fits(*ws, app.pane_border_mode, split_borders@),
            shown == shown_panes(*ws, area, app.pane_border_mode, split_borders@),
            running == pane_runtimes.runtimes@.dom(),
            i <= ws.layout.panes@.len(),
            forall|k: int|
                0 <= k < i && running.contains((#[trigger] shown[k]).id.raw) ==> gutter_fits(
                    shown[k].room,
                ),
        decreases ws.layout.panes@.len() - i,
    {
        let info = ws.layout.panes[i];
        let pane_inner = pane_room(
            app.pane_border_mode,
            multi_pane,
            info.rect,
            area,
            split_borders,
        );
        assert(shown[i as int].room == pane_inner && shown[i as int].id == info.id);
        if pane_runtimes.runtimes.contains_key(&info.id.raw) && !has_gutter(pane_inner) {
            return false;
        }
        i += 1;
    }
    true
}

/// The sizes that the running terminals of `tab` get in `area`, as if the tab
/// were the one that is shown.
pub fn resize_tab_panes(
    app: &AppState,
    terminal_runtimes: &TerminalRuntimeRegistry,
    tab: &Tab,
    area: Rect,
    cell_size: HostCellSize,
) -> (requests: Vec<ResizeRequest>)
    requires
        tiling_fits(*tab, app.pane_border_mode, tab.layout.splits@),
    ensures
        requests@ == resize_requests(
            shown_panes(*tab, area, app.pane_border_mode, tab.layout.splits@),
            running_in_tab(*terminal_runtimes, *tab),
            tab.terminals@,
            app.direct_attach_resize_locks@,
            cell_size,
        ),
{
    let mut requests: Vec<ResizeRequest> = Vec::new();
    let multi_pane = tab.layout.pane_count > 1;
    let ghost shown = shown_panes(*tab, area, app.pane_border_mode, tab.layout.splits@);
    let ghost running = running_in_tab(*terminal_runtimes, *tab);
    let ghost locks = app.direct_attach_resize_locks@;

    if tab.zoomed {
        let focused_id = tab.layout.focused;
        proof {
            resize_requests_step(shown, 0, running, tab.terminals@, locks, cell_size);
            assert(shown.take(1) =~= shown);
        }
        if let Some((_, _)) = runtime_for_tab_pane(terminal_runtimes, tab, focused_id) {
            let pane_inner = pane_inner_rect(
                area,
                multi_pane && app.pane_border_mode == PaneBorderMode::Box,
            );
            let inner_rect = stable_terminal_inner_rect(pane_inner);
            let request = request_resize(
                tab,
                &app.direct_attach_resize_locks,
                focused_id,
                inner_rect,
                cell_size,
            );
            if let Some(request) = request {
                requests.push(request);
            }
        }
        return requests;
    }
    let mut i: usize = 0;
    while i < tab.layout.panes.len()
        invariant
            !tab.zoomed,
            multi_pane == (tab.layout.pane_count > 1),
            tiling_fits(*tab, app.pane_border_mode, tab.layout.splits@),
            shown == shown_panes(*tab, area, app.pane_border_mode, tab.layout.splits@),
            running == running_in_tab(*terminal_runtimes, *tab),
            locks == app.direct_attach_resize_locks@,
            i <= tab.layout.panes@.len(),
            requests@ == resize_requests(
                shown.take(i as int),
                running,
                tab.terminals@,
                locks,
                cell_size,
            ),
        decreases tab.layout.panes@.len() - i,
    {
        let info = tab.layout.panes[i];
        proof {
            resize_requests_step(shown, i as int, running, tab.terminals@, locks, cell_size);
        }
        let pane_inner = pane_room(
            app.pane_border_mode,
            multi_pane,
            info.rect,
            area,
            tab.layout.splits.as_slice(),
        );
        if let Some((_, _)) = runtime_for_tab_pane(terminal_runtimes, tab, info.id) {
            let inner_rect = stable_terminal_inner_rect(pane_inner);
            let request = request_resize(
                tab,
                &app.direct_attach_resize_locks,
                info.id,
                inner_rect,
                cell_size,
            );
            if let Some(request) = request {
                requests.push(request);
            }
        }
        i += 1;
    }
    proof {
        assert(shown.take(i as int) =~= shown);
    }
    requests
}

/// The panes of the workspace that is shown, placed in `area`, and the sizes
/// that their terminals get, where `resize_panes` asks for them.
pub fn compute_pane_infos(
    app: &AppState,
    pane_runtimes: &PaneRuntimes,
    area: Rect,
    resize_panes: bool,
    cell_size: HostCellSize,
    split_borders: &[SplitBorder],
) -> (result: (Vec<PaneInfo>, Vec<ResizeRequest>))
    requires
        placing_fits(*app, *pane_runtimes, area, split_borders@),
    ensures
        result.0@ == placed_panes(*app, *pane_runtimes, area, split_borders@),
        result.1@ == sizes_where_asked(
            *app,
            *pane_runtimes,
            area,
            resize_panes,
            cell_size,
            split_borders@,
        ),
{
    let mut infos: Vec<PaneInfo> = Vec::new();
    let mut requests: Vec<ResizeRequest> = Vec::new();
    let ws_idx: usize = match app.active {
        Some(index) => index,
        None => return (infos, requests),
    };
    if ws_idx >= app.workspaces.len() {
        return (infos, requests);
    }
    let ws = &app.workspaces[ws_idx];
    let multi_pane = ws.layout.pane_count > 1;
    let ghost shown = shown_panes(*ws, area, app.pane_border_mode, split_borders@);
    let ghost running = pane_runtimes.runtimes@.dom();
    let ghost locks = app.direct_attach_resize_locks@;

    if ws.zoomed {
        let focused_id = ws.layout.focused;
        let framed = multi_pane && app.pane_border_mode == PaneBorderMode::Box;
        let pane_inner = pane_inner_rect(area, framed);
        let mut inner_rect = pane_inner;
        let mut scrollbar_rect: Option<Rect> = None;
        proof {
            assert(shown[0].room == pane_inner);
            resize_requests_step(shown, 0, running, ws.terminals@, locks, cell_size);
            assert(shown.take(1) =~= shown);
        }
        if let Some(rt) = pane_runtimes.runtimes.get(&focused_id.raw) {
            let parts = stable_scrollbar_gutter(rt, pane_inner);
            inner_rect = parts.0;
            scrollbar_rect = parts.1;
            if resize_panes {
                let request = request_resize(
                    ws,
                    &app.direct_attach_resize_locks,
                    focused_id,
                    inner_rect,
                    cell_size,
                );
                if let Some(request) = request {
                    requests.push(request);
                }
            }
        }
        infos.push(
            PaneInfo {
                id: focused_id,
                rect: area,
                inner_rect,
                scrollbar_rect,
                is_focused: true,
            },
        );
        return (infos, requests);
    }
    let mut i: usize = 0;
    while i < ws.layout.panes.len()
        invariant
            !ws.zoomed,
            multi_pane == (ws.layout.pane_count > 1),
            tiling_fits(*ws, app.pane_border_mode, split_borders@),
            gutters_fit(shown, running),
            shown == shown_panes(*ws, area, app.pane_border_mode, split_borders@),
            running == pane_runtimes.runtimes@.dom(),
            locks == app.direct_attach_resize_locks@,
            i <= ws.layout.panes@.len(),
            infos@ == shown.take(i as int).map_values(
                |pane: ShownPane| placed(pane, pane_runtimes.runtimes@),
            ),
            requests@ == if resize_panes {
                resize_requests(shown.take(i as int), running, ws.terminals@, locks, cell_size)
            } else {
                seq![]
            },
        decreases ws.layout.panes@.len() - i,
    {
        let mut info = ws.layout.panes[i];
        proof {
            resize_requests_step(shown, i as int, running, ws.terminals@, locks, cell_size);
        }
        let pane_inner = pane_room(
            app.pane_border_mode,
            multi_pane,
            info.rect,
            area,
            split_borders,
        );
        assert(shown[i as int].room == pane_inner);
        let mut inner_rect = pane_inner;
        let mut scrollbar_rect: Option<Rect> = None;
        if let Some(rt) = pane_runtimes.runtimes.get(&info.id.raw) {
            let parts = stable_scrollbar_gutter(rt, pane_inner);
            inner_rect = parts.0;
            scrollbar_rect = parts.1;
            if resize_panes {
                let request = request_resize(
                    ws,
                    &app.direct_attach_resize_locks,
                    info.id,
                    inner_rect,
                    cell_size,
                );
                if let Some(request) = request {
                    requests.push(request);
                }
            }
        }
        info.inner_rect = inner_rect;
        info.scrollbar_rect = scrollbar_rect;
        assert(info == placed(shown[i as int], pane_runtimes.runtimes@));
        infos.push(info);
        proof {
            assert(shown.take(i + 1) =~= shown.take(i as int).push(shown[i as int]));
        }
        i += 1;
    }
    proof {
        assert(shown.take(i as int) =~= shown);
    }
    (infos, requests)
}

/// Two sets of running panes that agree on the panes of a list, as far as
/// those have terminals, give the list the same new sizes.
proof fn resize_requests_agree(
    panes: Seq<ShownPane>,
    running: Set<u32>,
    other: Set<u32>,
    terminals: Map<u32, TerminalId>,
    locks: Set<u64>,
    cell_size: HostCellSize,
)
    requires
        forall|i: int|
            0 <= i < panes.len() && terminals.contains_key((#[trigger] panes[i]).id.raw) ==> (
            running.contains(panes[i].id.raw) <==> other.contains(panes[i].id.raw)),
    ensures
        resize_requests(panes, running, terminals, locks, cell_size) == resize_requests(
            panes,
            other,
            terminals,
            locks,
            cell_size,
        ),
    decreases panes.len(),
{
    if panes.len() > 0 {
        assert(panes.last() == panes[panes.len() - 1]);
        resize_requests_agree(panes.drop_last(), running, other, terminals, locks, cell_size);
    }
}

/// Resizing a tab in the background gives its terminals the sizes that they
/// would get if it were shown: what `resize_tab_panes` asks for is what
/// `compute_pane_infos` asks for where the tab is the one shown and its panes
/// have the same running terminals.
pub proof fn background_resize_matches_shown(
    app: AppState,
    registry: TerminalRuntimeRegistry,
    tab: Tab,
    pane_runtimes: PaneRuntimes,
    area: Rect,
    cell_size: HostCellSize,
)
    requires
        active_tab(app) == Some(tab),
        forall|pane: PaneId| #[trigger]
            tab.terminals@.contains_key(pane.raw) ==> (pane_runtimes.runtimes@.contains_key(
                pane.raw,
            ) <==> tab_runtime(registry, tab, pane) is Some),
    ensures
        resize_requests(
            shown_panes(tab, area, app.pane_border_mode, tab.layout.splits@),
            running_in_tab(registry, tab),
            tab.terminals@,
            app.direct_attach_resize_locks@,
            cell_size,
        ) == asked_sizes(app, pane_runtimes, area, cell_size, tab.layout.splits@),
{
    let panes = shown_panes(tab, area, app.pane_border_mode, tab.layout.splits@);
    assert forall|i: int|
        0 <= i < panes.len() && tab.terminals@.contains_key(
            (#[trigger] panes[i]).id.raw,
        ) implies (running_in_tab(registry, tab).contains(panes[i].id.raw)
        <==> pane_runtimes.runtimes@.dom().contains(panes[i].id.raw)) by {
        let pane = panes[i].id;
        assert(tab.terminals@.contains_key(pane.raw));
    }
    resize_requests_agree(
        panes,
        running_in_tab(registry, tab),
        pane_runtimes.runtimes@.dom(),
        tab.terminals@,
        app.direct_attach_resize_locks@,
        cell_size,
    );
}

/// Only running terminals whose size nobody holds are resized.
pub proof fn locked_terminals_keep_their_size(
    panes: Seq<ShownPane>,
    running: Set<u32>,
    terminals: Map<u32, TerminalId>,
    locks: Set<u64>,
    cell_size: HostCellSize,
    k: int,
)
    requires
        0 <= k < resize_requests(panes, running, terminals, locks, cell_size).len(),
    ensures
        ({
            let pane = resize_requests(panes, running, terminals, locks, cell_size)[k].pane_id;
            &&& running.contains(pane.raw)
            &&& terminals.contains_key(pane.raw)
            &&& !locks.contains(terminals[pane.raw].raw)
        }),
    decreases panes.len(),
{
    if panes.len() > 0 {
        let before = resize_requests(panes.drop_last(), running, terminals, locks, cell_size);
        if k < before.len() {
            locked_terminals_keep_their_size(
                panes.drop_last(),
                running,
                terminals,
                locks,
                cell_size,
                k,
            );
        }
    }
}

/// A terminal is resized to the rectangle that its pane is placed with.
pub proof fn resize_fills_the_placed_pane(
    pane: ShownPane,
    runtimes: Map<u32, TerminalRuntime>,
    terminals: Map<u32, TerminalId>,
    locks: Set<u64>,
    cell_size: HostCellSize,
)
    ensures
        resize_request(pane, runtimes.dom(), terminals, locks, cell_size) matches Some(request)
            ==> {
            &&& request.pane_id == placed(pane, runtimes).id
            &&& request.rows == placed(pane, runtimes).inner_rect.height
            &&& request.cols == placed(pane, runtimes).inner_rect.width
        },
{
}

/// The room of a running terminal does not depend on its scrollback: the
/// scrollbar's column is kept free before there is anything to scroll.
pub proof fn terminal_room_ignores_scrollback(
    pane: ShownPane,
    runtimes: Map<u32, TerminalRuntime>,
    later: Map<u32, TerminalRuntime>,
)
    requires
        runtimes.contains_key(pane.id.raw),
        later.contains_key(pane.id.raw),
    ensures
        placed(pane, runtimes).inner_rect == placed(pane, later).inner_rect,
{
}

/// Placing the panes of a workspace again, with the same panes running, leaves
/// every pane and its terminal where they were, however much scrollback the
/// terminals have by then. Whether and at which cell size new sizes are asked for
/// has no part in it.
pub proof fn placed_panes_stay_while_scrollback_grows(
    app: AppState,
    pane_runtimes: PaneRuntimes,
    later: PaneRuntimes,
    area: Rect,
    splits: Seq<SplitBorder>,
)
    requires
        pane_runtimes.runtimes@.dom() == later.runtimes@.dom(),
    ensures
        placed_panes(app, pane_runtimes, area, splits).len() == placed_panes(
            app,
            later,
            area,
            splits,
        ).len(),
        forall|k: int|
            0 <= k < placed_panes(app, pane_runtimes, area, splits).len() ==> {
                let one = #[trigger] placed_panes(app, pane_runtimes, area, splits)[k];
                let two = placed_panes(app, later, area, splits)[k];
                &&& one.id == two.id
                &&& one.rect == two.rect
                &&& one.inner_rect == two.inner_rect
                &&& one.is_focused == two.is_focused
            },
{
}

/// The terminal's part and the scrollbar's column share a pane's room: every
/// cell of a room with a gutter is in exactly one of them, and no other cell
/// is in either.
pub proof fn gutter_and_terminal_share_the_room(pane_inner: Rect, x: int, y: int)
    requires
        pane_inner.width > 4,
        pane_inner.x + pane_inner.width <= u16::MAX,
        pane_inner.y + pane_inner.height <= u16::MAX,
    ensures
        geometry::in_rect(pane_inner, x, y) <==> (geometry::in_rect(
            geometry::terminal_inner(pane_inner),
            x,
            y,
        ) || geometry::in_rect(gutter(pane_inner), x, y)),
        !(geometry::in_rect(geometry::terminal_inner(pane_inner), x, y) && geometry::in_rect(
            gutter(pane_inner),
            x,
            y,
        )),
{
}

} // verus!
