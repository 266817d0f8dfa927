//! Drawing the panes of the workspace that is shown, in steps between which
//! the terminals draw themselves.

use crate::canvas;
use crate::canvas::{
    area_of, border_set_for_style, columns_shared, draw_box, draw_paragraph, draw_titled_box,
    is_whole, CellView, PaneBorderStyle, StyledText,
};
use crate::geometry;
use crate::geometry::Rect;
use crate::label;
use crate::label::{has_plain_text, pane_border_title};
use crate::lines;
use crate::lines::{can_draw_split_lines, render_split_lines};
use crate::model::{AppState, Mode, PaneBorderMode, PaneInfo, TerminalRuntime};
use crate::overlay;
use crate::overlay::{
    can_dim, can_draw_cursor, can_highlight, dim_cells, render_copy_mode_cursor,
    render_selection_highlight, Selection,
};
use crate::placement;
use crate::placement::pane_is_scrolled_back;
use crate::style::{Color, Palette, Rgb, Style, BOLD};
use ratatui::buffer::Buffer;
use vstd::prelude::*;

verus! {

/// Text in that colour.
pub open spec fn colored(color: Color) -> Style {
    Style { fg: Some(color), ..Style::spec_new() }
}

/// The lines of the screen without workspaces, where `keys` make one.
pub open spec fn empty_screen(p: Palette, keys: Seq<char>) -> Seq<Seq<(Seq<char>, Style)>> {
    seq![
        seq![],
        seq![],
        seq![("  No workspaces yet"@, colored(p.overlay0))],
        seq![],
        seq![("  A workspace is one project context."@, colored(p.overlay1))],
        seq![
            (
                "  Its root pane (top-left) sets the default repo or folder name."@,
                colored(p.overlay1),
            ),
        ],
        seq![],
        seq![
            ("  Press "@, colored(p.overlay0)),
            (keys, Style { add_modifier: BOLD, ..colored(p.accent) }),
            (" to create one"@, colored(p.overlay0)),
        ],
    ]
}

/// The keys that make a new workspace, by name.
pub open spec fn new_workspace_keys(label: Option<String>) -> Seq<char> {
    match label {
        Some(keys) => keys@,
        None => "unset"@,
    }
}

/// The most characters of keys whose row stays short.
pub const SHORT_KEYS: usize = 21823;

/// The screen without workspaces can be drawn in `area`: the grid holds every
/// cell of its own area, and the widths of the row that names the keys can be
/// added within `u16`.
pub open spec fn takes_empty_screen(
    grid: Rect,
    cells: Map<(u16, u16), CellView>,
    area: Rect,
    keys: Seq<char>,
) -> bool {
    &&& canvas::whole(grid, cells)
    &&& canvas::shared_columns(area, grid) <= i16::MAX || keys.len() <= SHORT_KEYS
        || label::is_plain_text(keys)
}

/// A cell is on the row of the screen without workspaces that names the keys.
pub open spec fn on_keys_row(edges: (int, int, int, int), x: int, y: int) -> bool {
    canvas::inside_edges(edges, x, y) && y - edges.1 - 1 == 7
}

/// `after` is what a grid's cells become where the screen without workspaces is
/// drawn in `area`: a box with the lines inside, one cell for each character,
/// and nothing outside the area. Of the row that names the keys, that is said
/// where they are plain text.
pub open spec fn empty_screen_drawn(
    app: AppState,
    grid: Rect,
    before: Map<(u16, u16), CellView>,
    after: Map<(u16, u16), CellView>,
    area: Rect,
) -> bool {
    let keys = new_workspace_keys(app.new_workspace_label);
    let lines = empty_screen(app.palette, keys);
    let border = colored(app.palette.surface_dim);
    let plainly = canvas::plain_paragraph(grid, before, area, lines, border);
    &&& after == canvas::boxed_paragraph(grid, before, area, lines, border)
    &&& label::is_plain_text(keys) ==> after == plainly
    &&& forall|x: u16, y: u16|
        before.contains_key((x, y)) && !on_keys_row(
            canvas::shared_edges(area, grid),
            x as int,
            y as int,
        ) ==> #[trigger] after[(x, y)] == plainly[(x, y)]
    &&& forall|x: u16, y: u16|
        before.contains_key((x, y)) && !geometry::in_rect(area, x as int, y as int)
            ==> #[trigger] after[(x, y)] == before[(x, y)]
}

/// The lines of the screen without workspaces are plain, but for the one that
/// names the keys where those are not, which is short where they are.
proof fn empty_screen_is_plain(p: Palette, keys: Seq<char>)
    ensures
        canvas::line_chars(empty_screen(p, keys)[7]).len() == keys.len() + 22,
        forall|i: int|
            0 <= i < 8 && (i != 7 || label::is_plain_text(keys)) ==> canvas::is_plain_line(
                #[trigger] empty_screen(p, keys)[i],
            ),
{
    reveal_strlit("  No workspaces yet");
    reveal_strlit("  A workspace is one project context.");
    reveal_strlit("  Its root pane (top-left) sets the default repo or folder name.");
    reveal_strlit("  Press ");
    reveal_strlit(" to create one");
    let line = empty_screen(p, keys)[7];
    let runs = line.map_values(|run: (Seq<char>, Style)| canvas::run_chars(run));
    reveal_with_fuel(Seq::flatten, 4);
    assert(runs.drop_first().drop_first().drop_first().len() == 0);
    assert(runs.flatten() == runs[0] + (runs[1] + (runs[2] + seq![])));
}

fn run(text: &str, style: Style) -> (run: StyledText)
    ensures
        run@ == (text@, style),
{
    StyledText { text: text.to_owned(), style }
}

/// Whether the screen without workspaces can be drawn in `area`.
pub fn can_draw_empty_screen(app: &AppState, buf: &Buffer, area: Rect) -> (fits: bool)
    ensures
        fits == takes_empty_screen(
            canvas::buffer_area(*buf),
            canvas::buffer_cells(*buf),
            area,
            new_workspace_keys(app.new_workspace_label),
        ),
{
    let keys: &str = match &app.new_workspace_label {
        Some(label) => label.as_str(),
        None => "unset",
    };
    is_whole(buf) && (columns_shared(area, area_of(buf)) <= 0x7fff || keys.unicode_len()
        <= SHORT_KEYS || has_plain_text(keys))
}

/// Draws the screen without workspaces.
pub fn render_empty(app: &AppState, buf: &mut Buffer, area: Rect)
    requires
        takes_empty_screen(
            canvas::buffer_area(*old(buf)),
            canvas::buffer_cells(*old(buf)),
            area,
            new_workspace_keys(app.new_workspace_label),
        ),
    ensures
        canvas::buffer_area(*final(buf)) == canvas::buffer_area(*old(buf)),
        canvas::buffer_cells(*final(buf)).dom() == canvas::buffer_cells(*old(buf)).dom(),
        empty_screen_drawn(
            *app,
            canvas::buffer_area(*old(buf)),
            canvas::buffer_cells(*old(buf)),
            canvas::buffer_cells(*final(buf)),
            area,
        ),
{
    let p = &app.palette;
    let keys: &str = match &app.new_workspace_label {
        Some(label) => label.as_str(),
        None => "unset",
    };
    let mut lines: Vec<Vec<StyledText>> = Vec::new();
    let mut last: Vec<StyledText> = Vec::new();
    let mut title: Vec<StyledText> = Vec::new();
    let mut what: Vec<StyledText> = Vec::new();
    let mut name: Vec<StyledText> = Vec::new();
    title.push(run("  No workspaces yet", Style::new().fg(p.overlay0)));
    what.push(run("  A workspace is one project context.", Style::new().fg(p.overlay1)));
    name.push(
        run(
            "  Its root pane (top-left) sets the default repo or folder name.",
            Style::new().fg(p.overlay1),
        ),
    );
    last.push(run("  Press ", Style::new().fg(p.overlay0)));
    last.push(run(keys, Style::new().fg(p.accent).add_modifier(BOLD)));
    last.push(run(" to create one", Style::new().fg(p.overlay0)));
    proof {
        assert(0u16 | 0x001u16 == 0x001u16 && 0u16 & !0x001u16 == 0u16) by (bit_vector);
    }
    lines.push(Vec::new());
    lines.push(Vec::new());
    lines.push(title);
    lines.push(Vec::new());
    lines.push(what);
    lines.push(name);
    lines.push(Vec::new());
    lines.push(last);
    proof {
        let shown = canvas::paragraph_view(lines@);
        let wanted = empty_screen(app.palette, new_workspace_keys(app.new_workspace_label));
        assert(shown.len() == wanted.len());
        assert(shown[0] =~= wanted[0]);
        assert(shown[1] =~= wanted[1]);
        assert(shown[2] =~= wanted[2]);
        assert(shown[3] =~= wanted[3]);
        assert(shown[4] =~= wanted[4]);
        assert(shown[5] =~= wanted[5]);
        assert(shown[6] =~= wanted[6]);
        assert(shown[7] =~= wanted[7]);
        assert(shown =~= wanted);
        empty_screen_is_plain(app.palette, new_workspace_keys(app.new_workspace_label));
    }
    let ghost grid = canvas::buffer_area(*buf);
    let ghost before = canvas::buffer_cells(*buf);
    draw_paragraph(buf, area, &lines, Style::new().fg(p.surface_dim));
    proof {
        let after = canvas::buffer_cells(*buf);
        let keys = new_workspace_keys(app.new_workspace_label);
        let wanted = empty_screen(app.palette, keys);
        let border = colored(app.palette.surface_dim);
        let plainly = canvas::plain_paragraph(grid, before, area, wanted, border);
        let edges = canvas::shared_edges(area, grid);
        assert forall|x: u16, y: u16|
            before.contains_key((x, y)) && (label::is_plain_text(keys) || !on_keys_row(
                edges,
                x as int,
                y as int,
            )) implies #[trigger] after[(x, y)] == plainly[(x, y)] by {
            let row = y - edges.1 - 1;
            if canvas::inside_edges(edges, x as int, y as int) && row < wanted.len() {
                assert(canvas::is_plain_line(wanted[row]));
            }
        }
        if label::is_plain_text(keys) {
            assert forall|at: (u16, u16)| before.contains_key(at) implies #[trigger] after[at]
                == plainly[at] by {
                assert(after[(at.0, at.1)] == plainly[(at.0, at.1)]);
            }
            assert(after =~= plainly);
        }
    }
}

/// The colours of borders: along the focused pane, and elsewhere.
#[derive(Clone, Copy, Debug, PartialEq, Eq, Structural)]
pub struct BorderColors {
    pub active: Color,
    pub inactive: Color,
}

/// What is known of a pane whose terminal runs.
#[derive(Debug)]
pub struct PaneContent {
    pub runtime: TerminalRuntime,
    /// The label of the terminal, where it has one.
    pub border_label: Option<String>,
    /// The pane shows its cursor as the host's.
    pub exposes_host_cursor: bool,
}

/// What happened since the last step of drawing. Panes are told by their index
/// in the view.
#[derive(Debug)]
pub enum RenderEvent {
    /// Drawing begins.
    Start,
    /// The terminal of the pane that was asked for does not run.
    PaneMissing { index: usize },
    /// The terminal of the pane that was asked for runs.
    PaneFound { index: usize, content: PaneContent },
    /// The pane's terminal and its scrollbar are drawn.
    TerminalDrawn { index: usize, selection: Option<Selection> },
}

/// What has to happen before the next step of drawing.
#[derive(Clone, Copy, Debug, PartialEq, Eq, Structural)]
pub enum RenderRequest {
    /// Find out whether the terminal of that pane runs.
    LookUpPane { index: usize },
    /// Draw the terminal of that pane and its scrollbar, and place the host's
    /// cursor in it where it is to be shown.
    DrawTerminal { index: usize, show_cursor: bool },
    /// Nothing: everything is drawn.
    Finished,
}

/// The workspace that is shown has more than one pane.
pub open spec fn multi_pane(app: AppState) -> bool {
    placement::active_tab(app) matches Some(tab) && tab.layout.pane_count > 1
}

/// Panes are drawn with boxes around them.
pub open spec fn box_mode(app: AppState) -> bool {
    multi_pane(app) && app.pane_border_mode == PaneBorderMode::Box
}

/// Panes are drawn with lines between them.
pub open spec fn line_mode(app: AppState) -> bool {
    multi_pane(app) && app.pane_border_mode == PaneBorderMode::Line
}

/// The title on the box of a pane.
pub open spec fn pane_title(info: PaneInfo, content: PaneContent) -> Option<Seq<char>> {
    match content.border_label {
        Some(text) => label::border_title(text@, info.rect.width),
        None => None,
    }
}

/// The colour of the box of a pane.
pub open spec fn box_style(info: PaneInfo, colors: BorderColors) -> Style {
    colored(
        if info.is_focused {
            colors.active
        } else {
            colors.inactive
        },
    )
}

/// The lines of the box of a pane: the configured ones around the focused pane
/// while the keyboard drives it, else plain ones.
pub open spec fn box_lines(app: AppState, info: PaneInfo) -> PaneBorderStyle {
    if info.is_focused && app.mode == Mode::Terminal {
        app.pane_border_style
    } else {
        PaneBorderStyle::Plain
    }
}

/// The cells of a grid with the box of a pane drawn, in box mode.
pub open spec fn framed(
    app: AppState,
    area: Rect,
    cells: Map<(u16, u16), CellView>,
    colors: BorderColors,
    info: PaneInfo,
    content: PaneContent,
) -> Map<(u16, u16), CellView> {
    let symbols = canvas::border_symbols(box_lines(app, info));
    if box_mode(app) {
        match pane_title(info, content) {
            Some(title) => canvas::titled_box(
                area,
                cells,
                info.rect,
                symbols,
                box_style(info, colors),
                title,
            ),
            None => canvas::boxed(area, cells, info.rect, symbols, box_style(info, colors)),
        }
    } else {
        cells
    }
}

/// `after` is what a grid's cells become where the box of a pane is drawn, in
/// box mode: a title of plain characters has one cell for each, the box is the
/// same with and without a title off the title's place, and cells that are not
/// on the box stay as they are.
pub open spec fn frame_drawn(
    app: AppState,
    grid: Rect,
    before: Map<(u16, u16), CellView>,
    after: Map<(u16, u16), CellView>,
    colors: BorderColors,
    info: PaneInfo,
    content: PaneContent,
) -> bool {
    let symbols = canvas::border_symbols(box_lines(app, info));
    let edges = canvas::shared_edges(info.rect, grid);
    &&& after == framed(app, grid, before, colors, info, content)
    &&& box_mode(app) ==> {
        &&& pane_title(info, content) matches Some(title) ==> (label::is_plain_text(title) ==> after
            == canvas::plain_titled_box(
            grid,
            before,
            info.rect,
            symbols,
            box_style(info, colors),
            title,
        ))
        &&& forall|x: u16, y: u16|
            before.contains_key((x, y)) && !canvas::on_title_row(edges, x as int, y as int)
                ==> #[trigger] after[(x, y)] == canvas::boxed(
                grid,
                before,
                info.rect,
                symbols,
                box_style(info, colors),
            )[(x, y)]
    }
    &&& forall|x: u16, y: u16|
        before.contains_key((x, y)) && !canvas::on_edges(edges, x as int, y as int)
            ==> #[trigger] after[(x, y)] == before[(x, y)]
}

/// The host's cursor is shown in a pane: the focused one, while the keyboard
/// drives it, at the end of its scrollback, and where it exposes the cursor.
pub open spec fn shows_cursor(app: AppState, info: PaneInfo, content: PaneContent) -> bool {
    &&& info.is_focused
    &&& app.mode == Mode::Terminal
    &&& !placement::scrolled_back(content.runtime)
    &&& content.exposes_host_cursor
}

/// A pane is dimmed: one without the focus among others, while the keyboard
/// drives no terminal.
pub open spec fn is_dimmed(app: AppState, info: PaneInfo) -> bool {
    !info.is_focused && multi_pane(app) && app.mode != Mode::Terminal
}

/// The cells of a grid once a pane is dimmed, where it is.
pub open spec fn dimmed_where_due(
    app: AppState,
    cells: Map<(u16, u16), CellView>,
    info: PaneInfo,
) -> Map<(u16, u16), CellView> {
    if is_dimmed(app, info) {
        overlay::dimmed(cells, info.inner_rect)
    } else {
        cells
    }
}

/// `after` is what a grid's cells become where a drawn terminal is dimmed, then
/// its selection is laid over it, then copy mode's cursor.
pub open spec fn overlaid<F: Fn(Rgb) -> bool>(
    app: AppState,
    before: Map<(u16, u16), CellView>,
    after: Map<(u16, u16), CellView>,
    info: PaneInfo,
    selection: Option<Selection>,
    is_dark: F,
) -> bool {
    exists|selected: Map<(u16, u16), CellView>|
        {
            &&& overlay::selection_laid_over(
                dimmed_where_due(app, before, info),
                selected,
                selection,
                info.id,
                info.inner_rect,
                app.palette,
                app.host_terminal_theme,
                is_dark,
            )
            &&& after == #[trigger] overlay::cursor_drawn(selected, app, info)
        }
}

/// The cells of a grid when the drawing goes on with the pane of that index:
/// behind the last pane the lines between panes are drawn, in line mode.
pub open spec fn advanced(
    app: AppState,
    area: Rect,
    cells: Map<(u16, u16), CellView>,
    colors: BorderColors,
    index: int,
) -> Map<(u16, u16), CellView> {
    if index >= app.view.pane_infos@.len() && line_mode(app) {
        lines::split_lines_drawn(
            area,
            cells,
            app.view.pane_infos@,
            app.view.split_borders@,
            lines::line_look(
                canvas::border_symbols(app.pane_border_style),
                app.pane_border_style,
                colors.active,
                colors.inactive,
            ),
        )
    } else {
        cells
    }
}

/// What the drawing needs to go on with the pane of that index.
pub open spec fn request_for(app: AppState, index: int) -> RenderRequest {
    if index < app.view.pane_infos@.len() {
        RenderRequest::LookUpPane { index: index as usize }
    } else {
        RenderRequest::Finished
    }
}

/// The events that the requests of the drawing lead to.
pub open spec fn event_expected(app: AppState, event: RenderEvent) -> bool {
    match event {
        RenderEvent::Start => true,
        RenderEvent::PaneMissing { index } => placement::active_tab(app) is Some && index
            < app.view.pane_infos@.len(),
        RenderEvent::PaneFound { index, content } => placement::active_tab(app) is Some && index
            < app.view.pane_infos@.len(),
        RenderEvent::TerminalDrawn { index, selection } => placement::active_tab(app) is Some
            && index < app.view.pane_infos@.len(),
    }
}

/// Going on with the pane of that index reaches only cells that the grid holds.
pub open spec fn advance_fits(
    app: AppState,
    area: Rect,
    cells: Map<(u16, u16), CellView>,
    index: int,
) -> bool {
    index >= app.view.pane_infos@.len() && line_mode(app) ==> lines::split_lines_fit(
        area,
        cells,
        app.view.pane_infos@,
        app.view.split_borders@,
    )
}

/// The step of drawing that an event leads to reaches only cells that the grid
/// holds.
pub open spec fn step_fits(
    app: AppState,
    grid: Rect,
    cells: Map<(u16, u16), CellView>,
    area: Rect,
    event: RenderEvent,
) -> bool {
    match event {
        RenderEvent::Start => if placement::active_tab(app) is Some {
            advance_fits(app, grid, cells, 0)
        } else {
            takes_empty_screen(grid, cells, area, new_workspace_keys(app.new_workspace_label))
        },
        RenderEvent::PaneMissing { index } => advance_fits(app, grid, cells, index + 1),
        RenderEvent::PaneFound { index, content } => box_mode(app) ==> canvas::whole(grid, cells),
        RenderEvent::TerminalDrawn { index, selection } => {
            let info = app.view.pane_infos@[index as int];
            &&& is_dimmed(app, info) ==> overlay::dim_fits(cells, info.inner_rect)
            &&& overlay::shown_in(selection, info.id) ==> overlay::highlight_fits(
                cells,
                info.inner_rect,
                selection->0,
            )
            &&& overlay::cursor_fits(cells, app, info)
            &&& advance_fits(app, grid, cells, index + 1)
        },
    }
}

/// `after` and `request` are what an event makes of a grid's cells and asks for
/// next.
pub open spec fn step_taken<F: Fn(Rgb) -> bool>(
    app: AppState,
    grid: Rect,
    before: Map<(u16, u16), CellView>,
    after: Map<(u16, u16), CellView>,
    area: Rect,
    colors: BorderColors,
    event: RenderEvent,
    request: RenderRequest,
    is_dark: F,
) -> bool {
    match event {
        RenderEvent::Start => if placement::active_tab(app) is Some {
            &&& after == advanced(app, grid, before, colors, 0)
            &&& request == request_for(app, 0)
        } else {
            &&& empty_screen_drawn(app, grid, before, after, area)
            &&& request == RenderRequest::Finished
        },
        RenderEvent::PaneMissing { index } => {
            &&& after == advanced(app, grid, before, colors, index + 1)
            &&& request == request_for(app, index + 1)
        },
        RenderEvent::PaneFound { index, content } => {
            let info = app.view.pane_infos@[index as int];
            &&& frame_drawn(app, grid, before, after, colors, info, content)
            &&& request == RenderRequest::DrawTerminal {
                index,
                show_cursor: shows_cursor(app, info, content),
            }
        },
        RenderEvent::TerminalDrawn { index, selection } => {
            let info = app.view.pane_infos@[index as int];
            &&& exists|drawn: Map<(u16, u16), CellView>|
                {
                    &&& overlaid(app, before, drawn, info, selection, is_dark)
                    &&& after == #[trigger] advanced(app, grid, drawn, colors, index + 1)
                }
            &&& request == request_for(app, index + 1)
        },
    }
}

/// The number of panes of the workspace that is shown, where there is one.
fn active_pane_count(app: &AppState) -> (count: Option<usize>)
    ensures
        match count {
            Some(count) => placement::active_tab(*app) is Some && count == placement::active_tab(
                *app,
            )->0.layout.pane_count,
            None => placement::active_tab(*app) is None,
        },
{
    match app.active {
        Some(index) => if index < app.workspaces.len() {
            Some(app.workspaces[index].layout.pane_count)
        } else {
            None
        },
        None => None,
    }
}

/// Goes on with the pane of that index, or draws the lines between panes behind
/// the last one.
fn advance(
    app: &AppState,
    buf: &mut Buffer,
    colors: BorderColors,
    line_mode: bool,
    index: usize,
) -> (request: RenderRequest)
    requires
        line_mode == self::line_mode(*app),
        advance_fits(
            *app,
            canvas::buffer_area(*old(buf)),
            canvas::buffer_cells(*old(buf)),
            index as int,
        ),
    ensures
        canvas::buffer_area(*final(buf)) == canvas::buffer_area(*old(buf)),
        canvas::buffer_cells(*final(buf)) == advanced(
            *app,
            canvas::buffer_area(*old(buf)),
            canvas::buffer_cells(*old(buf)),
            colors,
            index as int,
        ),
        canvas::buffer_cells(*final(buf)).dom() == canvas::buffer_cells(*old(buf)).dom(),
        request == request_for(*app, index as int),
{
    if index < app.view.pane_infos.len() {
        return RenderRequest::LookUpPane { index };
    }
    if line_mode {
        let configured = border_set_for_style(&app.pane_border_style);
        render_split_lines(app, buf, colors.active, colors.inactive, &configured);
    }
    RenderRequest::Finished
}

/// Draws the box of a pane, in box mode.
fn draw_frame(
    app: &AppState,
    buf: &mut Buffer,
    colors: BorderColors,
    box_mode: bool,
    info: &PaneInfo,
    content: &PaneContent,
)
    requires
        box_mode == self::box_mode(*app),
        box_mode ==> canvas::whole(
            canvas::buffer_area(*old(buf)),
            canvas::buffer_cells(*old(buf)),
        ),
    ensures
        canvas::buffer_area(*final(buf)) == canvas::buffer_area(*old(buf)),
        canvas::buffer_cells(*final(buf)).dom() == canvas::buffer_cells(*old(buf)).dom(),
        frame_drawn(
            *app,
            canvas::buffer_area(*old(buf)),
            canvas::buffer_cells(*old(buf)),
            canvas::buffer_cells(*final(buf)),
            colors,
            *info,
            *content,
        ),
{
    if !box_mode {
        return;
    }
    let border_style = if info.is_focused {
        Style::new().fg(colors.active)
    } else {
        Style::new().fg(colors.inactive)
    };
    let border_set = if info.is_focused && app.mode == Mode::Terminal {
        border_set_for_style(&app.pane_border_style)
    } else {
        border_set_for_style(&PaneBorderStyle::Plain)
    };
    let title: Option<String> = match &content.border_label {
        Some(text) => pane_border_title(text.as_str(), info.rect.width),
        None => None,
    };
    match title {
        Some(title) => draw_titled_box(buf, info.rect, &border_set, border_style, title.as_str()),
        None => draw_box(buf, info.rect, &border_set, border_style),
    }
}

/// Takes the step of drawing that an event leads to, and says what has to
/// happen before the next one. `is_dark` tells dark colours from light ones.
pub fn render_panes<F: Fn(Rgb) -> bool>(
    app: &AppState,
    buf: &mut Buffer,
    area: Rect,
    colors: BorderColors,
    event: &RenderEvent,
    is_dark: &F,
) -> (request: RenderRequest)
    requires
        event_expected(*app, *event),
        step_fits(
            *app,
            canvas::buffer_area(*old(buf)),
            canvas::buffer_cells(*old(buf)),
            area,
            *event,
        ),
        forall|rgb: Rgb| call_requires(*is_dark, (rgb,)),
    ensures
        canvas::buffer_area(*final(buf)) == canvas::buffer_area(*old(buf)),
        canvas::buffer_cells(*final(buf)).dom() == canvas::buffer_cells(*old(buf)).dom(),
        step_taken(
            *app,
            canvas::buffer_area(*old(buf)),
            canvas::buffer_cells(*old(buf)),
            canvas::buffer_cells(*final(buf)),
            area,
            colors,
            *event,
            request,
            *is_dark,
        ),
{
    let count: Option<usize> = active_pane_count(app);
    assert(app.view.pane_infos.len() <= usize::MAX);
    let multi_pane = match count {
        Some(count) => count > 1,
        None => false,
    };
    let box_mode = multi_pane && app.pane_border_mode == PaneBorderMode::Box;
    let line_mode = multi_pane && app.pane_border_mode == PaneBorderMode::Line;
    match event {
        RenderEvent::Start => {
            if count.is_none() {
                render_empty(app, buf, area);
                return RenderRequest::Finished;
            }
            advance(app, buf, colors, line_mode, 0)
        },
        RenderEvent::PaneMissing { index } => advance(app, buf, colors, line_mode, *index + 1),
        RenderEvent::PaneFound { index, content } => {
            let info = &app.view.pane_infos[*index];
            draw_frame(app, buf, colors, box_mode, info, content);
            let show_cursor = info.is_focused && app.mode == Mode::Terminal
                && !pane_is_scrolled_back(&content.runtime) && content.exposes_host_cursor;
            RenderRequest::DrawTerminal { index: *index, show_cursor }
        },
        RenderEvent::TerminalDrawn { index, selection } => {
            let info = &app.view.pane_infos[*index];
            let ghost before = canvas::buffer_cells(*buf);
            let should_dim = !info.is_focused && multi_pane && app.mode != Mode::Terminal;
            if should_dim {
                dim_cells(buf, info.inner_rect);
            }
            assert(canvas::buffer_cells(*buf) == dimmed_where_due(*app, before, *info));
            assert(canvas::buffer_cells(*buf).dom() =~= before.dom());
            render_selection_highlight(
                selection,
                buf,
                info.id,
                info.inner_rect,
                &app.palette,
                app.host_terminal_theme,
                is_dark,
            );
            let ghost selected = canvas::buffer_cells(*buf);
            assert(selected.dom() =~= before.dom());
            render_copy_mode_cursor(app, buf, info);
            let ghost drawn = canvas::buffer_cells(*buf);
            assert(drawn == overlay::cursor_drawn(selected, *app, *info));
            assert(overlaid(*app, before, drawn, *info, *selection, *is_dark));
            assert(drawn.dom() =~= before.dom());
            advance(app, buf, colors, line_mode, *index + 1)
        },
    }
}

/// Whether going on with the pane of that index can be drawn.
fn can_advance(app: &AppState, buf: &Buffer, line_mode: bool, index: usize) -> (fits: bool)
    requires
        line_mode == self::line_mode(*app),
    ensures
        fits == advance_fits(
            *app,
            canvas::buffer_area(*buf),
            canvas::buffer_cells(*buf),
            index as int,
        ),
{
    index < app.view.pane_infos.len() || !line_mode || can_draw_split_lines(app, buf)
}

/// Whether the step of drawing that an event leads to can be taken: the event
/// answers a request, and every cell that is drawn is one that the grid holds.
pub fn can_render(
    app: &AppState,
    buf: &Buffer,
    area: Rect,
    event: &RenderEvent,
) -> (fits: bool)
    ensures
        fits == (event_expected(*app, *event) && step_fits(
            *app,
            canvas::buffer_area(*buf),
            canvas::buffer_cells(*buf),
            area,
            *event,
        )),
{
    let count: Option<usize> = active_pane_count(app);
    assert(app.view.pane_infos.len() <= usize::MAX);
    let multi_pane = match count {
        Some(count) => count > 1,
        None => false,
    };
    let box_mode = multi_pane && app.pane_border_mode == PaneBorderMode::Box;
    let line_mode = multi_pane && app.pane_border_mode == PaneBorderMode::Line;
    match event {
        RenderEvent::Start => if count.is_some() {
            can_advance(app, buf, line_mode, 0)
        } else {
            can_draw_empty_screen(app, buf, area)
        },
        RenderEvent::PaneMissing { index } => {
            if count.is_none() || *index >= app.view.pane_infos.len() {
                return false;
            }
            can_advance(app, buf, line_mode, *index + 1)
        },
        RenderEvent::PaneFound { index, content } => {
            if count.is_none() || *index >= app.view.pane_infos.len() {
                return false;
            }
            !box_mode || is_whole(buf)
        },
        RenderEvent::TerminalDrawn { index, selection } => {
            if count.is_none() || *index >= app.view.pane_infos.len() {
                return false;
            }
            let info = &app.view.pane_infos[*index];
            let should_dim = !info.is_focused && multi_pane && app.mode != Mode::Terminal;
            if should_dim && !can_dim(buf, info.inner_rect) {
                return false;
            }
            if let Some(sel) = selection {
                if sel.visible && sel.pane_id == info.id && !can_highlight(
                    buf,
                    info.inner_rect,
                    sel,
                ) {
                    return false;
                }
            }
            can_draw_cursor(app, buf, info) && can_advance(app, buf, line_mode, *index + 1)
        },
    }
}

/// Takes the step of drawing that an event leads to, where it can be taken, and
/// leaves the grid as it is where it cannot. `is_dark` tells dark colours from
/// light ones.
pub fn try_render_panes<F: Fn(Rgb) -> bool>(
    app: &AppState,
    buf: &mut Buffer,
    area: Rect,
    colors: BorderColors,
    event: &RenderEvent,
    is_dark: &F,
) -> (request: Option<RenderRequest>)
    requires
        forall|rgb: Rgb| call_requires(*is_dark, (rgb,)),
    ensures
        request is Some <==> event_expected(*app, *event) && step_fits(
            *app,
            canvas::buffer_area(*old(buf)),
            canvas::buffer_cells(*old(buf)),
            area,
            *event,
        ),
        canvas::buffer_area(*final(buf)) == canvas::buffer_area(*old(buf)),
        canvas::buffer_cells(*final(buf)).dom() == canvas::buffer_cells(*old(buf)).dom(),
        match request {
            Some(next) => step_taken(
                *app,
                canvas::buffer_area(*old(buf)),
                canvas::buffer_cells(*old(buf)),
                canvas::buffer_cells(*final(buf)),
                area,
                colors,
                *event,
                next,
                *is_dark,
            ),
            None => *final(buf) == *old(buf),
        },
{
    if can_render(app, buf, area, event) {
        Some(render_panes(app, buf, area, colors, event, is_dark))
    } else {
        None
    }
}

/// Without a workspace to show, drawing is one step that leaves exactly what
/// drawing the empty screen alone leaves, and asks for nothing more. The same
/// grids take both, whether no workspace is active or the active one is gone.
pub proof fn no_workspace_gives_the_empty_screen<F: Fn(Rgb) -> bool>(
    app: AppState,
    grid: Rect,
    before: Map<(u16, u16), CellView>,
    after: Map<(u16, u16), CellView>,
    alone: Map<(u16, u16), CellView>,
    area: Rect,
    colors: BorderColors,
    request: RenderRequest,
    is_dark: F,
)
    requires
        app.active is None || app.active->0 >= app.workspaces@.len(),
        step_taken(
            app,
            grid,
            before,
            after,
            area,
            colors,
            RenderEvent::Start,
            request,
            is_dark,
        ),
        empty_screen_drawn(app, grid, before, alone, area),
    ensures
        after == alone,
        request == RenderRequest::Finished,
        event_expected(app, RenderEvent::Start),
        step_fits(app, grid, before, area, RenderEvent::Start) == takes_empty_screen(
            grid,
            before,
            area,
            new_workspace_keys(app.new_workspace_label),
        ),
{
}

/// Drawing goes through the panes of the view in order and ends behind the
/// last one: each is asked for once, drawn where its terminal runs, and left
/// for the next one.
pub proof fn panes_are_drawn_in_order<F: Fn(Rgb) -> bool>(
    app: AppState,
    grid: Rect,
    before: Map<(u16, u16), CellView>,
    after: Map<(u16, u16), CellView>,
    area: Rect,
    colors: BorderColors,
    event: RenderEvent,
    request: RenderRequest,
    is_dark: F,
)
    requires
        event_expected(app, event),
        step_taken(app, grid, before, after, area, colors, event, request, is_dark),
        app.view.pane_infos@.len() <= usize::MAX,
    ensures
        match event {
            RenderEvent::Start => request == RenderRequest::Finished || request
                == RenderRequest::LookUpPane { index: 0 },
            RenderEvent::PaneMissing { index } => if index + 1 < app.view.pane_infos@.len() {
                request == RenderRequest::LookUpPane { index: (index + 1) as usize }
            } else {
                request == RenderRequest::Finished
            },
            RenderEvent::PaneFound { index, content } => request matches RenderRequest::DrawTerminal {
                index: drawn,
                show_cursor,
            } && drawn == index,
            RenderEvent::TerminalDrawn { index, selection } => if index + 1
                < app.view.pane_infos@.len() {
                request == RenderRequest::LookUpPane { index: (index + 1) as usize }
            } else {
                request == RenderRequest::Finished
            },
        },
{
}

/// Every answer to a request is an event that the drawing takes.
pub proof fn answers_are_expected<F: Fn(Rgb) -> bool>(
    app: AppState,
    grid: Rect,
    before: Map<(u16, u16), CellView>,
    after: Map<(u16, u16), CellView>,
    area: Rect,
    colors: BorderColors,
    event: RenderEvent,
    request: RenderRequest,
    is_dark: F,
    content: PaneContent,
    selection: Option<Selection>,
)
    requires
        event_expected(app, event),
        step_taken(app, grid, before, after, area, colors, event, request, is_dark),
        app.view.pane_infos@.len() <= usize::MAX,
    ensures
        match request {
            RenderRequest::LookUpPane { index } => {
                &&& event_expected(app, RenderEvent::PaneMissing { index })
                &&& event_expected(app, RenderEvent::PaneFound { index, content })
            },
            RenderRequest::DrawTerminal { index, show_cursor } => event_expected(
                app,
                RenderEvent::TerminalDrawn { index, selection },
            ),
            RenderRequest::Finished => true,
        },
{
}

/// The host's cursor is shown in no more than the focused pane, and never over
/// scrollback.
pub proof fn cursor_only_in_the_focused_pane(app: AppState, info: PaneInfo, content: PaneContent)
    requires
        shows_cursor(app, info, content),
    ensures
        info.is_focused,
        !placement::scrolled_back(content.runtime),
        !is_dimmed(app, info),
{
}

/// A pane that is alone has neither box nor lines nor dimming, in any mode, and
/// fills the whole area.
pub proof fn single_pane_is_bare(
    app: AppState,
    area: Rect,
    splits: Seq<geometry::SplitBorder>,
    info: PaneInfo,
    k: int,
)
    requires
        placement::active_tab(app) is Some,
        placement::active_tab(app)->0.layout.pane_count <= 1,
        0 <= k < placement::shown_panes(
            placement::active_tab(app)->0,
            area,
            app.pane_border_mode,
            splits,
        ).len(),
    ensures
        !box_mode(app),
        !line_mode(app),
        !is_dimmed(app, info),
        placement::shown_panes(
            placement::active_tab(app)->0,
            area,
            app.pane_border_mode,
            splits,
        )[k].room == area,
{
}

} // verus!
