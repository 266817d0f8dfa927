use panes::canvas::{border_set_for_style, columns_shared, covers, is_whole, PaneBorderStyle};
use panes::geometry::{inner_rect_for_line_mode, Direction, Rect, SplitBorder};
use panes::lines::{can_draw_split_lines, fill_split_line, render_split_lines, CellSet};
use panes::model::{
    AppState, CopyMode, Layout, Mode, PaneBorderMode, PaneId, PaneInfo, ScrollMetrics, Tab,
    TerminalRuntime, ViewState,
};
use panes::overlay::{
    can_dim, can_draw_cursor, can_highlight, dim_cells, render_copy_mode_cursor,
    render_selection_highlight, Selection,
};
use panes::render::{
    can_draw_empty_screen, can_render, render_empty, try_render_panes, BorderColors, PaneContent, RenderEvent, RenderRequest,
};
use panes::style::{
    automatic_selection_style, Color, Palette, Rgb, RgbColor, Style, TerminalTheme,
};
use ratatui::backend::TestBackend;
use ratatui::buffer::Buffer;
use ratatui::layout::Rect as NativeRect;
use ratatui::style::{Color as NativeColor, Modifier, Style as NativeStyle};
use std::collections::{HashMap, HashSet};

const COLORS: BorderColors = BorderColors { active: Color::Green, inactive: Color::DarkGray };

fn is_dark(color: Rgb) -> bool {
    u32::from(color.0) + u32::from(color.1) + u32::from(color.2) < 384
}

fn palette() -> Palette {
    Palette {
        accent: Color::Blue,
        overlay0: Color::Gray,
        overlay1: Color::DarkGray,
        panel_bg: Color::Black,
        surface_dim: Color::Magenta,
        panel_contrast_fg: Color::LightYellow,
    }
}

fn grid(width: u16, height: u16) -> Buffer {
    Buffer::empty(NativeRect::new(0, 0, width, height))
}

/// A grid full of marks, in a style of its own.
fn marked(width: u16, height: u16) -> Buffer {
    let mut buf = grid(width, height);
    for cell in &mut buf.content {
        cell.set_char('x');
        cell.set_style(NativeStyle::new().fg(NativeColor::Red).add_modifier(Modifier::ITALIC));
    }
    buf
}

fn row(buf: &Buffer, y: u16) -> String {
    (buf.area.left()..buf.area.right()).map(|x| buf[(x, y)].symbol()).collect()
}

fn rows(buf: &Buffer) -> Vec<String> {
    (buf.area.top()..buf.area.bottom()).map(|y| row(buf, y)).collect()
}

fn pane(raw: u32, rect: Rect, is_focused: bool) -> PaneInfo {
    PaneInfo {
        id: PaneId::from_raw(raw),
        rect,
        inner_rect: rect,
        scrollbar_rect: None,
        is_focused,
    }
}

fn split(pos: u16, direction: Direction, area: Rect) -> SplitBorder {
    SplitBorder { pos, direction, area }
}

fn app(panes: Vec<PaneInfo>, splits: Vec<SplitBorder>, mode: PaneBorderMode) -> AppState {
    AppState {
        active: Some(0),
        workspaces: vec![Tab {
            layout: Layout {
                pane_count: panes.len(),
                focused: PaneId::from_raw(1),
                panes: vec![],
                splits: vec![],
            },
            zoomed: false,
            terminals: HashMap::new(),
        }],
        mode: Mode::Terminal,
        pane_border_mode: mode,
        pane_border_style: PaneBorderStyle::Plain,
        palette: palette(),
        host_terminal_theme: TerminalTheme {
            foreground: None,
            background: Some(RgbColor { r: 12, g: 14, b: 16 }),
        },
        view: ViewState { pane_infos: panes, split_borders: splits },
        copy_mode: None,
        direct_attach_resize_locks: HashSet::new(),
        new_workspace_label: None,
    }
}

fn content(label: Option<&str>) -> PaneContent {
    PaneContent {
        runtime: TerminalRuntime { scroll_metrics: None },
        border_label: label.map(str::to_string),
        exposes_host_cursor: true,
    }
}

fn found(index: usize, label: Option<&str>) -> RenderEvent {
    RenderEvent::PaneFound { index, content: content(label) }
}

fn drawn(index: usize, selection: Option<Selection>) -> RenderEvent {
    RenderEvent::TerminalDrawn { index, selection }
}

fn step(app: &AppState, buf: &mut Buffer, event: &RenderEvent) -> Option<RenderRequest> {
    let area = Rect::new(0, 0, buf.area.width, buf.area.height);
    try_render_panes(app, buf, area, COLORS, event, &is_dark)
}

fn native(color: Color) -> NativeColor {
    match color {
        Color::Reset => NativeColor::Reset,
        Color::Black => NativeColor::Black,
        Color::Red => NativeColor::Red,
        Color::Green => NativeColor::Green,
        Color::Yellow => NativeColor::Yellow,
        Color::Blue => NativeColor::Blue,
        Color::Magenta => NativeColor::Magenta,
        Color::Cyan => NativeColor::Cyan,
        Color::Gray => NativeColor::Gray,
        Color::DarkGray => NativeColor::DarkGray,
        Color::LightRed => NativeColor::LightRed,
        Color::LightGreen => NativeColor::LightGreen,
        Color::LightYellow => NativeColor::LightYellow,
        Color::LightBlue => NativeColor::LightBlue,
        Color::LightMagenta => NativeColor::LightMagenta,
        Color::LightCyan => NativeColor::LightCyan,
        Color::White => NativeColor::White,
        Color::Rgb(r, g, b) => NativeColor::Rgb(r, g, b),
        Color::Indexed(i) => NativeColor::Indexed(i),
    }
}

fn four_cells(raw: u32) -> Selection {
    Selection {
        pane_id: PaneId::from_raw(raw),
        visible: true,
        rows: vec![vec![true, true, true, false]],
    }
}

#[test]
fn selection_highlight_uses_one_uniform_style() {
    let palette = palette();
    let host_theme = TerminalTheme {
        foreground: None,
        background: Some(RgbColor { r: 12, g: 14, b: 16 }),
    };
    let expected_style: Style = automatic_selection_style(&palette, host_theme, &is_dark);
    let selection = Some(four_cells(1));
    let backend = TestBackend::new(4, 1);
    let mut terminal = ratatui::Terminal::new(backend).unwrap();

    terminal
        .draw(|frame| {
            let buf = frame.buffer_mut();
            buf[(0, 0)].set_style(
                NativeStyle::default()
                    .fg(NativeColor::Rgb(10, 220, 120))
                    .bg(NativeColor::Black),
            );
            buf[(1, 0)].set_style(
                NativeStyle::default()
                    .fg(NativeColor::Rgb(220, 180, 40))
                    .bg(NativeColor::DarkGray)
                    .add_modifier(Modifier::BOLD),
            );
            buf[(2, 0)].set_style(
                NativeStyle::default().fg(NativeColor::Blue).bg(NativeColor::Reset),
            );
            render_selection_highlight(
                &selection,
                buf,
                PaneId::from_raw(1),
                Rect::new(0, 0, 4, 1),
                &palette,
                host_theme,
                &is_dark,
            );
        })
        .unwrap();

    let buffer = terminal.backend().buffer();
    let first = buffer[(0, 0)].style();
    let second = buffer[(1, 0)].style();
    let third = buffer[(2, 0)].style();

    let expected_fg = expected_style.fg.map(native);
    let expected_bg = expected_style.bg.map(native);
    let expected_modifier = Modifier::from_bits_retain(expected_style.add_modifier);
    assert_eq!(first.fg, expected_fg);
    assert_eq!(second.fg, expected_fg);
    assert_eq!(third.fg, expected_fg);
    assert_eq!(first.bg, expected_bg);
    assert_eq!(second.bg, expected_bg);
    assert_eq!(third.bg, expected_bg);
    assert_eq!(first.add_modifier, expected_modifier);
    assert_eq!(second.add_modifier, expected_modifier);
    assert_eq!(third.add_modifier, expected_modifier);
    assert!(!second.add_modifier.contains(Modifier::BOLD));
    // The cell behind the selection stays as it was.
    assert_eq!(buffer[(3, 0)].fg, NativeColor::Reset);
    assert_eq!(buffer[(3, 0)].bg, NativeColor::Reset);
}

#[test]
fn selection_shows_only_in_its_pane_and_where_visible() {
    let before = marked(6, 2);
    let theme = TerminalTheme { foreground: None, background: None };
    for (selection, id) in [
        (None, 1),
        (Some(four_cells(2)), 1),
        (Some(Selection { visible: false, ..four_cells(1) }), 1),
    ] {
        let mut buf = before.clone();
        render_selection_highlight(
            &selection,
            &mut buf,
            PaneId::from_raw(id),
            Rect::new(0, 0, 6, 2),
            &palette(),
            theme,
            &is_dark,
        );
        assert_eq!(buf, before);
    }
    // The mask is laid over the terminal's corner and cut at its edge.
    let mut buf = before.clone();
    render_selection_highlight(
        &Some(four_cells(1)),
        &mut buf,
        PaneId::from_raw(1),
        Rect::new(3, 1, 2, 1),
        &palette(),
        theme,
        &is_dark,
    );
    let changed: Vec<(u16, u16)> = (0..2u16)
        .flat_map(|y| (0..6u16).map(move |x| (x, y)))
        .filter(|at| buf[*at] != before[*at])
        .collect();
    assert_eq!(changed, vec![(3, 1), (4, 1)]);
    assert_eq!(buf[(3, 1)].symbol(), "x");
    assert_eq!(buf[(3, 1)].fg, NativeColor::White);
    assert_eq!(buf[(3, 1)].bg, NativeColor::Black);
    assert_eq!(buf[(3, 1)].modifier, Modifier::empty());
}

#[test]
fn selection_mask_answers_outside_its_rows() {
    let selection = four_cells(1);
    assert!(selection.contains(0, 2));
    assert!(!selection.contains(0, 3));
    assert!(!selection.contains(0, 4));
    assert!(!selection.contains(1, 0));
}

#[test]
fn highlight_needs_the_selected_cells_only() {
    let buf = grid(3, 1);
    let inner = Rect::new(0, 0, 9, 9);
    assert!(can_highlight(&buf, inner, &four_cells(1)));
    assert!(!can_highlight(&buf, Rect::new(1, 0, 9, 9), &four_cells(1)));
    assert!(!can_highlight(&buf, Rect { x: u16::MAX, y: 0, width: 9, height: 9 }, &four_cells(1)));
}

#[test]
fn dimming_adds_a_modifier_and_nothing_else() {
    let before = marked(5, 4);
    let mut buf = before.clone();
    assert!(can_dim(&buf, Rect::new(1, 1, 3, 2)));
    dim_cells(&mut buf, Rect::new(1, 1, 3, 2));
    for y in 0..4u16 {
        for x in 0..5u16 {
            let mut expected = before[(x, y)].clone();
            if (1..4).contains(&x) && (1..3).contains(&y) {
                expected.modifier = Modifier::ITALIC | Modifier::DIM;
            }
            assert_eq!(buf[(x, y)], expected);
        }
    }
    assert!(!can_dim(&buf, Rect::new(3, 1, 3, 2)));
    assert!(can_dim(&buf, Rect::new(9, 1, 0, 2)));
    assert!(!can_dim(&buf, Rect { x: u16::MAX, y: 1, width: 1, height: 1 }));
}

#[test]
fn copy_cursor_is_drawn_in_its_cell() {
    let mut state = app(vec![pane(1, Rect::new(2, 1, 4, 2), true)], vec![], PaneBorderMode::Box);
    state.mode = Mode::Copy;
    state.copy_mode =
        Some(CopyMode { pane_id: PaneId::from_raw(1), cursor_row: 1, cursor_col: 3 });
    let before = marked(8, 4);
    let mut buf = before.clone();
    let info = state.view.pane_infos[0];
    assert!(can_draw_cursor(&state, &buf, &info));
    render_copy_mode_cursor(&state, &mut buf, &info);
    let mut expected = before.clone();
    expected[(5, 2)].fg = NativeColor::LightYellow;
    expected[(5, 2)].bg = NativeColor::Blue;
    expected[(5, 2)].modifier = Modifier::ITALIC | Modifier::BOLD;
    assert_eq!(buf, expected);

    // Off the terminal, in another pane or in another mode nothing is drawn.
    for (mode, id, cursor_row, cursor_col) in
        [(Mode::Copy, 1, 2, 0), (Mode::Copy, 1, 0, 4), (Mode::Copy, 2, 0, 0), (Mode::Other, 1, 0, 0)]
    {
        state.mode = mode;
        state.copy_mode =
            Some(CopyMode { pane_id: PaneId::from_raw(id), cursor_row, cursor_col });
        let mut buf = before.clone();
        render_copy_mode_cursor(&state, &mut buf, &info);
        assert_eq!(buf, before);
    }
    state.mode = Mode::Copy;
    state.copy_mode = None;
    let mut buf = before.clone();
    render_copy_mode_cursor(&state, &mut buf, &info);
    assert_eq!(buf, before);
    // A terminal that lies off the grid has no cell for the cursor.
    state.copy_mode =
        Some(CopyMode { pane_id: PaneId::from_raw(1), cursor_row: 0, cursor_col: 0 });
    assert!(!can_draw_cursor(&state, &buf, &pane(1, Rect::new(8, 0, 2, 2), true)));
}

#[test]
fn every_color_reaches_the_grid() {
    let mut state = app(vec![pane(1, Rect::new(0, 0, 1, 1), true)], vec![], PaneBorderMode::Off);
    state.mode = Mode::Copy;
    state.copy_mode =
        Some(CopyMode { pane_id: PaneId::from_raw(1), cursor_row: 0, cursor_col: 0 });
    let info = state.view.pane_infos[0];
    for color in [
        Color::Reset,
        Color::Black,
        Color::Red,
        Color::Green,
        Color::Yellow,
        Color::Blue,
        Color::Magenta,
        Color::Cyan,
        Color::Gray,
        Color::DarkGray,
        Color::LightRed,
        Color::LightGreen,
        Color::LightYellow,
        Color::LightBlue,
        Color::LightMagenta,
        Color::LightCyan,
        Color::White,
        Color::Rgb(1, 2, 3),
        Color::Indexed(77),
    ] {
        state.palette.accent = color;
        state.palette.panel_contrast_fg = color;
        let mut buf = grid(1, 1);
        render_copy_mode_cursor(&state, &mut buf, &info);
        assert_eq!(buf[(0, 0)].bg, native(color));
        assert_eq!(buf[(0, 0)].fg, native(color));
    }
}

#[test]
fn border_sets_have_their_pieces() {
    let thick = border_set_for_style(&PaneBorderStyle::Thick);
    let plain = border_set_for_style(&PaneBorderStyle::Plain);
    for (set, pieces) in [(thick, "┏┓┗┛┃┃━━"), (plain, "┌┐└┘││──")] {
        let all = [
            set.top_left,
            set.top_right,
            set.bottom_left,
            set.bottom_right,
            set.vertical_left,
            set.vertical_right,
            set.horizontal_top,
            set.horizontal_bottom,
        ];
        assert_eq!(all.concat(), pieces);
    }
}

#[test]
fn grids_are_asked_for_their_cells() {
    let mut buf = Buffer::empty(NativeRect::new(2, 1, 3, 2));
    assert!(is_whole(&buf));
    assert!(covers(&buf, 2, 1, 5, 3));
    assert!(covers(&buf, 9, 9, 9, 12));
    assert!(!covers(&buf, 1, 1, 5, 3));
    assert!(!covers(&buf, 2, 1, 5, 4));
    buf.content.pop();
    assert!(!is_whole(&buf));
    assert!(covers(&buf, 2, 1, 4, 3));
}

fn line_app(panes: Vec<PaneInfo>, splits: Vec<SplitBorder>) -> AppState {
    app(panes, splits, PaneBorderMode::Line)
}

fn draw_lines(app: &AppState, buf: &mut Buffer) {
    assert!(can_draw_split_lines(app, buf));
    let set = border_set_for_style(&app.pane_border_style);
    render_split_lines(app, buf, Color::Green, Color::DarkGray, &set);
}

fn crossing() -> AppState {
    let all = Rect::new(0, 0, 9, 5);
    line_app(
        vec![
            pane(1, Rect::new(0, 0, 4, 2), true),
            pane(2, Rect::new(0, 2, 4, 3), false),
            pane(3, Rect::new(4, 0, 5, 5), false),
        ],
        vec![
            split(4, Direction::Horizontal, all),
            split(2, Direction::Vertical, Rect::new(0, 0, 4, 5)),
        ],
    )
}

#[test]
fn split_lines_meet_in_junctions() {
    let mut buf = grid(9, 5);
    draw_lines(&crossing(), &mut buf);
    assert_eq!(
        rows(&buf),
        vec!["    │    ", "    │    ", "────┤    ", "    │    ", "    │    "]
    );
    let mut state = crossing();
    state.pane_border_style = PaneBorderStyle::Thick;
    state.view.split_borders[1].area = Rect::new(0, 0, 9, 5);
    let mut buf = grid(9, 5);
    draw_lines(&state, &mut buf);
    assert_eq!(
        rows(&buf),
        vec!["    ┃    ", "    ┃    ", "━━━━╋━━━━", "    ┃    ", "    ┃    "]
    );
}

#[test]
fn split_lines_along_the_focus_are_active() {
    let mut buf = grid(9, 5);
    draw_lines(&crossing(), &mut buf);
    for y in 0..5u16 {
        let expected = if y <= 2 { NativeColor::Green } else { NativeColor::DarkGray };
        assert_eq!(buf[(4, y)].fg, expected);
    }
    for x in 0..4u16 {
        assert_eq!(buf[(x, 2)].fg, NativeColor::Green);
        assert_eq!(buf[(x, 1)].fg, NativeColor::Reset);
    }
    // Nothing is active where no pane has the focus.
    let mut state = crossing();
    state.view.pane_infos[0].is_focused = false;
    let mut buf = grid(9, 5);
    draw_lines(&state, &mut buf);
    assert_eq!(buf[(4, 0)].fg, NativeColor::DarkGray);
    // A line that touches no edge of the focused pane is inactive.
    state.view.pane_infos[2].is_focused = true;
    let mut buf = grid(9, 5);
    draw_lines(&state, &mut buf);
    assert_eq!(buf[(4, 0)].fg, NativeColor::Green);
    assert_eq!(buf[(0, 2)].fg, NativeColor::DarkGray);
}

#[test]
fn split_lines_keep_the_rest_of_their_cells() {
    let before = marked(9, 5);
    let mut buf = before.clone();
    draw_lines(&crossing(), &mut buf);
    assert_eq!(buf[(0, 0)], before[(0, 0)]);
    assert_eq!(buf[(4, 0)].modifier, Modifier::ITALIC);
    assert_eq!(buf[(4, 0)].bg, before[(4, 0)].bg);
    let once = buf.clone();
    draw_lines(&crossing(), &mut buf);
    assert_eq!(buf, once);
}

#[test]
fn split_lines_keep_off_the_rooms_of_panes() {
    let state = crossing();
    let before = marked(9, 5);
    let mut buf = before.clone();
    draw_lines(&state, &mut buf);
    for info in &state.view.pane_infos {
        let room = inner_rect_for_line_mode(info.rect, &state.view.split_borders);
        assert!(room.width > 0 && room.height > 0);
        for y in room.y..room.y + room.height {
            for x in room.x..room.x + room.width {
                assert_eq!(buf[(x, y)], before[(x, y)]);
            }
        }
    }
}

#[test]
fn split_lines_are_cut_at_the_grid() {
    let state = line_app(vec![], vec![split(4, Direction::Horizontal, Rect::new(0, 3, 9, 9))]);
    let mut buf = grid(9, 5);
    draw_lines(&state, &mut buf);
    assert_eq!(row(&buf, 2), "         ");
    assert_eq!(row(&buf, 4), "    │    ");
    // A single cell shows the line that it is on.
    let lone = line_app(vec![], vec![split(1, Direction::Vertical, Rect::new(2, 0, 1, 3))]);
    let mut buf = grid(5, 3);
    draw_lines(&lone, &mut buf);
    assert_eq!(row(&buf, 1), "  ─  ");
    // Off the grid nothing is drawn.
    let off = line_app(vec![], vec![split(40, Direction::Horizontal, Rect::new(0, 0, 80, 5))]);
    let mut buf = grid(9, 5);
    draw_lines(&off, &mut buf);
    assert_eq!(buf, grid(9, 5));
}

#[test]
fn split_lines_need_their_cells() {
    let mut buf = grid(9, 5);
    buf.content.truncate(40);
    assert!(!can_draw_split_lines(&crossing(), &buf));
    // Lines count columns from the left edge of the screen.
    let shifted = Buffer::empty(NativeRect::new(5, 0, 9, 5));
    assert!(!can_draw_split_lines(&crossing(), &shifted));
    let long = line_app(
        vec![],
        vec![split(4, Direction::Horizontal, Rect { x: 0, y: 9, width: 9, height: u16::MAX })],
    );
    assert!(!can_draw_split_lines(&long, &grid(9, 5)));
    let wide = line_app(
        vec![pane(1, Rect { x: 9, y: 0, width: u16::MAX, height: 1 }, true)],
        vec![split(4, Direction::Horizontal, Rect::new(0, 0, 9, 5))],
    );
    assert!(!can_draw_split_lines(&wide, &grid(9, 5)));
}

#[test]
fn filling_a_line_marks_cells_beside_the_focus() {
    let mut cells = CellSet::new();
    let mut active = CellSet::new();
    fill_split_line(
        &mut cells,
        &mut active,
        1..9,
        3,
        Direction::Vertical,
        7,
        5,
        Some(Rect::new(2, 0, 2, 3)),
    );
    let on = |set: &CellSet| (0..9u16).filter(|x| set.contains(*x, 3)).collect::<Vec<u16>>();
    assert_eq!(on(&cells), vec![1, 2, 3, 4, 5, 6]);
    assert_eq!(on(&active), vec![2, 3, 4]);
    assert!(!cells.contains(1, 2));
    fill_split_line(&mut cells, &mut active, 0..9, 3, Direction::Horizontal, 7, 3, None);
    assert!(cells.contains(3, 0) && cells.contains(3, 2) && !cells.contains(3, 4));
    assert!(!active.contains(3, 0));
}

#[test]
fn empty_screen_shows_how_to_begin() {
    let mut state = app(vec![], vec![], PaneBorderMode::Box);
    state.active = None;
    state.new_workspace_label = Some("ctrl+n".to_string());
    let mut buf = grid(40, 11);
    assert_eq!(step(&state, &mut buf, &RenderEvent::Start), Some(RenderRequest::Finished));
    assert_eq!(
        rows(&buf),
        vec![
            "┌──────────────────────────────────────┐",
            "│                                      │",
            "│                                      │",
            "│  No workspaces yet                   │",
            "│                                      │",
            "│  A workspace is one project context. │",
            "│  Its root pane (top-left) sets the de│",
            "│                                      │",
            "│  Press ctrl+n to create one          │",
            "│                                      │",
            "└──────────────────────────────────────┘",
        ]
    );
    assert_eq!(buf[(0, 0)].fg, NativeColor::Magenta);
    assert_eq!(buf[(39, 10)].fg, NativeColor::Magenta);
    assert_eq!(buf[(3, 3)].fg, NativeColor::Gray);
    assert_eq!(buf[(3, 5)].fg, NativeColor::DarkGray);
    assert_eq!(buf[(9, 8)].fg, NativeColor::Blue);
    assert_eq!(buf[(9, 8)].modifier, Modifier::BOLD);
    assert_eq!(buf[(15, 8)].fg, NativeColor::Gray);
    assert_eq!(buf[(15, 8)].modifier, Modifier::empty());
}

#[test]
fn wide_keys_change_only_their_own_row() {
    let mut state = app(vec![], vec![], PaneBorderMode::Box);
    state.active = None;
    state.new_workspace_label = Some("n".to_string());
    let mut plain = grid(40, 11);
    step(&state, &mut plain, &RenderEvent::Start);
    state.new_workspace_label = Some("日".to_string());
    let mut wide = grid(40, 11);
    assert_eq!(step(&state, &mut wide, &RenderEvent::Start), Some(RenderRequest::Finished));
    for y in (0..11u16).filter(|y| *y != 8) {
        assert_eq!(row(&wide, y), row(&plain, y));
    }
    assert_eq!(row(&wide, 8), "│  Press 日  to create one              │");
}

#[test]
fn missing_workspaces_draw_the_empty_screen_alone() {
    let mut state = app(
        vec![pane(1, Rect::new(0, 0, 9, 5), true), pane(2, Rect::new(9, 0, 9, 5), false)],
        vec![split(9, Direction::Horizontal, Rect::new(0, 0, 18, 5))],
        PaneBorderMode::Line,
    );
    let area = Rect::new(1, 1, 24, 9);
    for active in [None, Some(1), Some(usize::MAX)] {
        state.active = active;
        let mut alone = marked(30, 12);
        render_empty(&state, &mut alone, area);
        let mut buf = marked(30, 12);
        let request =
            try_render_panes(&state, &mut buf, area, COLORS, &RenderEvent::Start, &is_dark);
        assert_eq!(request, Some(RenderRequest::Finished));
        assert_eq!(buf, alone);
    }
}

#[test]
fn empty_screen_takes_wide_grids() {
    let mut state = app(vec![], vec![], PaneBorderMode::Box);
    state.active = None;
    let mut buf = grid(65535, 10);
    let all = Rect::new(0, 0, 65535, 10);
    for (keys, last) in [
        ("ctrl+n".to_string(), "│  Press ctrl+n to"),
        ("日".to_string(), "│  Press 日  to creat"),
        ("n".repeat(30000), "│  Press nnnnnnnnn"),
        ("\u{17d8}".repeat(21823), "│  Press \u{17d8}"),
    ] {
        state.new_workspace_label = Some(keys);
        buf.reset();
        assert_eq!(step(&state, &mut buf, &RenderEvent::Start), Some(RenderRequest::Finished));
        assert!(row(&buf, 8).starts_with(last));
        assert_eq!(buf[(65534, 0)].symbol(), "┐");
        assert_eq!(buf[(65533, 0)].symbol(), "─");
    }
    // Widths that could pass u16 are only added where the columns end them before.
    state.new_workspace_label = Some("\u{17d8}".repeat(21824));
    assert!(!can_draw_empty_screen(&state, &buf, all));
    assert!(!can_draw_empty_screen(&state, &buf, Rect::new(0, 0, 32768, 10)));
    assert!(can_draw_empty_screen(&state, &buf, Rect::new(0, 0, 32767, 10)));
    assert!(can_draw_empty_screen(&state, &buf, Rect::new(40000, 0, 25535, 10)));
    let before = buf.clone();
    assert_eq!(step(&state, &mut buf, &RenderEvent::Start), None);
    assert_eq!(buf, before);
}

#[test]
fn shared_columns_are_counted() {
    let a = Rect::new(5, 0, 10, 1);
    assert_eq!(columns_shared(a, a), 10);
    assert_eq!(columns_shared(a, Rect::new(0, 0, 8, 1)), 3);
    assert_eq!(columns_shared(a, Rect::new(8, 0, 2, 1)), 2);
    assert_eq!(columns_shared(a, Rect::new(15, 0, 2, 1)), 0);
    assert_eq!(columns_shared(a, Rect { x: 9, y: 0, width: u16::MAX, height: 1 }), 6);
}

#[test]
fn empty_screen_keeps_to_its_area() {
    let mut state = app(vec![], vec![], PaneBorderMode::Box);
    state.active = Some(4);
    let before = marked(30, 12);
    let mut buf = before.clone();
    let area = Rect::new(2, 1, 20, 10);
    let request =
        try_render_panes(&state, &mut buf, area, COLORS, &RenderEvent::Start, &is_dark);
    assert_eq!(request, Some(RenderRequest::Finished));
    for y in 0..12u16 {
        for x in 0..30u16 {
            if !((2..22).contains(&x) && (1..11).contains(&y)) {
                assert_eq!(buf[(x, y)], before[(x, y)]);
            }
        }
    }
    // The grid's own marks stay where the paragraph has no text.
    assert_eq!(row(&buf, 2), "xx│xxxxxxxxxxxxxxxxxx│xxxxxxxx");
    assert_eq!(row(&buf, 4), "xx│  No workspaces ye│xxxxxxxx");
    assert_eq!(row(&buf, 9), "xx│  Press unset to c│xxxxxxxx");
    assert_eq!(row(&buf, 10), "xx└──────────────────┘xxxxxxxx");
}

#[test]
fn boxes_are_drawn_along_the_shared_edges() {
    for (rect, expected) in [
        (Rect::new(1, 1, 4, 3), vec!["xxxxxx", "x┌──┐x", "x│xx│x", "x└──┘x"]),
        (Rect::new(1, 1, 1, 3), vec!["xxxxxx", "x┌xxxx", "x│xxxx", "x└xxxx"]),
        (Rect::new(1, 1, 4, 1), vec!["xxxxxx", "x┌──┐x", "xxxxxx", "xxxxxx"]),
        (Rect::new(2, 2, 1, 1), vec!["xxxxxx", "xxxxxx", "xx┌xxx", "xxxxxx"]),
        (Rect::new(1, 1, 3, 2), vec!["xxxxxx", "x┌─┐xx", "x└─┘xx", "xxxxxx"]),
        (Rect::new(1, 1, 0, 3), vec!["xxxxxx", "xxxxxx", "xxxxxx", "xxxxxx"]),
        // A box that leaves the grid is closed at its edge.
        (Rect::new(3, 2, 9, 9), vec!["xxxxxx", "xxxxxx", "xxx┌─┐", "xxx└─┘"]),
        (Rect::new(9, 9, 3, 3), vec!["xxxxxx", "xxxxxx", "xxxxxx", "xxxxxx"]),
    ] {
        let state = app(
            vec![pane(1, rect, false), pane(2, Rect::new(0, 0, 1, 1), true)],
            vec![],
            PaneBorderMode::Box,
        );
        let mut buf = marked(6, 4);
        let request = step(&state, &mut buf, &found(0, None));
        assert_eq!(
            request,
            Some(RenderRequest::DrawTerminal { index: 0, show_cursor: false })
        );
        assert_eq!(rows(&buf), expected);
    }
}

#[test]
fn focused_box_is_heavy_only_while_the_terminal_is_driven() {
    let mut state = app(
        vec![pane(1, Rect::new(0, 0, 4, 3), true), pane(2, Rect::new(4, 0, 4, 3), false)],
        vec![],
        PaneBorderMode::Box,
    );
    state.pane_border_style = PaneBorderStyle::Thick;
    let mut buf = grid(8, 3);
    assert_eq!(
        step(&state, &mut buf, &found(0, None)),
        Some(RenderRequest::DrawTerminal { index: 0, show_cursor: true })
    );
    assert_eq!(
        step(&state, &mut buf, &found(1, None)),
        Some(RenderRequest::DrawTerminal { index: 1, show_cursor: false })
    );
    assert_eq!(rows(&buf), vec!["┏━━┓┌──┐", "┃  ┃│  │", "┗━━┛└──┘"]);
    assert_eq!(buf[(0, 0)].fg, NativeColor::Green);
    assert_eq!(buf[(4, 0)].fg, NativeColor::DarkGray);
    assert_eq!(buf[(1, 1)].fg, NativeColor::Reset);
    state.mode = Mode::Other;
    let mut buf = grid(8, 3);
    assert_eq!(
        step(&state, &mut buf, &found(0, None)),
        Some(RenderRequest::DrawTerminal { index: 0, show_cursor: false })
    );
    assert_eq!(row(&buf, 0), "┌──┐    ");
}

#[test]
fn titles_stand_on_the_top_edge() {
    let state = app(
        vec![pane(1, Rect::new(1, 0, 10, 3), true), pane(2, Rect::new(0, 0, 1, 1), false)],
        vec![],
        PaneBorderMode::Box,
    );
    for (label, expected) in [
        (" vim ", "x┌ vim ───┐x"),
        ("cargo-watch", "x┌ cargo… ┐x"),
        ("größe", "x┌ größe ─┐x"),
        ("   ", "x┌────────┐x"),
        ("日本", "x┌ 日 本  ──┐x"),
    ] {
        let mut buf = marked(12, 3);
        step(&state, &mut buf, &found(0, Some(label)));
        assert_eq!(row(&buf, 0), expected);
        assert_eq!(row(&buf, 1), "x│xxxxxxxx│x");
        assert_eq!(row(&buf, 2), "x└────────┘x");
        assert_eq!(buf[(2, 0)].fg, NativeColor::Green);
        assert_eq!(buf[(1, 0)].fg, NativeColor::Green);
    }
}

#[test]
fn titles_are_drawn_up_to_the_last_column() {
    let state = app(
        vec![
            pane(1, Rect { x: 65525, y: 0, width: 10, height: 2 }, true),
            pane(2, Rect::new(0, 0, 1, 1), false),
        ],
        vec![],
        PaneBorderMode::Box,
    );
    for (label, expected) in [
        ("cargo-watch", "┌ cargo… ┐"),
        ("日本日本日本", "┌ 日 本 日 ─┐"),
        ("日本日a\u{301}", "┌ 日 本 日 a\u{301}┐"),
        ("日本日a\u{200b}b", "┌ 日 本 日 a\u{200b}┐"),
    ] {
        let mut buf = Buffer::empty(NativeRect { x: 65525, y: 0, width: 10, height: 2 });
        assert_eq!(
            step(&state, &mut buf, &found(0, Some(label))),
            Some(RenderRequest::DrawTerminal { index: 0, show_cursor: true })
        );
        assert_eq!(row(&buf, 0), expected);
        assert_eq!(row(&buf, 1), "└────────┘");
    }
}

#[test]
fn panes_without_box_mode_have_no_box() {
    for mode in [PaneBorderMode::Line, PaneBorderMode::Off] {
        let state = app(
            vec![pane(1, Rect::new(0, 0, 4, 3), true), pane(2, Rect::new(4, 0, 4, 3), false)],
            vec![],
            mode,
        );
        let mut buf = grid(8, 3);
        step(&state, &mut buf, &found(0, Some("title")));
        assert_eq!(buf, grid(8, 3));
    }
    let alone = app(vec![pane(1, Rect::new(0, 0, 8, 3), true)], vec![], PaneBorderMode::Box);
    let mut buf = grid(8, 3);
    step(&alone, &mut buf, &found(0, Some("title")));
    assert_eq!(buf, grid(8, 3));
}

#[test]
fn host_cursor_needs_focus_mode_bottom_and_exposure() {
    let mut state = app(vec![pane(1, Rect::new(0, 0, 8, 3), true)], vec![], PaneBorderMode::Off);
    let mut buf = grid(8, 3);
    let metrics = |offset_from_bottom| {
        Some(ScrollMetrics { offset_from_bottom, shows_scrollbar: true })
    };
    for (offset, exposes, expected) in
        [(0, true, true), (3, true, false), (0, false, false)]
    {
        let event = RenderEvent::PaneFound {
            index: 0,
            content: PaneContent {
                runtime: TerminalRuntime { scroll_metrics: metrics(offset) },
                border_label: None,
                exposes_host_cursor: exposes,
            },
        };
        assert_eq!(
            step(&state, &mut buf, &event),
            Some(RenderRequest::DrawTerminal { index: 0, show_cursor: expected })
        );
    }
    state.mode = Mode::Copy;
    assert_eq!(
        step(&state, &mut buf, &found(0, None)),
        Some(RenderRequest::DrawTerminal { index: 0, show_cursor: false })
    );
    state.mode = Mode::Terminal;
    state.view.pane_infos[0].is_focused = false;
    assert_eq!(
        step(&state, &mut buf, &found(0, None)),
        Some(RenderRequest::DrawTerminal { index: 0, show_cursor: false })
    );
}

#[test]
fn drawing_goes_through_the_panes_and_ends_with_lines() {
    let state = crossing();
    let mut buf = grid(9, 5);
    assert_eq!(
        step(&state, &mut buf, &RenderEvent::Start),
        Some(RenderRequest::LookUpPane { index: 0 })
    );
    assert_eq!(
        step(&state, &mut buf, &RenderEvent::PaneMissing { index: 0 }),
        Some(RenderRequest::LookUpPane { index: 1 })
    );
    assert_eq!(
        step(&state, &mut buf, &found(1, None)),
        Some(RenderRequest::DrawTerminal { index: 1, show_cursor: false })
    );
    assert_eq!(
        step(&state, &mut buf, &drawn(1, None)),
        Some(RenderRequest::LookUpPane { index: 2 })
    );
    assert_eq!(buf, grid(9, 5));
    assert_eq!(
        step(&state, &mut buf, &RenderEvent::PaneMissing { index: 2 }),
        Some(RenderRequest::Finished)
    );
    let mut lines = grid(9, 5);
    draw_lines(&state, &mut lines);
    assert_eq!(buf, lines);
    // Without any pane in the view the lines come at once.
    let bare = AppState {
        view: ViewState { pane_infos: vec![], split_borders: state.view.split_borders.clone() },
        ..crossing()
    };
    let mut buf = grid(9, 5);
    assert_eq!(step(&bare, &mut buf, &RenderEvent::Start), Some(RenderRequest::Finished));
    assert_eq!(row(&buf, 0), "    │    ");
}

#[test]
fn overlays_go_over_the_drawn_terminal_in_order() {
    let mut state = app(
        vec![pane(1, Rect::new(0, 0, 4, 1), false), pane(2, Rect::new(4, 0, 4, 1), true)],
        vec![],
        PaneBorderMode::Off,
    );
    state.mode = Mode::Copy;
    state.copy_mode =
        Some(CopyMode { pane_id: PaneId::from_raw(1), cursor_row: 0, cursor_col: 1 });
    let mut buf = marked(8, 1);
    assert_eq!(
        step(&state, &mut buf, &drawn(0, Some(four_cells(1)))),
        Some(RenderRequest::LookUpPane { index: 1 })
    );
    // Selected: dimming is taken back by the selection.
    assert_eq!(buf[(0, 0)].modifier, Modifier::empty());
    assert_eq!(buf[(0, 0)].bg, NativeColor::Rgb(80, 81, 83));
    // The cursor over the selection.
    assert_eq!(buf[(1, 0)].modifier, Modifier::BOLD);
    assert_eq!(buf[(1, 0)].bg, NativeColor::Blue);
    // Dimmed alone.
    assert_eq!(buf[(3, 0)].modifier, Modifier::ITALIC | Modifier::DIM);
    // Another pane.
    assert_eq!(buf[(4, 0)], marked(8, 1)[(4, 0)]);
    // The focused pane is not dimmed.
    assert_eq!(step(&state, &mut buf, &drawn(1, None)), Some(RenderRequest::Finished));
    assert_eq!(buf[(4, 0)], marked(8, 1)[(4, 0)]);
    assert_eq!(row(&buf, 0), "xxxxxxxx");
}

#[test]
fn nothing_is_dimmed_while_the_terminal_is_driven() {
    let state = app(
        vec![pane(1, Rect::new(0, 0, 4, 1), false), pane(2, Rect::new(4, 0, 4, 1), true)],
        vec![],
        PaneBorderMode::Off,
    );
    let mut buf = marked(8, 1);
    step(&state, &mut buf, &drawn(0, None));
    assert_eq!(buf, marked(8, 1));
}

#[test]
fn steps_that_leave_the_grid_are_not_taken() {
    let mut state = app(
        vec![pane(1, Rect::new(0, 0, 9, 1), false), pane(2, Rect::new(4, 0, 4, 1), true)],
        vec![],
        PaneBorderMode::Box,
    );
    state.mode = Mode::Other;
    let before = marked(8, 1);
    let mut buf = before.clone();
    // Dimming the first pane would go past the right edge.
    assert!(!can_render(&state, &buf, Rect::new(0, 0, 8, 1), &drawn(0, None)));
    assert_eq!(step(&state, &mut buf, &drawn(0, None)), None);
    // So would its selection, and the cursor of copy mode.
    state.mode = Mode::Terminal;
    let selection = Selection {
        pane_id: PaneId::from_raw(1),
        visible: true,
        rows: vec![vec![true; 9]],
    };
    assert_eq!(step(&state, &mut buf, &drawn(0, Some(selection))), None);
    state.mode = Mode::Copy;
    state.view.pane_infos[0].is_focused = true;
    state.copy_mode =
        Some(CopyMode { pane_id: PaneId::from_raw(1), cursor_row: 0, cursor_col: 8 });
    assert_eq!(step(&state, &mut buf, &drawn(0, None)), None);
    // Events that answer no request.
    assert_eq!(step(&state, &mut buf, &RenderEvent::PaneMissing { index: 2 }), None);
    assert_eq!(step(&state, &mut buf, &found(2, None)), None);
    assert_eq!(step(&state, &mut buf, &drawn(2, None)), None);
    state.active = None;
    assert_eq!(step(&state, &mut buf, &found(0, None)), None);
    assert_eq!(buf, before);
    // A grid that lacks cells of its area.
    buf.content.pop();
    assert_eq!(step(&state, &mut buf, &RenderEvent::Start), None);
    state.active = Some(0);
    assert_eq!(step(&state, &mut buf, &found(0, None)), None);
}
