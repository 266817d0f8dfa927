use panes::canvas::PaneBorderStyle;
use panes::geometry::{
    has_line_room, inner_rect_for_line_mode, pane_inner_rect, stable_terminal_inner_rect, Direction, Rect,
    SplitBorder,
};
use panes::model::{
    AppState, HostCellSize, Layout, Mode, PaneBorderMode, PaneId, PaneInfo, PaneRuntimes,
    ResizeRequest, ScrollMetrics, Tab, TerminalId, TerminalRuntime, TerminalRuntimeRegistry,
    ViewState,
};
use panes::placement::{
    can_place_panes, can_tile, compute_pane_infos, has_gutter, pane_is_scrolled_back,
    resize_tab_panes, runtime_for_tab_pane, stable_scrollbar_gutter,
};
use panes::style::{Color, Palette, TerminalTheme};
use std::collections::{HashMap, HashSet};

const CELL: HostCellSize = HostCellSize { width_px: 8, height_px: 16 };

fn pane(raw: u32, rect: Rect, is_focused: bool) -> PaneInfo {
    PaneInfo {
        id: PaneId::from_raw(raw),
        rect,
        inner_rect: rect,
        scrollbar_rect: None,
        is_focused,
    }
}

fn tab(panes: Vec<PaneInfo>, splits: Vec<SplitBorder>, zoomed: bool) -> Tab {
    let focused = panes.iter().find(|info| info.is_focused).unwrap().id;
    let terminals = panes
        .iter()
        .map(|info| (info.id.raw, TerminalId { raw: 100 + u64::from(info.id.raw) }))
        .collect();
    Tab {
        layout: Layout { pane_count: panes.len(), focused, panes, splits },
        zoomed,
        terminals,
    }
}

fn app(tab: Tab, mode: PaneBorderMode) -> AppState {
    AppState {
        active: Some(0),
        workspaces: vec![tab],
        mode: Mode::Terminal,
        pane_border_mode: mode,
        pane_border_style: PaneBorderStyle::Plain,
        palette: Palette {
            accent: Color::Blue,
            overlay0: Color::Gray,
            overlay1: Color::DarkGray,
            panel_bg: Color::Reset,
            surface_dim: Color::Black,
            panel_contrast_fg: Color::White,
        },
        host_terminal_theme: TerminalTheme { foreground: None, background: None },
        view: ViewState { pane_infos: vec![], split_borders: vec![] },
        copy_mode: None,
        direct_attach_resize_locks: HashSet::new(),
        new_workspace_label: None,
    }
}

fn runtime(offset_from_bottom: usize, shows_scrollbar: bool) -> TerminalRuntime {
    TerminalRuntime {
        scroll_metrics: Some(ScrollMetrics { offset_from_bottom, shows_scrollbar }),
    }
}

fn running(panes: &[(u32, TerminalRuntime)]) -> PaneRuntimes {
    PaneRuntimes { runtimes: panes.iter().copied().collect() }
}

fn registry(panes: &[(u32, TerminalRuntime)]) -> TerminalRuntimeRegistry {
    TerminalRuntimeRegistry {
        runtimes: panes.iter().map(|(raw, rt)| (100 + u64::from(*raw), *rt)).collect(),
    }
}

fn split(pos: u16, direction: Direction, area: Rect) -> SplitBorder {
    SplitBorder { pos, direction, area }
}

fn request(raw: u32, rows: u16, cols: u16) -> ResizeRequest {
    ResizeRequest {
        pane_id: PaneId::from_raw(raw),
        rows,
        cols,
        cell_width_px: CELL.width_px,
        cell_height_px: CELL.height_px,
    }
}

fn two_columns() -> (Vec<PaneInfo>, Vec<SplitBorder>) {
    (
        vec![
            pane(1, Rect::new(0, 0, 50, 24), true),
            pane(2, Rect::new(50, 0, 50, 24), false),
        ],
        vec![split(50, Direction::Horizontal, Rect::new(0, 0, 100, 24))],
    )
}

#[test]
fn pane_scrollbar_gutter_is_reserved_before_scrollback_exists() {
    let area = Rect::new(10, 3, 40, 8);
    let app = app(tab(vec![pane(1, area, true)], vec![], false), PaneBorderMode::Box);
    let (infos, _) =
        compute_pane_infos(&app, &running(&[(1, runtime(0, false))]), area, false, CELL, &[]);
    let info = &infos[0];

    assert_eq!(info.rect, area);
    assert_eq!(info.scrollbar_rect, None);
    assert_eq!(info.inner_rect, Rect::new(10, 3, 39, 8));
}

#[test]
fn zoomed_pane_scrollbar_gutter_is_reserved_before_scrollback_exists() {
    let area = Rect::new(10, 3, 40, 8);
    let app = app(tab(vec![pane(1, area, true)], vec![], true), PaneBorderMode::Box);
    let (infos, _) =
        compute_pane_infos(&app, &running(&[(1, runtime(0, false))]), area, false, CELL, &[]);
    let info = &infos[0];

    assert_eq!(info.rect, area);
    assert_eq!(info.scrollbar_rect, None);
    assert_eq!(info.inner_rect, Rect::new(10, 3, 39, 8));
}

#[test]
fn zoomed_multi_pane_keeps_border_space() {
    let area = Rect::new(10, 3, 40, 8);
    let focused_pane = PaneId::from_raw(2);
    let panes = vec![
        pane(1, Rect::new(10, 3, 20, 8), false),
        pane(2, Rect::new(30, 3, 20, 8), true),
    ];
    let app = app(tab(panes, vec![], true), PaneBorderMode::Box);
    let (infos, _) =
        compute_pane_infos(&app, &running(&[(2, runtime(0, false))]), area, false, CELL, &[]);
    let info = &infos[0];

    assert_eq!(info.id, focused_pane);
    assert_eq!(info.rect, area);
    assert_eq!(info.scrollbar_rect, None);
    assert_eq!(info.inner_rect, Rect::new(11, 4, 37, 6));
    assert_eq!(infos.len(), 1);
    assert!(info.is_focused);
}

#[test]
fn tiny_pane_does_not_reserve_scrollbar_gutter() {
    let area = Rect::new(10, 3, 4, 8);
    let app = app(tab(vec![pane(1, area, true)], vec![], false), PaneBorderMode::Box);
    let (infos, _) =
        compute_pane_infos(&app, &running(&[(1, runtime(0, false))]), area, false, CELL, &[]);
    let info = &infos[0];

    assert_eq!(info.rect, area);
    assert_eq!(info.scrollbar_rect, None);
    assert_eq!(info.inner_rect, area);
}

#[test]
fn pane_scrollbar_reserves_last_column_from_terminal_area() {
    let area = Rect::new(10, 3, 40, 8);
    let app = app(tab(vec![pane(1, area, true)], vec![], false), PaneBorderMode::Box);
    let (infos, _) =
        compute_pane_infos(&app, &running(&[(1, runtime(0, true))]), area, false, CELL, &[]);
    let info = &infos[0];

    assert_eq!(info.rect, area);
    assert_eq!(info.scrollbar_rect, Some(Rect::new(49, 3, 1, 8)));
    assert_eq!(info.inner_rect, Rect::new(10, 3, 39, 8));
}

#[test]
fn inner_rect_for_line_mode_shrinks_split_edges() {
    let splits = vec![split(50, Direction::Horizontal, Rect::new(0, 0, 100, 24))];

    let left_rect = Rect::new(0, 0, 50, 24);
    let right_rect = Rect::new(50, 0, 50, 24);

    let left_inner = inner_rect_for_line_mode(left_rect, &splits);
    assert_eq!(left_inner, Rect::new(0, 0, 49, 24));

    let right_inner = inner_rect_for_line_mode(right_rect, &splits);
    assert_eq!(right_inner, Rect::new(51, 0, 49, 24));
}

#[test]
fn inner_rect_for_line_mode_t_junction() {
    let splits = vec![
        split(50, Direction::Horizontal, Rect::new(0, 0, 100, 24)),
        split(12, Direction::Vertical, Rect::new(0, 0, 50, 24)),
    ];

    let a = inner_rect_for_line_mode(Rect::new(0, 0, 50, 12), &splits);
    assert_eq!(a, Rect::new(0, 0, 49, 11));

    let c = inner_rect_for_line_mode(Rect::new(0, 12, 50, 12), &splits);
    assert_eq!(c, Rect::new(0, 13, 49, 11));

    let b = inner_rect_for_line_mode(Rect::new(50, 0, 50, 24), &splits);
    assert_eq!(b, Rect::new(51, 0, 49, 24));
}

#[test]
fn line_mode_room_does_not_go_below_empty() {
    let area = Rect::new(0, 0, 9, 9);
    let splits = vec![
        split(3, Direction::Horizontal, area),
        split(4, Direction::Horizontal, area),
    ];
    let inner = inner_rect_for_line_mode(Rect::new(3, 0, 1, 5), &splits);
    assert_eq!(inner, Rect { x: 4, y: 0, width: 0, height: 5 });
    // A pane without width has its only edge on the left.
    let inner = inner_rect_for_line_mode(Rect::new(3, 0, 0, 5), &splits[..1]);
    assert_eq!(inner, Rect { x: 4, y: 0, width: 0, height: 5 });
}

#[test]
fn line_mode_edges_give_up_one_cell_in_a_grid_of_four() {
    let splits = vec![
        split(12, Direction::Vertical, Rect::new(0, 0, 100, 24)),
        split(50, Direction::Horizontal, Rect::new(0, 0, 100, 12)),
        split(50, Direction::Horizontal, Rect::new(0, 12, 100, 12)),
    ];
    for (pane, room) in [
        (Rect::new(0, 0, 50, 12), Rect::new(0, 0, 49, 11)),
        (Rect::new(50, 0, 50, 12), Rect::new(51, 0, 49, 11)),
        (Rect::new(0, 12, 50, 12), Rect::new(0, 13, 49, 11)),
        (Rect::new(50, 12, 50, 12), Rect::new(51, 13, 49, 11)),
    ] {
        assert!(has_line_room(pane, &splits));
        assert_eq!(inner_rect_for_line_mode(pane, &splits), room);
    }
    // A line given twice takes no more than once.
    let pane = Rect::new(0, 0, 50, 12);
    let twice = [splits[1], splits[1]];
    assert_eq!(inner_rect_for_line_mode(pane, &twice), Rect::new(0, 0, 49, 12));
    assert_eq!(inner_rect_for_line_mode(pane, &splits[2..]), pane);
}

#[test]
fn line_mode_lines_count_only_beside_the_pane() {
    let pane = Rect::new(10, 10, 5, 4);
    let room = |pos, direction, area| inner_rect_for_line_mode(pane, &[split(pos, direction, area)]);
    for (y, height, left) in [(0, 10, false), (0, 11, true), (13, 3, true), (14, 3, false)] {
        let area = Rect::new(0, y, 30, height);
        let expected = if left { Rect::new(11, 10, 4, 4) } else { pane };
        assert_eq!(room(10, Direction::Horizontal, area), expected);
        let expected = if left { Rect::new(10, 10, 4, 4) } else { pane };
        assert_eq!(room(15, Direction::Horizontal, area), expected);
    }
    for (x, width, top) in [(0, 10, false), (0, 11, true), (14, 3, true), (15, 3, false)] {
        let area = Rect::new(x, 0, width, 30);
        let expected = if top { Rect::new(10, 11, 5, 3) } else { pane };
        assert_eq!(room(10, Direction::Vertical, area), expected);
        let expected = if top { Rect::new(10, 10, 5, 3) } else { pane };
        assert_eq!(room(14, Direction::Vertical, area), expected);
    }
}

#[test]
fn rectangles_end_within_u16() {
    assert_eq!(
        Rect::new(65000, 65500, 1000, 100),
        Rect { x: 65000, y: 65500, width: 535, height: 35 }
    );
    assert_eq!(Rect::new(1, 2, 3, 4), Rect { x: 1, y: 2, width: 3, height: 4 });
}

#[test]
fn borders_take_one_cell_on_each_side() {
    let area = Rect::new(10, 3, 40, 8);
    assert_eq!(pane_inner_rect(area, false), area);
    assert_eq!(pane_inner_rect(area, true), Rect::new(11, 4, 38, 6));
    assert_eq!(pane_inner_rect(Rect::new(5, 5, 1, 2), true), Rect::new(6, 6, 0, 0));
    assert_eq!(pane_inner_rect(Rect::new(5, 5, 0, 0), true), Rect::new(5, 5, 0, 0));
    let corner = Rect { x: u16::MAX, y: u16::MAX, width: 3, height: 3 };
    assert_eq!(
        pane_inner_rect(corner, true),
        Rect { x: u16::MAX, y: u16::MAX, width: 1, height: 1 }
    );
}

#[test]
fn terminal_room_keeps_the_last_column() {
    assert_eq!(stable_terminal_inner_rect(Rect::new(0, 0, 5, 2)), Rect::new(0, 0, 4, 2));
    assert_eq!(stable_terminal_inner_rect(Rect::new(0, 0, 4, 2)), Rect::new(0, 0, 4, 2));
}

#[test]
fn gutter_follows_the_scrollback() {
    let room = Rect::new(2, 1, 10, 3);
    let silent = TerminalRuntime { scroll_metrics: None };
    assert_eq!(stable_scrollbar_gutter(&silent, room), (Rect::new(2, 1, 9, 3), None));
    assert_eq!(
        stable_scrollbar_gutter(&runtime(0, false), room),
        (Rect::new(2, 1, 9, 3), None)
    );
    assert_eq!(
        stable_scrollbar_gutter(&runtime(0, true), room),
        (Rect::new(2, 1, 9, 3), Some(Rect::new(11, 1, 1, 3)))
    );
    assert_eq!(
        stable_scrollbar_gutter(&runtime(0, true), Rect::new(2, 1, 4, 3)),
        (Rect::new(2, 1, 4, 3), None)
    );
}

#[test]
fn scrolled_back_means_above_the_bottom() {
    assert!(!pane_is_scrolled_back(&TerminalRuntime { scroll_metrics: None }));
    assert!(!pane_is_scrolled_back(&runtime(0, true)));
    assert!(pane_is_scrolled_back(&runtime(1, true)));
}

#[test]
fn runtime_of_a_pane_needs_terminal_and_runtime() {
    let (panes, splits) = two_columns();
    let mut tab = tab(panes, splits, false);
    let registry = registry(&[(1, runtime(7, true)), (3, runtime(0, false))]);
    let (terminal, rt) = runtime_for_tab_pane(&registry, &tab, PaneId::from_raw(1)).unwrap();
    assert_eq!(*terminal, TerminalId { raw: 101 });
    assert_eq!(*rt, runtime(7, true));
    // Pane 2 has a terminal that does not run; pane 3 has none.
    assert!(runtime_for_tab_pane(&registry, &tab, PaneId::from_raw(2)).is_none());
    assert!(runtime_for_tab_pane(&registry, &tab, PaneId::from_raw(3)).is_none());
    tab.terminals = HashMap::new();
    assert!(runtime_for_tab_pane(&registry, &tab, PaneId::from_raw(1)).is_none());
}

#[test]
fn nothing_is_placed_without_an_active_workspace() {
    let area = Rect::new(0, 0, 100, 24);
    let (panes, splits) = two_columns();
    let mut state = app(tab(panes, splits, false), PaneBorderMode::Box);
    state.active = None;
    let (infos, requests) = compute_pane_infos(&state, &running(&[]), area, true, CELL, &[]);
    assert!(infos.is_empty() && requests.is_empty());
    state.active = Some(1);
    let (infos, requests) = compute_pane_infos(&state, &running(&[]), area, true, CELL, &[]);
    assert!(infos.is_empty() && requests.is_empty());
}

#[test]
fn each_border_mode_leaves_its_own_room() {
    let area = Rect::new(0, 0, 100, 24);
    let live = [(1, runtime(0, true)), (2, runtime(0, true))];
    for (mode, left, right, bars) in [
        (PaneBorderMode::Box, Rect::new(1, 1, 47, 22), Rect::new(51, 1, 47, 22), (48, 98)),
        (PaneBorderMode::Line, Rect::new(0, 0, 48, 24), Rect::new(51, 0, 48, 24), (48, 99)),
        (PaneBorderMode::Off, Rect::new(0, 0, 99, 24), Rect::new(0, 0, 99, 24), (99, 99)),
    ] {
        let (panes, splits) = two_columns();
        let borders = splits.clone();
        let state = app(tab(panes, splits, false), mode);
        let (infos, _) = compute_pane_infos(&state, &running(&live), area, false, CELL, &borders);
        assert_eq!(infos[0].inner_rect, left);
        assert_eq!(infos[1].inner_rect, right);
        assert_eq!(infos[0].scrollbar_rect.unwrap().x, bars.0);
        assert_eq!(infos[1].scrollbar_rect.unwrap().x, bars.1);
        assert_eq!(infos[1].id, PaneId::from_raw(2));
        assert_eq!(infos[1].rect, Rect::new(50, 0, 50, 24));
        assert!(infos[0].is_focused && !infos[1].is_focused);
    }
}

#[test]
fn pane_without_runtime_keeps_its_whole_room() {
    let area = Rect::new(0, 0, 100, 24);
    let (panes, splits) = two_columns();
    let state = app(tab(panes, splits, false), PaneBorderMode::Box);
    let live = running(&[(1, runtime(0, true))]);
    let (infos, requests) = compute_pane_infos(&state, &live, area, true, CELL, &[]);
    assert_eq!(infos[1].inner_rect, Rect::new(51, 1, 48, 22));
    assert_eq!(infos[1].scrollbar_rect, None);
    assert_eq!(requests, vec![request(1, 22, 47)]);
}

#[test]
fn resizes_skip_locked_terminals_and_come_in_order() {
    let area = Rect::new(0, 0, 100, 24);
    let live = [(1, runtime(0, false)), (2, runtime(0, false))];
    let (panes, splits) = two_columns();
    let mut state = app(tab(panes, splits, false), PaneBorderMode::Box);
    let (_, requests) = compute_pane_infos(&state, &running(&live), area, true, CELL, &[]);
    assert_eq!(requests, vec![request(1, 22, 47), request(2, 22, 47)]);
    let (_, requests) = compute_pane_infos(&state, &running(&live), area, false, CELL, &[]);
    assert!(requests.is_empty());
    state.direct_attach_resize_locks.insert(101);
    let (_, requests) = compute_pane_infos(&state, &running(&live), area, true, CELL, &[]);
    assert_eq!(requests, vec![request(2, 22, 47)]);
}

#[test]
fn background_tab_gets_the_sizes_of_the_shown_tab() {
    let area = Rect::new(0, 0, 100, 24);
    let live = [(1, runtime(3, true)), (2, runtime(0, false))];
    for mode in [PaneBorderMode::Box, PaneBorderMode::Line, PaneBorderMode::Off] {
        for zoomed in [false, true] {
            let (panes, splits) = two_columns();
            let borders = splits.clone();
            let state = app(tab(panes, splits, zoomed), mode);
            let (_, shown) =
                compute_pane_infos(&state, &running(&live), area, true, CELL, &borders);
            let background =
                resize_tab_panes(&state, &registry(&live), &state.workspaces[0], area, CELL);
            assert_eq!(shown, background);
            assert_eq!(shown.len(), if zoomed { 1 } else { 2 });
        }
    }
}

#[test]
fn background_resize_gives_exact_sizes() {
    let area = Rect::new(0, 0, 100, 24);
    let (panes, splits) = two_columns();
    let state = app(tab(panes, splits, false), PaneBorderMode::Line);
    let live = registry(&[(2, runtime(0, false))]);
    let requests = resize_tab_panes(&state, &live, &state.workspaces[0], area, CELL);
    assert_eq!(requests, vec![request(2, 24, 48)]);
}

#[test]
fn geometry_past_u16_is_told_beforehand() {
    let far = Rect { x: 10, y: 0, width: u16::MAX, height: 5 };
    let on_edge = [split(10, Direction::Horizontal, far)];
    let elsewhere = [split(11, Direction::Horizontal, far)];
    assert!(has_line_room(far, &on_edge));
    assert!(!has_line_room(far, &elsewhere));
    assert!(!has_line_room(Rect { x: u16::MAX, ..far }, &[split(u16::MAX, Direction::Horizontal, far)]));
    assert!(has_gutter(Rect { x: 10, y: 0, width: u16::MAX - 9, height: 1 }));
    assert!(!has_gutter(Rect { x: 10, y: 0, width: u16::MAX - 8, height: 1 }));
    assert!(has_gutter(Rect { x: u16::MAX, y: 0, width: 4, height: 1 }));

    let panes = || vec![pane(1, far, true), pane(2, Rect::new(0, 0, 5, 5), false)];
    let live = running(&[(1, runtime(0, false))]);
    let area = Rect::new(0, 0, 100, 24);
    let state = app(tab(panes(), vec![], false), PaneBorderMode::Line);
    assert!(!can_tile(&state.workspaces[0], PaneBorderMode::Line, &elsewhere));
    assert!(can_tile(&state.workspaces[0], PaneBorderMode::Box, &elsewhere));
    assert!(!can_place_panes(&state, &live, area, &elsewhere));
    let state = app(tab(panes(), vec![], false), PaneBorderMode::Box);
    assert!(!can_place_panes(&state, &live, area, &elsewhere));
    let state = app(tab(panes(), vec![], false), PaneBorderMode::Off);
    assert!(can_place_panes(&state, &live, area, &elsewhere));
    let wide = Rect { x: 20, ..far };
    let state = app(tab(vec![pane(1, wide, true)], vec![], false), PaneBorderMode::Box);
    assert!(!can_place_panes(&state, &live, wide, &[]));
    assert!(can_place_panes(&state, &running(&[]), wide, &[]));
    let state = app(tab(vec![pane(1, wide, true)], vec![], true), PaneBorderMode::Box);
    assert!(!can_place_panes(&state, &live, wide, &[]));
}

#[test]
fn panes_stay_in_place_while_scrollback_grows() {
    let area = Rect::new(0, 0, 100, 24);
    let (panes, splits) = two_columns();
    let borders = splits.clone();
    let state = app(tab(panes, splits, false), PaneBorderMode::Line);
    let early = running(&[(1, runtime(0, false)), (2, runtime(0, false))]);
    let later = running(&[(1, runtime(9, true)), (2, runtime(0, true))]);
    let (one, _) = compute_pane_infos(&state, &early, area, false, CELL, &borders);
    let cell = HostCellSize { width_px: 1, height_px: 2 };
    let (two, _) = compute_pane_infos(&state, &later, area, true, cell, &borders);
    assert_eq!(one.len(), two.len());
    for (one, two) in one.iter().zip(&two) {
        assert_eq!(one.scrollbar_rect, None);
        assert!(two.scrollbar_rect.is_some());
        assert_eq!(*one, PaneInfo { scrollbar_rect: None, ..*two });
    }
}
