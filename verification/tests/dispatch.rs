//! Tests of gesture classification, hit-test resolution, tool dispatch
//! decisions and live-preview generation.

use pm_plot_helpers::geometry::PatternPos;
use pm_plot_helpers::geometry::PlotPoint;
use pm_plot_helpers::geometry::Pos2;
use pm_plot_helpers::geometry::Vec2;
use pm_plot_helpers::helpers::ClickDispatch;
use pm_plot_helpers::helpers::Colour;
use pm_plot_helpers::helpers::DragDispatch;
use pm_plot_helpers::helpers::PmEguiPlotHelpers;
use pm_plot_helpers::helpers::ResponseTick;
use pm_plot_helpers::pattern::ElementKind;
use pm_plot_helpers::pattern::Pattern;
use pm_plot_helpers::pattern::PatternElement;
use pm_plot_helpers::pattern::Piece;
use pm_plot_helpers::pattern::SelectedElements;
use pm_plot_helpers::pattern::set_render_to_index;
use pm_plot_helpers::tool::AxisKind;
use pm_plot_helpers::tool::CurrentDrawingTool;
use pm_plot_helpers::tool::PmError;
use pm_plot_helpers::tool::SelectionModeKind;
use pm_plot_helpers::tool::ToolKind;
use pm_plot_helpers::transform::ScreenTransform;

fn identity_transform() -> ScreenTransform {
    ScreenTransform {
        frame_min: Pos2::new(0, 0),
        frame_max: Pos2::new(200, 200),
        bounds_min: PlotPoint::new(0, 0),
        dvalue_dpos_x: 1,
        dvalue_dpos_y: 1,
        x_centered: false,
        y_centered: false,
    }
}

fn point_element(id: u64, x: i64, y: i64) -> PatternElement {
    PatternElement { id, kind: ElementKind::Point, pos: PatternPos::new(x, y) }
}

fn curve_element(id: u64, x: i64, y: i64) -> PatternElement {
    PatternElement { id, kind: ElementKind::Curve, pos: PatternPos::new(x, y) }
}

fn helpers_with(pattern: Pattern, tool: CurrentDrawingTool) -> PmEguiPlotHelpers {
    PmEguiPlotHelpers::new(
        pattern,
        tool,
        SelectedElements::default(),
        0,
        Colour::green(),
        Colour::gray(),
        3,
    )
}

fn select_tool() -> CurrentDrawingTool {
    CurrentDrawingTool { kind: ToolKind::Select, select_mode: SelectionModeKind::Element }
}

fn click_at(x: i64, y: i64) -> ResponseTick {
    ResponseTick {
        drag_started: true,
        interact_pointer_pos: Some(Pos2::new(x, y)),
        drag_delta: Vec2::new(0, 0),
    }
}

#[test]
fn click_selects_nearest_point_element() {
    let pattern = Pattern {
        elements: vec![point_element(1, 0, 0), point_element(2, 100, 100)],
        pieces: vec![],
        render_to_index: 9,
    };
    let h = helpers_with(pattern, select_tool());
    let r = h.plot_click_handling(&click_at(2, 2), &identity_transform());
    assert_eq!(
        r,
        ClickDispatch::ItemSelected {
            pos: PatternPos::new(2, 2),
            element_id: 1,
            render_to_index: 9,
        }
    );
}

#[test]
fn click_prefers_point_over_nearer_curve() {
    let pattern = Pattern {
        elements: vec![curve_element(5, 2, 2), point_element(6, 10, 10)],
        pieces: vec![],
        render_to_index: 0,
    };
    let h = helpers_with(pattern, select_tool());
    let r = h.plot_click_handling(&click_at(2, 2), &identity_transform());
    assert_eq!(
        r,
        ClickDispatch::ItemSelected {
            pos: PatternPos::new(2, 2),
            element_id: 6,
            render_to_index: 0,
        }
    );
}

#[test]
fn click_falls_back_to_non_point_elements() {
    let pattern = Pattern {
        elements: vec![curve_element(5, 40, 40), curve_element(7, 3, 3)],
        pieces: vec![],
        render_to_index: 0,
    };
    let h = helpers_with(pattern, select_tool());
    let r = h.plot_click_handling(&click_at(2, 2), &identity_transform());
    assert_eq!(
        r,
        ClickDispatch::ItemSelected {
            pos: PatternPos::new(2, 2),
            element_id: 7,
            render_to_index: 0,
        }
    );
}

#[test]
fn click_never_selects_element_outside_bounds() {
    // The point at (300, 300) is nearer to the click than the one at
    // (50, 50), but lies outside the visible window [0, 200].
    let pattern = Pattern {
        elements: vec![point_element(1, 300, 300), point_element(2, 50, 50)],
        pieces: vec![],
        render_to_index: 0,
    };
    let h = helpers_with(pattern, select_tool());
    let r = h.plot_click_handling(&click_at(190, 190), &identity_transform());
    assert_eq!(
        r,
        ClickDispatch::ItemSelected {
            pos: PatternPos::new(190, 190),
            element_id: 2,
            render_to_index: 0,
        }
    );
}

#[test]
fn click_on_empty_pattern_dispatches_click_no_selection() {
    let h = helpers_with(Pattern::default(), select_tool());
    let r = h.plot_click_handling(&click_at(17, 60), &identity_transform());
    assert_eq!(
        r,
        ClickDispatch::ClickNoSelection { pos: PatternPos::new(17, 60), render_to_index: 0 }
    );
}

#[test]
fn click_without_drag_start_is_ignored() {
    let h = helpers_with(Pattern::default(), select_tool());
    let mut tick = click_at(17, 60);
    tick.drag_started = false;
    let r = h.plot_click_handling(&tick, &identity_transform());
    assert_eq!(r, ClickDispatch::Ignored);
}

#[test]
fn click_beyond_drag_limit_is_ignored() {
    let pattern = Pattern {
        elements: vec![point_element(1, 0, 0)],
        pieces: vec![],
        render_to_index: 0,
    };
    let mut h = helpers_with(pattern, select_tool());
    h.response_drag_delta_detection_limit = 5;
    let mut tick = click_at(2, 2);
    tick.drag_delta = Vec2::new(10, 0);
    let r = h.plot_click_handling(&tick, &identity_transform());
    assert_eq!(r, ClickDispatch::Ignored);
}

#[test]
fn piece_mode_click_selects_first_containing_piece() {
    let pattern = Pattern {
        elements: vec![],
        pieces: vec![
            Piece { id: 7, min: PatternPos::new(0, 0), max: PatternPos::new(50, 50) },
            Piece { id: 8, min: PatternPos::new(40, 0), max: PatternPos::new(100, 50) },
        ],
        render_to_index: 3,
    };
    let tool = CurrentDrawingTool { kind: ToolKind::Select, select_mode: SelectionModeKind::Piece };
    let h = helpers_with(pattern, tool);
    let r = h.plot_click_handling(&click_at(45, 10), &identity_transform());
    assert_eq!(
        r,
        ClickDispatch::PieceSelected {
            pos: PatternPos::new(45, 10),
            piece_id: 7,
            render_to_index: 3,
        }
    );
    let r = h.plot_click_handling(&click_at(60, 10), &identity_transform());
    assert_eq!(
        r,
        ClickDispatch::PieceSelected {
            pos: PatternPos::new(60, 10),
            piece_id: 8,
            render_to_index: 3,
        }
    );
    let r = h.plot_click_handling(&click_at(60, 60), &identity_transform());
    assert_eq!(r, ClickDispatch::Ignored);
}

#[test]
fn layout_piece_mode_needs_a_print_layout() {
    let tool = CurrentDrawingTool {
        kind: ToolKind::Select,
        select_mode: SelectionModeKind::LayoutPiece,
    };
    let mut h = helpers_with(Pattern::default(), tool);
    let r = h.plot_click_handling(&click_at(10, 10), &identity_transform());
    assert_eq!(r, ClickDispatch::Ignored);

    h.selected_items.print_layout = Some(vec![Piece {
        id: 11,
        min: PatternPos::new(0, 0),
        max: PatternPos::new(30, 30),
    }]);
    let r = h.plot_click_handling(&click_at(10, 10), &identity_transform());
    assert_eq!(
        r,
        ClickDispatch::PieceSelected {
            pos: PatternPos::new(10, 10),
            piece_id: 11,
            render_to_index: 0,
        }
    );
}

#[test]
fn drag_below_limit_is_not_a_drag() {
    let mut h = helpers_with(Pattern::default(), select_tool());
    h.response_drag_delta_detection_limit = 5;
    let tick = ResponseTick {
        drag_started: false,
        interact_pointer_pos: None,
        drag_delta: Vec2::new(3, 0),
    };
    let (d, handled) = h.plot_drag_handling(&tick, &identity_transform(), Ok(Some(vec![1])));
    assert!(matches!(d, DragDispatch::NotDragged));
    assert!(!handled);
}

#[test]
fn drag_applies_translated_delta_with_y_centered() {
    let pattern = Pattern {
        elements: vec![point_element(1, 0, 0)],
        pieces: vec![],
        render_to_index: 4,
    };
    let h = helpers_with(pattern, select_tool());
    let mut t = identity_transform();
    t.y_centered = true;
    let tick = ResponseTick {
        drag_started: false,
        interact_pointer_pos: None,
        drag_delta: Vec2::new(10, 0),
    };
    let (d, handled) = h.plot_drag_handling(&tick, &t, Ok(Some(vec![1, 2])));
    assert!(handled);
    match d {
        DragDispatch::ApplyDrag { item_ids, delta, render_to_index } => {
            assert_eq!(item_ids, vec![1, 2]);
            assert_eq!(delta, PatternPos::new(10, 0));
            assert_eq!(render_to_index, 4);
        }
        other => panic!("expected an apply-drag dispatch, got {:?}", other),
    }
}

#[test]
fn drag_with_nothing_draggable_is_not_handled() {
    let h = helpers_with(Pattern::default(), select_tool());
    let tick = ResponseTick {
        drag_started: false,
        interact_pointer_pos: None,
        drag_delta: Vec2::new(10, 0),
    };
    let (d, handled) = h.plot_drag_handling(&tick, &identity_transform(), Ok(None));
    assert!(matches!(d, DragDispatch::NothingDraggable));
    assert!(!handled);
}

#[test]
fn drag_with_empty_drag_set_is_consumed() {
    let h = helpers_with(Pattern::default(), select_tool());
    let tick = ResponseTick {
        drag_started: false,
        interact_pointer_pos: None,
        drag_delta: Vec2::new(10, 0),
    };
    let (d, handled) = h.plot_drag_handling(&tick, &identity_transform(), Ok(Some(vec![])));
    assert!(matches!(d, DragDispatch::EmptyDragSet));
    assert!(handled);
}

#[test]
fn drag_forwards_tool_failure_to_error_port() {
    let h = helpers_with(Pattern::default(), select_tool());
    let tick = ResponseTick {
        drag_started: false,
        interact_pointer_pos: None,
        drag_delta: Vec2::new(10, 0),
    };
    let (d, handled) = h.plot_drag_handling(
        &tick,
        &identity_transform(),
        Err(PmError { code: 42 }),
    );
    match d {
        DragDispatch::ReportError { error } => assert_eq!(error, PmError { code: 42 }),
        other => panic!("expected an error report, got {:?}", other),
    }
    assert!(handled);
}

#[test]
fn live_query_pos_depends_on_tool_and_selection() {
    let t = identity_transform();
    let mut h = helpers_with(Pattern::default(), select_tool());
    assert_eq!(h.live_drawing_query_pos(&t, Pos2::new(5, 6)), None);

    h.drawing_tool.kind = ToolKind::Curve;
    assert_eq!(h.live_drawing_query_pos(&t, Pos2::new(5, 6)), None);
    h.selected_items.items = vec![3];
    assert_eq!(h.live_drawing_query_pos(&t, Pos2::new(5, 6)), Some(PatternPos::new(5, 6)));

    h.drawing_tool.kind = ToolKind::GuideLine(AxisKind::Horizontal);
    h.selected_items.items = vec![];
    assert_eq!(h.live_drawing_query_pos(&t, Pos2::new(7, 8)), Some(PatternPos::new(7, 8)));

    h.drawing_tool.kind = ToolKind::Point;
    assert_eq!(h.live_drawing_query_pos(&t, Pos2::new(7, 8)), None);
}

#[test]
fn curve_preview_draws_one_live_line() {
    let mut h = helpers_with(Pattern::default(), select_tool());
    h.drawing_tool.kind = ToolKind::Dart;
    h.selected_items.items = vec![3];
    let shapes = h.get_shapes_for_live_hover_drawing(
        &identity_transform(),
        Some(vec![PatternPos::new(10, 20), PatternPos::new(30, 40)]),
    );
    assert_eq!(shapes.len(), 1);
    assert_eq!(shapes[0].start, Pos2::new(10, 20));
    assert_eq!(shapes[0].end, Pos2::new(30, 40));
    assert_eq!(shapes[0].stroke_width, 3);
    assert_eq!(shapes[0].colour, Colour::green());
}

#[test]
fn curve_preview_needs_exactly_one_selected_item() {
    let mut h = helpers_with(Pattern::default(), select_tool());
    h.drawing_tool.kind = ToolKind::Curve;
    let shapes = h.get_shapes_for_live_hover_drawing(
        &identity_transform(),
        Some(vec![PatternPos::new(10, 20), PatternPos::new(30, 40)]),
    );
    assert_eq!(shapes.len(), 0);
}

#[test]
fn guide_line_preview_spans_viewport_horizontally() {
    let mut h = helpers_with(Pattern::default(), select_tool());
    h.drawing_tool.kind = ToolKind::GuideLine(AxisKind::Horizontal);
    let shapes = h.get_shapes_for_live_hover_drawing(
        &identity_transform(),
        Some(vec![PatternPos::new(80, 50)]),
    );
    assert_eq!(shapes.len(), 1);
    assert_eq!(shapes[0].start, Pos2::new(0, 50));
    assert_eq!(shapes[0].end, Pos2::new(200, 50));
    assert_eq!(shapes[0].stroke_width, 1);
    assert_eq!(shapes[0].colour, Colour::gray());
}

#[test]
fn guide_line_preview_spans_viewport_vertically() {
    let mut h = helpers_with(Pattern::default(), select_tool());
    h.drawing_tool.kind = ToolKind::GuideLine(AxisKind::Vertical);
    let shapes = h.get_shapes_for_live_hover_drawing(
        &identity_transform(),
        Some(vec![PatternPos::new(80, 50)]),
    );
    assert_eq!(shapes.len(), 1);
    assert_eq!(shapes[0].start, Pos2::new(80, 0));
    assert_eq!(shapes[0].end, Pos2::new(80, 200));
}

#[test]
fn point_and_select_tools_preview_nothing() {
    let mut h = helpers_with(Pattern::default(), select_tool());
    let shapes =
        h.get_shapes_for_live_hover_drawing(&identity_transform(), Some(vec![PatternPos::new(1, 1)]));
    assert_eq!(shapes.len(), 0);
    h.drawing_tool.kind = ToolKind::Point;
    let shapes = h.get_shapes_for_live_hover_drawing(&identity_transform(), None);
    assert_eq!(shapes.len(), 0);
}

#[test]
fn set_render_to_index_keeps_document_content() {
    let mut pattern = Pattern {
        elements: vec![point_element(1, 0, 0)],
        pieces: vec![],
        render_to_index: 2,
    };
    set_render_to_index(&mut pattern, 5);
    assert_eq!(pattern.render_to_index, 5);
    assert_eq!(pattern.elements.len(), 1);
    assert_eq!(pattern.elements[0].id, 1);
}

#[test]
fn default_helpers_match_documented_configuration() {
    let h = PmEguiPlotHelpers::default();
    assert_eq!(h.pattern.elements.len(), 0);
    assert_eq!(h.drawing_tool.kind, ToolKind::Select);
    assert_eq!(h.drawing_tool.select_mode, SelectionModeKind::Element);
    assert_eq!(h.selected_items.items.len(), 0);
    assert!(h.selected_items.print_layout.is_none());
    assert_eq!(h.response_drag_delta_detection_limit, 0);
    assert_eq!(h.pattern_drawing_live_colour, Colour::green());
    assert_eq!(h.pattern_measurement_colour, Colour::gray());
    assert_eq!(h.pattern_line_stroke_width, 3);
}

#[test]
fn new_keeps_every_configuration_field() {
    let h = PmEguiPlotHelpers::new(
        Pattern::default(),
        CurrentDrawingTool { kind: ToolKind::Dart, select_mode: SelectionModeKind::Piece },
        SelectedElements::default(),
        12,
        Colour { r: 1, g: 2, b: 3, a: 4 },
        Colour { r: 5, g: 6, b: 7, a: 8 },
        9,
    );
    assert_eq!(h.drawing_tool.kind, ToolKind::Dart);
    assert_eq!(h.response_drag_delta_detection_limit, 12);
    assert_eq!(h.pattern_drawing_live_colour, Colour { r: 1, g: 2, b: 3, a: 4 });
    assert_eq!(h.pattern_measurement_colour, Colour { r: 5, g: 6, b: 7, a: 8 });
    assert_eq!(h.pattern_line_stroke_width, 9);
}
