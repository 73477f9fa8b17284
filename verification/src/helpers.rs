//! The interaction helpers: one value owning the pattern document, the
//! active tool and the selection, together with the per-frame entry points
//! that turn pointer activity into dispatch decisions.
//!
//! Each entry point is a pure decision: it resolves the gesture and the
//! hit-test and says which capability of the active tool is to be invoked,
//! and with what arguments.  The caller owns the tool implementations, the
//! error-reporting port and the shared-ownership plumbing; it performs the
//! returned decision and hands tool answers back in as plain values.

use vstd::prelude::*;

use crate::geometry::PIXEL_LIMIT;
use crate::geometry::PatternPos;
use crate::geometry::PlotPoint;
use crate::geometry::Pos2;
use crate::geometry::Vec2;
use crate::pattern::Pattern;
use crate::pattern::SelectedElements;
use crate::pattern::element_mode_choice;
use crate::tool::AxisKind;
use crate::tool::CurrentDrawingTool;
use crate::tool::PmError;
use crate::tool::SelectionModeKind;
use crate::tool::ToolKind;
use crate::transform::ScreenTransform;

verus! {

/// An RGBA colour, as handed to the rendering layer.
#[derive(Clone, Copy, Debug, PartialEq, Eq, Structural)]
pub struct Colour {
    pub r: u8,
    pub g: u8,
    pub b: u8,
    pub a: u8,
}

impl Colour {
    /// The colour of speculative live-drawing geometry.
    pub fn green() -> (c: Colour)
        ensures
            c == (Colour { r: 0, g: 255, b: 0, a: 255 }),
    {
        Colour { r: 0, g: 255, b: 0, a: 255 }
    }

    /// The colour of measurement geometry such as guide-line previews.
    pub fn gray() -> (c: Colour)
        ensures
            c == (Colour { r: 160, g: 160, b: 160, a: 255 }),
    {
        Colour { r: 160, g: 160, b: 160, a: 255 }
    }
}

/// What the rendering framework reports about the pointer for one frame.
#[derive(Clone, Copy, Debug, PartialEq, Eq, Structural)]
pub struct ResponseTick {
    /// Whether a drag gesture began on this tick.
    pub drag_started: bool,
    /// The pointer position, when the pointer interacts with the canvas.
    pub interact_pointer_pos: Option<Pos2>,
    /// The raw pixel delta of the gesture on this tick.
    pub drag_delta: Vec2,
}

impl ResponseTick {
    /// A tick the framework can actually report for the given view: any
    /// interaction position lies on the canvas and the delta is a plausible
    /// pixel displacement.
    pub open spec fn wf(self, t: ScreenTransform) -> bool {
        &&& self.drag_delta.wf()
        &&& (self.interact_pointer_pos matches Some(p) ==> t.in_frame(p))
    }
}

/// One drawable preview line segment, with endpoints in screen space.
#[derive(Clone, Copy, Debug, PartialEq, Eq, Structural)]
pub struct LineShape {
    pub start: Pos2,
    pub end: Pos2,
    pub stroke_width: u64,
    pub colour: Colour,
}

/// The decision a resolved click leads to: which capability of the active
/// tool is to be invoked, and with what arguments.
#[derive(Clone, Copy, Debug, PartialEq, Eq, Structural)]
pub enum ClickDispatch {
    /// Nothing to do: no click happened, or no piece matched.
    Ignored,
    /// Invoke the tool's piece-selected capability.
    PieceSelected { pos: PatternPos, piece_id: u64, render_to_index: u64 },
    /// Invoke the tool's item-selected capability.
    ItemSelected { pos: PatternPos, element_id: u64, render_to_index: u64 },
    /// Invoke the tool's click-no-selection capability.
    ClickNoSelection { pos: PatternPos, render_to_index: u64 },
}

/// The decision a drag tick leads to.
#[derive(Clone, Debug)]
pub enum DragDispatch {
    /// The delta stayed within the detection limit; not a drag.
    NotDragged,
    /// The tool reports that nothing is draggable; the caller may fall back
    /// to other gesture interpretations such as panning.
    NothingDraggable,
    /// The tool returned an empty draggable set; the gesture is consumed but
    /// nothing moves.
    EmptyDragSet,
    /// Invoke the tool's apply-drag capability with the transformed delta.
    ApplyDrag { item_ids: Vec<u64>, delta: PatternPos, render_to_index: u64 },
    /// The tool failed; forward the error to the error-reporting port.
    ReportError { error: PmError },
}

/// The document position a screen position maps to under the transform.
pub open spec fn doc_pos_of(t: ScreenTransform, p: Pos2) -> PatternPos {
    PatternPos { x: t.value_of_x(p.x as int) as i64, y: t.value_of_y(p.y as int) as i64 }
}

/// The interaction core: the shared document state plus the immutable
/// configuration supplied at construction.
#[derive(Clone, Debug)]
pub struct PmEguiPlotHelpers {
    pub pattern: Pattern,
    pub drawing_tool: CurrentDrawingTool,
    pub selected_items: SelectedElements,
    pub response_drag_delta_detection_limit: i64,
    pub pattern_drawing_live_colour: Colour,
    pub pattern_measurement_colour: Colour,
    pub pattern_line_stroke_width: u64,
}

impl PmEguiPlotHelpers {
    pub open spec fn wf(self) -> bool {
        &&& self.pattern.wf()
        &&& self.selected_items.wf()
        &&& 0 <= self.response_drag_delta_detection_limit <= PIXEL_LIMIT
    }

    /// Whether this tick's pixel delta exceeds the drag-detection limit: the
    /// tick is an actionable drag.
    pub open spec fn is_drag_tick(self, response: ResponseTick) -> bool {
        response.drag_delta.len_sq() > self.response_drag_delta_detection_limit
            * self.response_drag_delta_detection_limit
    }

    /// Whether this tick is a click: a drag start with a pointer position and
    /// no movement beyond the detection limit.
    pub open spec fn is_click_tick(self, response: ResponseTick) -> bool {
        &&& response.drag_started
        &&& response.interact_pointer_pos is Some
        &&& !self.is_drag_tick(response)
    }

    pub fn new(
        pattern: Pattern,
        drawing_tool: CurrentDrawingTool,
        selected_items: SelectedElements,
        response_drag_delta_detection_limit: i64,
        pattern_drawing_live_colour: Colour,
        pattern_measurement_colour: Colour,
        pattern_line_stroke_width: u64,
    ) -> (r: PmEguiPlotHelpers)
        ensures
            r.pattern == pattern,
            r.drawing_tool == drawing_tool,
            r.selected_items == selected_items,
            r.response_drag_delta_detection_limit == response_drag_delta_detection_limit,
            r.pattern_drawing_live_colour == pattern_drawing_live_colour,
            r.pattern_measurement_colour == pattern_measurement_colour,
            r.pattern_line_stroke_width == pattern_line_stroke_width,
    {
        PmEguiPlotHelpers {
            pattern,
            drawing_tool,
            selected_items,
            response_drag_delta_detection_limit,
            pattern_drawing_live_colour,
            pattern_measurement_colour,
            pattern_line_stroke_width,
        }
    }

    /// Reinterprets a pattern position as a plot point; the two spaces are
    /// numerically identical.
    pub fn transform_pattern_pos_to_plot_point(pos: PatternPos) -> (r: PlotPoint)
        ensures
            r.x == pos.x,
            r.y == pos.y,
    {
        PlotPoint { x: pos.x, y: pos.y }
    }

    /// Reinterprets a plot point as a pattern position; the two spaces are
    /// numerically identical.
    pub fn transform_plot_point_to_pattern_pos(pos: PlotPoint) -> (r: PatternPos)
        ensures
            r.x == pos.x,
            r.y == pos.y,
    {
        PatternPos { x: pos.x, y: pos.y }
    }

    /// Expresses a document-space magnitude as a screen-space length, by
    /// transforming the two points `(0, 0)` and `(size, size)` and taking the
    /// horizontal pixel delta.
    pub fn scale_shape_size(transform: &ScreenTransform, current_size: i64) -> (r: i64)
        requires
            transform.wf(),
            (PlotPoint { x: current_size, y: current_size }).wf(),
        ensures
            r == transform.screen_of_x(current_size as int) - transform.screen_of_x(0),
    {
        let value_point_1 = PlotPoint::new(0, 0);
        let value_point_2 = PlotPoint::new(current_size, current_size);
        let pos_1 = transform.position_from_point(&value_point_1);
        let pos_2 = transform.position_from_point(&value_point_2);
        pos_2.x - pos_1.x
    }

    /// Translates a raw pixel drag delta into a document-space delta: an axis
    /// the transform reports as centered is locked to zero, and each axis is
    /// scaled by the transform's per-axis value-per-pixel factor.  In
    /// particular, a centered x axis always yields a zero x component,
    /// whatever the input delta.
    pub fn translate_pos_drag(transform: &ScreenTransform, delta_pos: Vec2) -> (r: Vec2)
        requires
            transform.wf(),
            delta_pos.wf(),
        ensures
            r.x == if transform.x_centered {
                0int
            } else {
                delta_pos.x * transform.dvalue_dpos_x
            },
            r.y == if transform.y_centered {
                0int
            } else {
                delta_pos.y * transform.dvalue_dpos_y
            },
            transform.x_centered ==> r.x == 0,
            transform.y_centered ==> r.y == 0,
    {
        let mut delta_pos = delta_pos;
        if transform.x_centered {
            delta_pos.x = 0;
        }
        if transform.y_centered {
            delta_pos.y = 0;
        }
        proof {
            lemma_scaled_delta_in_range(delta_pos.x as int, transform.dvalue_dpos_x as int);
            lemma_scaled_delta_in_range(delta_pos.y as int, transform.dvalue_dpos_y as int);
        }
        let x = delta_pos.x * transform.dvalue_dpos_x;
        let y = delta_pos.y * transform.dvalue_dpos_y;
        Vec2 { x, y }
    }

    /// Resolves one click tick to a dispatch decision.
    ///
    /// A tick that is not a click (no drag start, no pointer position, or
    /// movement beyond the detection limit) is ignored: a tick whose delta
    /// exceeds the limit never produces a click dispatch.  A click is
    /// resolved at the granularity of the active selection mode; in element
    /// mode a click on an empty pattern always dispatches click-no-selection,
    /// never a failure.  After performing an element-mode decision the caller
    /// refreshes the render ordering index via
    /// [`crate::pattern::set_render_to_index`].
    pub fn plot_click_handling(
        &self,
        response: &ResponseTick,
        last_screen_transform: &ScreenTransform,
    ) -> (r: ClickDispatch)
        requires
            self.wf(),
            last_screen_transform.wf(),
            response.wf(*last_screen_transform),
        ensures
            !self.is_click_tick(*response) ==> r == ClickDispatch::Ignored,
            self.is_click_tick(*response) ==> (response.interact_pointer_pos matches Some(pointer)
                ==> {
                let pos = doc_pos_of(*last_screen_transform, pointer);
                let rti = self.pattern.render_to_index;
                &&& self.drawing_tool.select_mode == SelectionModeKind::Piece ==> {
                    &&& (r matches ClickDispatch::PieceSelected {
                        pos: p,
                        piece_id,
                        render_to_index,
                    } ==> {
                        &&& p == pos
                        &&& render_to_index == rti
                        &&& exists|i: int|
                            {
                                &&& 0 <= i < self.pattern.pieces@.len()
                                &&& (#[trigger] self.pattern.pieces@[i]).contains_spec(pos)
                                &&& piece_id == self.pattern.pieces@[i].id
                                &&& forall|j: int|
                                    0 <= j < i ==> !(#[trigger] self.pattern.pieces@[j]).contains_spec(
                                        pos,
                                    )
                            }
                    })
                    &&& ((exists|i: int|
                        0 <= i < self.pattern.pieces@.len() && (
                        #[trigger] self.pattern.pieces@[i]).contains_spec(pos))
                        ==> r is PieceSelected)
                    &&& ((forall|i: int|
                        0 <= i < self.pattern.pieces@.len() ==> !(
                        #[trigger] self.pattern.pieces@[i]).contains_spec(pos)) ==> r
                        == ClickDispatch::Ignored)
                }
                &&& self.drawing_tool.select_mode == SelectionModeKind::LayoutPiece ==> {
                    &&& self.selected_items.print_layout is None ==> r == ClickDispatch::Ignored
                    &&& self.selected_items.print_layout matches Some(layout) ==> {
                        &&& (r matches ClickDispatch::PieceSelected {
                            pos: p,
                            piece_id,
                            render_to_index,
                        } ==> {
                            &&& p == pos
                            &&& render_to_index == rti
                            &&& exists|i: int|
                                {
                                    &&& 0 <= i < layout@.len()
                                    &&& (#[trigger] layout@[i]).contains_spec(pos)
                                    &&& piece_id == layout@[i].id
                                    &&& forall|j: int|
                                        0 <= j < i ==> !(#[trigger] layout@[j]).contains_spec(pos)
                                }
                        })
                        &&& ((exists|i: int|
                            0 <= i < layout@.len() && (#[trigger] layout@[i]).contains_spec(pos))
                            ==> r is PieceSelected)
                        &&& ((forall|i: int|
                            0 <= i < layout@.len() ==> !(#[trigger] layout@[i]).contains_spec(pos))
                            ==> r == ClickDispatch::Ignored)
                    }
                }
                &&& self.drawing_tool.select_mode == SelectionModeKind::Element ==> {
                    let bmin = last_screen_transform.bounds_min;
                    let bmax = PlotPoint {
                        x: last_screen_transform.bounds_max_x() as i64,
                        y: last_screen_transform.bounds_max_y() as i64,
                    };
                    match element_mode_choice(self.pattern.elements@, pos, bmin, bmax) {
                        Option::Some(e) => r == (ClickDispatch::ItemSelected {
                            pos,
                            element_id: e.id,
                            render_to_index: rti,
                        }),
                        Option::None => r == (ClickDispatch::ClickNoSelection {
                            pos,
                            render_to_index: rti,
                        }),
                    }
                }
                &&& (self.drawing_tool.select_mode == SelectionModeKind::Element
                    && self.pattern.elements@.len() == 0) ==> (r matches ClickDispatch::ClickNoSelection { .. })
            }),
    {
        if !response.drag_started {
            return ClickDispatch::Ignored;
        }
        if self.delta_exceeds_limit(response.drag_delta) {
            return ClickDispatch::Ignored;
        }
        match response.interact_pointer_pos {
            None => ClickDispatch::Ignored,
            Some(pointer_pos) => {
                let render_to_index = self.pattern.render_to_index;
                let position_value = last_screen_transform.value_from_position(pointer_pos);
                let drag_pattern_pos = Self::transform_plot_point_to_pattern_pos(position_value);
                let select_mode = self.drawing_tool.get_select_mode();
                if matches!(select_mode, SelectionModeKind::Piece) {
                    match self.pattern.get_piece_from_position(drag_pattern_pos) {
                        Some(selected_piece) => ClickDispatch::PieceSelected {
                            pos: drag_pattern_pos,
                            piece_id: selected_piece.id,
                            render_to_index,
                        },
                        None => ClickDispatch::Ignored,
                    }
                } else if matches!(select_mode, SelectionModeKind::LayoutPiece) {
                    match self.pattern.get_layout_piece_from_position(
                        drag_pattern_pos,
                        self.selected_items.get_print_layout(),
                    ) {
                        Some(selected_piece) => ClickDispatch::PieceSelected {
                            pos: drag_pattern_pos,
                            piece_id: selected_piece.id,
                            render_to_index,
                        },
                        None => ClickDispatch::Ignored,
                    }
                } else {
                    let bounds_min = last_screen_transform.bounds_min();
                    let bounds_max = last_screen_transform.bounds_max();
                    let closest_element = match self.pattern.get_closest_point_element(
                        drag_pattern_pos,
                        bounds_min,
                        bounds_max,
                    ) {
                        Some(element) => Some(element),
                        None => self.pattern.get_closest_non_point_element(
                            drag_pattern_pos,
                            bounds_min,
                            bounds_max,
                        ),
                    };
                    match closest_element {
                        Some(element) => ClickDispatch::ItemSelected {
                            pos: drag_pattern_pos,
                            element_id: element.id,
                            render_to_index,
                        },
                        None => ClickDispatch::ClickNoSelection {
                            pos: drag_pattern_pos,
                            render_to_index,
                        },
                    }
                }
            },
        }
    }

    /// Resolves one drag tick to a dispatch decision, given the active
    /// tool's answer about its draggable items; the second component reports
    /// whether the gesture was handled.
    ///
    /// A tick whose delta stays within the detection limit never produces an
    /// apply-drag dispatch.  Beyond the limit, the tool's answer decides: no
    /// answer means the gesture is not handled and the caller may fall back
    /// to panning; a failure is forwarded to the error-reporting port; a
    /// non-empty draggable set receives the translated, axis-locked delta.
    pub fn plot_drag_handling(
        &self,
        response: &ResponseTick,
        last_screen_transform: &ScreenTransform,
        draggable_items: Result<Option<Vec<u64>>, PmError>,
    ) -> (r: (DragDispatch, bool))
        requires
            self.wf(),
            last_screen_transform.wf(),
            response.wf(*last_screen_transform),
        ensures
            !self.is_drag_tick(*response) ==> r == (DragDispatch::NotDragged, false),
            self.is_drag_tick(*response) ==> match draggable_items {
                Result::Err(e) => r.0 == (DragDispatch::ReportError { error: e }) && r.1,
                Result::Ok(opt) => match opt {
                    Option::None => r.0 == DragDispatch::NothingDraggable && !r.1,
                    Option::Some(ids) => if ids@.len() == 0 {
                        r.0 == DragDispatch::EmptyDragSet && r.1
                    } else {
                        &&& r.0 matches DragDispatch::ApplyDrag {
                            item_ids,
                            delta,
                            render_to_index,
                        }
                        &&& (r.0 matches DragDispatch::ApplyDrag {
                            item_ids,
                            delta,
                            render_to_index,
                        } ==> {
                            &&& item_ids@ == ids@
                            &&& render_to_index == self.pattern.render_to_index
                            &&& delta.x == if last_screen_transform.x_centered {
                                0int
                            } else {
                                response.drag_delta.x * last_screen_transform.dvalue_dpos_x
                            }
                            &&& delta.y == if last_screen_transform.y_centered {
                                0int
                            } else {
                                response.drag_delta.y * last_screen_transform.dvalue_dpos_y
                            }
                        })
                        &&& r.1
                    },
                },
            },
    {
        if self.delta_exceeds_limit(response.drag_delta) {
            let transformed_delta = Self::translate_pos_drag(
                last_screen_transform,
                response.drag_delta,
            );
            match draggable_items {
                Ok(drag_ids_option) => {
                    match drag_ids_option {
                        Some(drag_ids) => {
                            if drag_ids.len() > 0 {
                                let render_to_index = self.pattern.render_to_index;
                                let delta = Self::transform_plot_point_to_pattern_pos(
                                    PlotPoint::new(transformed_delta.x, transformed_delta.y),
                                );
                                (
                                    DragDispatch::ApplyDrag {
                                        item_ids: drag_ids,
                                        delta,
                                        render_to_index,
                                    },
                                    true,
                                )
                            } else {
                                (DragDispatch::EmptyDragSet, true)
                            }
                        },
                        None => (DragDispatch::NothingDraggable, false),
                    }
                },
                Err(error) => (DragDispatch::ReportError { error }, true),
            }
        } else {
            (DragDispatch::NotDragged, false)
        }
    }

    /// Whether this tick's pixel delta exceeds the drag-detection limit.
    fn delta_exceeds_limit(&self, delta: Vec2) -> (r: bool)
        requires
            self.wf(),
            delta.wf(),
        ensures
            r == (delta.len_sq() > self.response_drag_delta_detection_limit
                * self.response_drag_delta_detection_limit),
    {
        let limit = self.response_drag_delta_detection_limit;
        proof {
            lemma_delta_sq_in_range(delta.x as int, delta.y as int);
            lemma_limit_sq_in_range(limit as int);
        }
        delta.x * delta.x + delta.y * delta.y > limit * limit
    }

    /// The document position the active tool is to be queried at for its
    /// speculative live-drawing geometry, when the tool has any: the curve
    /// and dart tools only while exactly one element is selected, the
    /// guide-line tool always, the point and select tools never.
    pub fn live_drawing_query_pos(
        &self,
        transform: &ScreenTransform,
        pointer: Pos2,
    ) -> (r: Option<PatternPos>)
        requires
            self.wf(),
            transform.wf(),
            transform.in_frame(pointer),
        ensures
            match self.drawing_tool.kind {
                ToolKind::Curve | ToolKind::Dart => if self.selected_items.items@.len() == 1 {
                    r == Some(doc_pos_of(*transform, pointer))
                } else {
                    r is None
                },
                ToolKind::GuideLine(_) => r == Some(doc_pos_of(*transform, pointer)),
                ToolKind::Point | ToolKind::Select => r is None,
            },
    {
        let wants_query = match self.drawing_tool.get_drawing_tool_kind() {
            ToolKind::Curve | ToolKind::Dart => self.selected_items.get_items().len() == 1,
            ToolKind::GuideLine(_) => true,
            ToolKind::Point | ToolKind::Select => false,
        };
        if wants_query {
            let value = transform.value_from_position(pointer);
            Some(Self::transform_plot_point_to_pattern_pos(value))
        } else {
            None
        }
    }
}

impl PmEguiPlotHelpers {
    /// Builds the live-preview shapes for the current hover, from the
    /// speculative points the active tool returned for the position
    /// [`Self::live_drawing_query_pos`] asked about.
    ///
    /// The curve and dart tools preview a single line between exactly two
    /// returned points, drawn in the live-drawing colour, and only while
    /// exactly one element is selected.  The guide-line tool previews a line
    /// through its single returned anchor spanning the whole visible window
    /// along its axis, drawn at half stroke width in the measurement colour;
    /// an axis of `Both` must have been resolved before this point and is
    /// rejected.  The point and select tools preview nothing, as does any
    /// answer with the wrong number of points.
    pub fn get_shapes_for_live_hover_drawing(
        &self,
        transform: &ScreenTransform,
        live_points: Option<Vec<PatternPos>>,
    ) -> (r: Vec<LineShape>)
        requires
            self.wf(),
            transform.wf(),
            (live_points matches Some(pts) ==> forall|i: int|
                0 <= i < pts@.len() ==> (#[trigger] pts@[i]).wf()),
            (self.drawing_tool.kind matches ToolKind::GuideLine(axis) ==> axis
                != AxisKind::Both),
        ensures
            (self.drawing_tool.kind == ToolKind::Point || self.drawing_tool.kind
                == ToolKind::Select) ==> r@.len() == 0,
            (self.drawing_tool.kind == ToolKind::Curve || self.drawing_tool.kind
                == ToolKind::Dart) ==> {
                if self.selected_items.items@.len() == 1 && (live_points matches Some(pts)
                    && pts@.len() == 2) {
                    let pts = live_points->Some_0;
                    &&& r@.len() == 1
                    &&& r@[0].start.x == transform.screen_of_x(pts@[0].x as int)
                    &&& r@[0].start.y == transform.screen_of_y(pts@[0].y as int)
                    &&& r@[0].end.x == transform.screen_of_x(pts@[1].x as int)
                    &&& r@[0].end.y == transform.screen_of_y(pts@[1].y as int)
                    &&& r@[0].stroke_width == self.pattern_line_stroke_width
                    &&& r@[0].colour == self.pattern_drawing_live_colour
                } else {
                    r@.len() == 0
                }
            },
            self.drawing_tool.kind matches ToolKind::GuideLine(axis) ==> {
                if live_points matches Some(pts) && pts@.len() == 1 {
                    let anchor = live_points->Some_0@[0];
                    &&& r@.len() == 1
                    &&& axis == AxisKind::Horizontal ==> {
                        &&& r@[0].start.x == transform.screen_of_x(transform.bounds_min.x as int)
                        &&& r@[0].start.y == transform.screen_of_y(anchor.y as int)
                        &&& r@[0].end.x == transform.screen_of_x(transform.bounds_max_x())
                        &&& r@[0].end.y == transform.screen_of_y(anchor.y as int)
                    }
                    &&& axis == AxisKind::Vertical ==> {
                        &&& r@[0].start.x == transform.screen_of_x(anchor.x as int)
                        &&& r@[0].start.y == transform.screen_of_y(transform.bounds_min.y as int)
                        &&& r@[0].end.x == transform.screen_of_x(anchor.x as int)
                        &&& r@[0].end.y == transform.screen_of_y(transform.bounds_max_y())
                    }
                    &&& r@[0].stroke_width == self.pattern_line_stroke_width / 2
                    &&& r@[0].colour == self.pattern_measurement_colour
                } else {
                    r@.len() == 0
                }
            },
    {
        let mut shapes: Vec<LineShape> = Vec::new();
        match self.drawing_tool.get_drawing_tool_kind() {
            ToolKind::Curve | ToolKind::Dart => {
                if self.selected_items.get_items().len() == 1 {
                    if let Some(returned_points) = live_points {
                        if returned_points.len() == 2 {
                            let p0 = Self::transform_pattern_pos_to_plot_point(returned_points[0]);
                            let p1 = Self::transform_pattern_pos_to_plot_point(returned_points[1]);
                            let start = transform.position_from_point(&p0);
                            let end = transform.position_from_point(&p1);
                            shapes.push(
                                LineShape {
                                    start,
                                    end,
                                    stroke_width: self.pattern_line_stroke_width,
                                    colour: self.pattern_drawing_live_colour,
                                },
                            );
                        }
                    }
                }
            },
            ToolKind::GuideLine(axis_kind) => {
                if let Some(returned_points) = live_points {
                    if returned_points.len() == 1 {
                        let anchor = returned_points[0];
                        let bounds_min = transform.bounds_min();
                        let bounds_max = transform.bounds_max();
                        let horizontal = matches!(axis_kind, AxisKind::Horizontal);
                        let start_point: Pos2;
                        let end_point: Pos2;
                        if horizontal {
                            start_point = transform.position_from_point(
                                &PlotPoint::new(bounds_min.x, anchor.y),
                            );
                            end_point = transform.position_from_point(
                                &PlotPoint::new(bounds_max.x, anchor.y),
                            );
                        } else {
                            // the axis is Vertical: Both never reaches this
                            // rendering path
                            start_point = transform.position_from_point(
                                &PlotPoint::new(anchor.x, bounds_min.y),
                            );
                            end_point = transform.position_from_point(
                                &PlotPoint::new(anchor.x, bounds_max.y),
                            );
                        }
                        shapes.push(
                            LineShape {
                                start: start_point,
                                end: end_point,
                                stroke_width: self.pattern_line_stroke_width / 2,
                                colour: self.pattern_measurement_colour,
                            },
                        );
                    }
                }
            },
            ToolKind::Point => {},
            ToolKind::Select => {},
        }
        shapes
    }
}

/// A delta component scaled by a bounded per-axis factor stays well within
/// the machine range.
proof fn lemma_scaled_delta_in_range(d: int, s: int)
    requires
        -2 * PIXEL_LIMIT <= d <= 2 * PIXEL_LIMIT,
        0 <= s <= crate::geometry::SCALE_LIMIT,
    ensures
        -2 * PIXEL_LIMIT * crate::geometry::SCALE_LIMIT <= d * s <= 2 * PIXEL_LIMIT
            * crate::geometry::SCALE_LIMIT,
{
    assert(-2 * PIXEL_LIMIT * crate::geometry::SCALE_LIMIT <= d * s <= 2 * PIXEL_LIMIT
        * crate::geometry::SCALE_LIMIT) by (nonlinear_arith)
        requires
            -2 * PIXEL_LIMIT <= d <= 2 * PIXEL_LIMIT,
            0 <= s <= crate::geometry::SCALE_LIMIT,
    ;
}

/// The squared length of a plausible pixel delta stays well within the
/// machine range.
proof fn lemma_delta_sq_in_range(x: int, y: int)
    requires
        -2 * PIXEL_LIMIT <= x <= 2 * PIXEL_LIMIT,
        -2 * PIXEL_LIMIT <= y <= 2 * PIXEL_LIMIT,
    ensures
        0 <= x * x <= 4 * PIXEL_LIMIT * PIXEL_LIMIT,
        0 <= y * y <= 4 * PIXEL_LIMIT * PIXEL_LIMIT,
{
    assert(0 <= x * x <= 4 * PIXEL_LIMIT * PIXEL_LIMIT) by (nonlinear_arith)
        requires
            -2 * PIXEL_LIMIT <= x <= 2 * PIXEL_LIMIT,
    ;
    assert(0 <= y * y <= 4 * PIXEL_LIMIT * PIXEL_LIMIT) by (nonlinear_arith)
        requires
            -2 * PIXEL_LIMIT <= y <= 2 * PIXEL_LIMIT,
    ;
}

/// The squared drag-detection limit stays well within the machine range.
proof fn lemma_limit_sq_in_range(limit: int)
    requires
        0 <= limit <= PIXEL_LIMIT,
    ensures
        0 <= limit * limit <= PIXEL_LIMIT * PIXEL_LIMIT,
{
    assert(0 <= limit * limit <= PIXEL_LIMIT * PIXEL_LIMIT) by (nonlinear_arith)
        requires
            0 <= limit <= PIXEL_LIMIT,
    ;
}

/// Click/drag exclusivity: one gesture tick is never both a click and an
/// actionable drag.  A tick whose pixel delta stays within the detection
/// limit is never a drag, and a tick whose delta exceeds it is never a
/// click.
pub proof fn lemma_click_drag_exclusivity(h: PmEguiPlotHelpers, response: ResponseTick)
    ensures
        !(h.is_click_tick(response) && h.is_drag_tick(response)),
        !h.is_drag_tick(response) ==> response.drag_delta.len_sq()
            <= h.response_drag_delta_detection_limit * h.response_drag_delta_detection_limit,
        h.is_drag_tick(response) ==> !h.is_click_tick(response),
{
}

impl Default for PmEguiPlotHelpers {
    /// An empty document with the selection tool active, no drag-detection
    /// limit, and the default preview colours and stroke width.
    fn default() -> (r: PmEguiPlotHelpers)
        ensures
            r.pattern.elements@.len() == 0,
            r.pattern.pieces@.len() == 0,
            r.drawing_tool.kind == ToolKind::Select,
            r.drawing_tool.select_mode == SelectionModeKind::Element,
            r.selected_items.items@.len() == 0,
            r.selected_items.print_layout is None,
            r.response_drag_delta_detection_limit == 0,
            r.pattern_drawing_live_colour == (Colour { r: 0, g: 255, b: 0, a: 255 }),
            r.pattern_measurement_colour == (Colour { r: 160, g: 160, b: 160, a: 255 }),
            r.pattern_line_stroke_width == 3,
            r.wf(),
    {
        PmEguiPlotHelpers {
            pattern: Default::default(),
            drawing_tool: Default::default(),
            selected_items: Default::default(),
            response_drag_delta_detection_limit: 0,
            pattern_drawing_live_colour: Colour::green(),
            pattern_measurement_colour: Colour::gray(),
            pattern_line_stroke_width: 3,
        }
    }
}

} // verus!
