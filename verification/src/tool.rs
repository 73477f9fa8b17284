//! The active drawing tool.  Exactly one tool is active at a time; it is one
//! of a closed set of kinds and additionally carries the selection mode that
//! governs hit-testing granularity, independent of the tool's editing
//! behavior.  The editing algorithms behind each tool live outside this
//! crate; the dispatcher only decides which capability of the active tool to
//! invoke, and with what arguments.

use vstd::prelude::*;

verus! {

/// The axis a guide line runs along.  `Both` never reaches the rendering
/// path: axis ambiguity must be resolved before a guide-line tool is active.
#[derive(Clone, Copy, Debug, PartialEq, Eq, Structural)]
pub enum AxisKind {
    Horizontal,
    Vertical,
    Both,
}

/// The granularity hit-testing works at.
#[derive(Clone, Copy, Debug, PartialEq, Eq, Structural)]
pub enum SelectionModeKind {
    Piece,
    LayoutPiece,
    Element,
}

/// The closed set of tool kinds.
#[derive(Clone, Copy, Debug, PartialEq, Eq, Structural)]
pub enum ToolKind {
    Point,
    Curve,
    Dart,
    GuideLine(AxisKind),
    Select,
}

/// A typed failure returned by a tool capability.  The interaction core
/// treats it as opaque and forwards it to the error-reporting port.
#[derive(Clone, Copy, Debug, PartialEq, Eq, Structural)]
pub struct PmError {
    pub code: u64,
}

/// The currently active tool together with its selection mode.
#[derive(Clone, Copy, Debug, PartialEq, Eq, Structural)]
pub struct CurrentDrawingTool {
    pub kind: ToolKind,
    pub select_mode: SelectionModeKind,
}

impl CurrentDrawingTool {
    /// The selection mode that governs hit-testing granularity.
    pub fn get_select_mode(&self) -> (r: SelectionModeKind)
        ensures
            r == self.select_mode,
    {
        self.select_mode
    }

    /// The kind of the active tool.
    pub fn get_drawing_tool_kind(&self) -> (r: ToolKind)
        ensures
            r == self.kind,
    {
        self.kind
    }
}

impl Default for CurrentDrawingTool {
    /// The selection tool at element granularity, the editor's resting state.
    fn default() -> (r: CurrentDrawingTool)
        ensures
            r.kind == ToolKind::Select,
            r.select_mode == SelectionModeKind::Element,
    {
        CurrentDrawingTool { kind: ToolKind::Select, select_mode: SelectionModeKind::Element }
    }
}

} // verus!
