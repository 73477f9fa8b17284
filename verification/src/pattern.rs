//! The pattern document and the hit-test resolver.
//!
//! A pattern holds geometric elements and pieces together with a render
//! ordering index.  The resolver finds, for a document-space point, the best
//! matching element or piece under the mode-specific rules: exact piece
//! containment, containment in the laid-out print arrangement, or two-phase
//! nearest-element search in which point-like elements take priority over all
//! other elements and candidates outside the visible window are never chosen.

use vstd::prelude::*;

use crate::geometry::PatternPos;
use crate::geometry::PlotPoint;
use crate::geometry::dist_sq;
use crate::geometry::dist_sq_exec;

verus! {

/// The kind of a geometric element.
#[derive(Clone, Copy, Debug, PartialEq, Eq, Structural)]
pub enum ElementKind {
    Point,
    Curve,
    Dart,
    GuideLine,
}

/// One geometric element of the pattern.  Its identity is stable across
/// edits; the anchor position is what hit-testing measures distances to.
#[derive(Clone, Copy, Debug, PartialEq, Eq, Structural)]
pub struct PatternElement {
    pub id: u64,
    pub kind: ElementKind,
    pub pos: PatternPos,
}

/// A piece of the pattern: a named grouping of elements, hit-tested by its
/// axis-aligned extent.
#[derive(Clone, Copy, Debug, PartialEq, Eq, Structural)]
pub struct Piece {
    pub id: u64,
    pub min: PatternPos,
    pub max: PatternPos,
}

impl PatternElement {
    pub open spec fn wf(self) -> bool {
        self.pos.wf()
    }
}

impl Piece {
    pub open spec fn wf(self) -> bool {
        &&& self.min.wf()
        &&& self.max.wf()
        &&& self.min.x <= self.max.x
        &&& self.min.y <= self.max.y
    }

    /// Whether the piece's extent contains the given document point.
    pub open spec fn contains_spec(self, pos: PatternPos) -> bool {
        &&& self.min.x <= pos.x <= self.max.x
        &&& self.min.y <= pos.y <= self.max.y
    }

    /// Containment test for one piece.
    pub fn contains(&self, pos: PatternPos) -> (r: bool)
        ensures
            r == self.contains_spec(pos),
    {
        self.min.x <= pos.x && pos.x <= self.max.x && self.min.y <= pos.y && pos.y <= self.max.y
    }
}

/// Whether an element's anchor lies inside the visible window.
pub open spec fn in_bounds(p: PatternPos, min: PlotPoint, max: PlotPoint) -> bool {
    &&& min.x <= p.x <= max.x
    &&& min.y <= p.y <= max.y
}

/// Whether an element is a candidate for one phase of the nearest-element
/// search: the requested point-likeness, anchored inside the visible window.
pub open spec fn qualifies(
    e: PatternElement,
    want_point: bool,
    min: PlotPoint,
    max: PlotPoint,
) -> bool {
    &&& (want_point <==> e.kind == ElementKind::Point)
    &&& in_bounds(e.pos, min, max)
}

/// Index of the best candidate of one search phase: among the qualifying
/// elements, the one nearest to `pos`, and of several at the same distance
/// the earliest in iteration order.
pub open spec fn best_qualifier(
    s: Seq<PatternElement>,
    pos: PatternPos,
    want_point: bool,
    min: PlotPoint,
    max: PlotPoint,
) -> Option<int>
    decreases s.len(),
{
    if s.len() == 0 {
        None
    } else {
        let last = s.len() - 1;
        let prev = best_qualifier(s.drop_last(), pos, want_point, min, max);
        if qualifies(s[last], want_point, min, max) {
            match prev {
                Option::None => Some(last),
                Option::Some(i) => if dist_sq(s[i].pos, pos) <= dist_sq(s[last].pos, pos) {
                    Some(i)
                } else {
                    Some(last)
                },
            }
        } else {
            prev
        }
    }
}

/// The element the two-phase nearest-element search resolves to: the best
/// point-like candidate if one exists, otherwise the best remaining
/// candidate, otherwise nothing.
pub open spec fn element_mode_choice(
    s: Seq<PatternElement>,
    pos: PatternPos,
    min: PlotPoint,
    max: PlotPoint,
) -> Option<PatternElement> {
    match best_qualifier(s, pos, true, min, max) {
        Option::Some(i) => Some(s[i]),
        Option::None => match best_qualifier(s, pos, false, min, max) {
            Option::Some(i) => Some(s[i]),
            Option::None => None,
        },
    }
}

/// What `best_qualifier` promises: the chosen index is a qualifying element
/// no farther from the click than any qualifying element, and strictly nearer
/// than every earlier qualifying element; and nothing is chosen only when
/// nothing qualifies.
pub proof fn lemma_best_qualifier_props(
    s: Seq<PatternElement>,
    pos: PatternPos,
    want_point: bool,
    min: PlotPoint,
    max: PlotPoint,
)
    ensures
        best_qualifier(s, pos, want_point, min, max) is None ==> forall|j: int|
            0 <= j < s.len() ==> !qualifies(s[j], want_point, min, max),
        best_qualifier(s, pos, want_point, min, max) matches Some(i) ==> {
            &&& 0 <= i < s.len()
            &&& qualifies(s[i], want_point, min, max)
            &&& forall|j: int|
                0 <= j < s.len() && qualifies(s[j], want_point, min, max) ==> dist_sq(
                    s[i].pos,
                    pos,
                ) <= dist_sq(s[j].pos, pos)
            &&& forall|j: int|
                0 <= j < i && qualifies(s[j], want_point, min, max) ==> dist_sq(s[i].pos, pos)
                    < dist_sq(s[j].pos, pos)
        },
    decreases s.len(),
{
    if s.len() > 0 {
        lemma_best_qualifier_props(s.drop_last(), pos, want_point, min, max);
        assert(forall|j: int| 0 <= j < s.len() - 1 ==> s.drop_last()[j] == s[j]);
    }
}

/// Hit-test priority: whenever any point-like element inside the visible
/// window is available, the element-mode resolution selects a point-like
/// element, never a line or curve, however near the latter may be.
pub proof fn lemma_hit_test_point_priority(
    s: Seq<PatternElement>,
    pos: PatternPos,
    min: PlotPoint,
    max: PlotPoint,
)
    requires
        exists|i: int| 0 <= i < s.len() && qualifies(s[i], true, min, max),
    ensures
        element_mode_choice(s, pos, min, max) matches Some(e) && e.kind == ElementKind::Point,
{
    lemma_best_qualifier_props(s, pos, true, min, max);
}

/// Bounds exclusion: the element-mode resolution never selects an element
/// whose anchor lies outside the visible window, however near it may be; the
/// selected element is always one of the pattern's own, inside the window.
pub proof fn lemma_hit_test_bounds_exclusion(
    s: Seq<PatternElement>,
    pos: PatternPos,
    min: PlotPoint,
    max: PlotPoint,
)
    ensures
        element_mode_choice(s, pos, min, max) matches Some(e) ==> {
            &&& in_bounds(e.pos, min, max)
            &&& exists|i: int| 0 <= i < s.len() && e == s[i]
        },
{
    lemma_best_qualifier_props(s, pos, true, min, max);
    lemma_best_qualifier_props(s, pos, false, min, max);
}

/// The pattern document: its elements, its pieces, and the render ordering
/// index that keeps z-order consistent after structural edits.
#[derive(Clone, Debug)]
pub struct Pattern {
    pub elements: Vec<PatternElement>,
    pub pieces: Vec<Piece>,
    pub render_to_index: u64,
}

/// The current selection: the selected element identifiers, plus the laid-out
/// print arrangement when selection targets laid-out pieces.
#[derive(Clone, Debug)]
pub struct SelectedElements {
    pub items: Vec<u64>,
    pub print_layout: Option<Vec<Piece>>,
}

impl Pattern {
    pub open spec fn wf(self) -> bool {
        &&& forall|i: int| 0 <= i < self.elements@.len() ==> self.elements@[i].wf()
        &&& forall|i: int| 0 <= i < self.pieces@.len() ==> self.pieces@[i].wf()
    }

    /// All elements of the pattern, in iteration order.
    pub fn get_all_pattern_elements(&self) -> (r: &Vec<PatternElement>)
        ensures
            r@ == self.elements@,
    {
        &self.elements
    }

    /// The first piece, in iteration order, whose extent contains the point.
    pub fn get_piece_from_position(&self, pos: PatternPos) -> (r: Option<Piece>)
        ensures
            r matches Some(pc) ==> exists|i: int|
                {
                    &&& 0 <= i < self.pieces@.len()
                    &&& pc == self.pieces@[i]
                    &&& self.pieces@[i].contains_spec(pos)
                    &&& forall|j: int| 0 <= j < i ==> !self.pieces@[j].contains_spec(pos)
                },
            r is None ==> forall|j: int|
                0 <= j < self.pieces@.len() ==> !self.pieces@[j].contains_spec(pos),
            (exists|i: int|
                0 <= i < self.pieces@.len() && self.pieces@[i].contains_spec(pos)) ==> r is Some,
    {
        first_containing_piece(&self.pieces, pos)
    }

    /// Like `get_piece_from_position`, but against the laid-out print
    /// arrangement; without a layout nothing is resolved.
    pub fn get_layout_piece_from_position(
        &self,
        pos: PatternPos,
        layout: &Option<Vec<Piece>>,
    ) -> (r: Option<Piece>)
        ensures
            layout is None ==> r is None,
            layout matches Some(l) ==> {
                &&& (r matches Some(pc) ==> exists|i: int|
                    {
                        &&& 0 <= i < l@.len()
                        &&& pc == l@[i]
                        &&& l@[i].contains_spec(pos)
                        &&& forall|j: int| 0 <= j < i ==> !l@[j].contains_spec(pos)
                    })
                &&& (r is None ==> forall|j: int|
                    0 <= j < l@.len() ==> !l@[j].contains_spec(pos))
                &&& ((exists|i: int| 0 <= i < l@.len() && l@[i].contains_spec(pos)) ==> r is Some)
            },
    {
        match layout {
            Some(pieces) => first_containing_piece(pieces, pos),
            None => None,
        }
    }

    /// The nearest point-like element anchored inside the visible window;
    /// earlier elements win ties.
    pub fn get_closest_point_element(
        &self,
        pos: PatternPos,
        min: PlotPoint,
        max: PlotPoint,
    ) -> (r: Option<PatternElement>)
        requires
            self.wf(),
            pos.wf(),
        ensures
            r == match best_qualifier(self.elements@, pos, true, min, max) {
                Option::Some(i) => Some(self.elements@[i]),
                Option::None => None::<PatternElement>,
            },
    {
        closest_qualifying_element(&self.elements, pos, true, min, max)
    }

    /// The nearest element that is not a point, anchored inside the visible
    /// window; earlier elements win ties.
    pub fn get_closest_non_point_element(
        &self,
        pos: PatternPos,
        min: PlotPoint,
        max: PlotPoint,
    ) -> (r: Option<PatternElement>)
        requires
            self.wf(),
            pos.wf(),
        ensures
            r == match best_qualifier(self.elements@, pos, false, min, max) {
                Option::Some(i) => Some(self.elements@[i]),
                Option::None => None::<PatternElement>,
            },
    {
        closest_qualifying_element(&self.elements, pos, false, min, max)
    }
}

impl SelectedElements {
    pub open spec fn wf(self) -> bool {
        self.print_layout matches Some(l) ==> forall|i: int| 0 <= i < l@.len() ==> l@[i].wf()
    }

    /// The selected element identifiers.
    pub fn get_items(&self) -> (r: &Vec<u64>)
        ensures
            r@ == self.items@,
    {
        &self.items
    }

    /// The laid-out print arrangement, if one is present.
    pub fn get_print_layout(&self) -> (r: &Option<Vec<Piece>>)
        ensures
            r == self.print_layout,
    {
        &self.print_layout
    }
}

impl Default for Pattern {
    /// An empty pattern.
    fn default() -> (r: Pattern)
        ensures
            r.elements@.len() == 0,
            r.pieces@.len() == 0,
            r.render_to_index == 0,
            r.wf(),
    {
        Pattern { elements: Vec::new(), pieces: Vec::new(), render_to_index: 0 }
    }
}

impl Default for SelectedElements {
    /// An empty selection without a print layout.
    fn default() -> (r: SelectedElements)
        ensures
            r.items@.len() == 0,
            r.print_layout is None,
            r.wf(),
    {
        SelectedElements { items: Vec::new(), print_layout: None }
    }
}

/// Refreshes the render ordering index of the pattern; the elements and
/// pieces themselves stay as they are.
pub fn set_render_to_index(pattern: &mut Pattern, render_to_index: u64)
    ensures
        final (pattern).render_to_index == render_to_index,
        final (pattern).elements@ == old(pattern).elements@,
        final (pattern).pieces@ == old(pattern).pieces@,
{
    pattern.render_to_index = render_to_index;
}

/// Scans the pieces in order and returns the first whose extent contains the
/// point.
fn first_containing_piece(pieces: &Vec<Piece>, pos: PatternPos) -> (r: Option<Piece>)
    ensures
        r matches Some(pc) ==> exists|i: int|
            {
                &&& 0 <= i < pieces@.len()
                &&& pc == pieces@[i]
                &&& pieces@[i].contains_spec(pos)
                &&& forall|j: int| 0 <= j < i ==> !pieces@[j].contains_spec(pos)
            },
        r is None ==> forall|j: int| 0 <= j < pieces@.len() ==> !pieces@[j].contains_spec(pos),
        (exists|i: int| 0 <= i < pieces@.len() && pieces@[i].contains_spec(pos)) ==> r is Some,
{
    let n = pieces.len();
    let mut k: usize = 0;
    while k < n
        invariant
            n == pieces@.len(),
            k <= n,
            forall|j: int| 0 <= j < k ==> !pieces@[j].contains_spec(pos),
        decreases n - k,
    {
        let pc = pieces[k];
        if pc.contains(pos) {
            return Some(pc);
        }
        k += 1;
    }
    None
}

/// One phase of the nearest-element search: scans the elements in order and
/// keeps the nearest qualifying one, preferring the earlier of two candidates
/// at the same distance.
fn closest_qualifying_element(
    elements: &Vec<PatternElement>,
    pos: PatternPos,
    want_point: bool,
    min: PlotPoint,
    max: PlotPoint,
) -> (r: Option<PatternElement>)
    requires
        forall|i: int| 0 <= i < elements@.len() ==> (#[trigger] elements@[i]).wf(),
        pos.wf(),
    ensures
        r == match best_qualifier(elements@, pos, want_point, min, max) {
            Option::Some(i) => Some(elements@[i]),
            Option::None => None::<PatternElement>,
        },
{
    let n = elements.len();
    let mut best: Option<usize> = None;
    let mut k: usize = 0;
    while k < n
        invariant
            n == elements@.len(),
            k <= n,
            forall|i: int| 0 <= i < elements@.len() ==> (#[trigger] elements@[i]).wf(),
            pos.wf(),
            match best {
                Option::Some(b) => {
                    &&& b < k
                    &&& best_qualifier(elements@.take(k as int), pos, want_point, min, max)
                        == Some(b as int)
                },
                Option::None => best_qualifier(elements@.take(k as int), pos, want_point, min, max)
                    is None,
            },
        decreases n - k,
    {
        let e = elements[k];
        proof {
            assert(elements@.take(k as int + 1).drop_last() =~= elements@.take(k as int));
            assert(elements@.take(k as int + 1).last() == elements@[k as int]);
        }
        let is_kind = if want_point {
            matches!(e.kind, ElementKind::Point)
        } else {
            !matches!(e.kind, ElementKind::Point)
        };
        let in_window = min.x <= e.pos.x && e.pos.x <= max.x && min.y <= e.pos.y && e.pos.y
            <= max.y;
        if is_kind && in_window {
            match best {
                Option::None => {
                    best = Some(k);
                },
                Option::Some(b) => {
                    let best_d = dist_sq_exec(elements[b].pos, pos);
                    let cand_d = dist_sq_exec(e.pos, pos);
                    if cand_d < best_d {
                        best = Some(k);
                    }
                },
            }
        }
        k += 1;
    }
    proof {
        assert(elements@.take(n as int) =~= elements@);
    }
    match best {
        Some(b) => Some(elements[b]),
        None => None,
    }
}

} // verus!
