use vstd::prelude::*;

use crate::array_vec::ArrayVec;
use crate::puzzle::Facet;
use crate::puzzle::Turn;
use crate::puzzle::turn_ok;

verus! {

/// A facet press that cannot extend the current selection: its axis
/// collides with an already selected facet. The renderer flashes the
/// offending cells.
#[derive(Debug, Copy, Clone, PartialEq, Eq, Structural, Hash)]
pub struct RejectedFacet {
    /// The facet whose press was rejected.
    pub facet: Facet,
    /// The turned cell also implicated in the collision, if any.
    pub conflicting: Option<Facet>,
}

/// State machine for building a puzzle turn from facet presses: either a
/// whole-puzzle rotation (two facets) or a cell turn (three facets).
#[derive(Debug, Copy, Clone, PartialEq, Eq, Structural, Hash)]
pub enum PuzzleInputState {
    /// Nothing selected.
    Init,
    /// A whole-puzzle rotation was begun; awaiting the plane's first
    /// facet.
    Rotate1,
    /// A whole-puzzle rotation from the stored facet; awaiting the target
    /// facet.
    Rotate2(Facet),
    /// A cell turn of the stored cell; awaiting the plane's first facet.
    Turn1(Facet),
    /// A cell turn of the first stored facet from the second; awaiting
    /// the target facet.
    Turn2(Facet, Facet),
}

impl PuzzleInputState {
    /// The selected facets never share an axis.
    pub open spec fn wf(self) -> bool {
        match self {
            PuzzleInputState::Turn2(f1, f2) => f1.axis != f2.axis,
            _ => true,
        }
    }

    /// Effect of the rotate key: from `Init` it begins a whole-puzzle
    /// rotation; from any other state it cancels the selection.
    pub open spec fn input_rotate_spec(s: PuzzleInputState) -> PuzzleInputState {
        match s {
            PuzzleInputState::Init => PuzzleInputState::Rotate1,
            _ => PuzzleInputState::Init,
        }
    }

    /// Effect of pressing a facet: re-pressing a selected facet deselects
    /// it, an axis collision is rejected, and otherwise the facet extends
    /// the selection, completing a turn when it is the last one needed.
    pub open spec fn input_facet_spec(s: PuzzleInputState, nf: Facet) -> (
        PuzzleInputState,
        Result<Option<Turn>, RejectedFacet>,
    ) {
        match s {
            PuzzleInputState::Init => (PuzzleInputState::Turn1(nf), Ok(None)),
            PuzzleInputState::Rotate1 => (PuzzleInputState::Rotate2(nf), Ok(None)),
            PuzzleInputState::Rotate2(f1) => {
                if f1 == nf {
                    (PuzzleInputState::Init, Ok(None))
                } else if f1.axis == nf.axis {
                    (s, Err(RejectedFacet { facet: nf, conflicting: None }))
                } else {
                    (PuzzleInputState::Init, Ok(Some(Turn { facet: None, from: f1, to: nf })))
                }
            },
            PuzzleInputState::Turn1(f1) => {
                if f1 == nf {
                    (PuzzleInputState::Init, Ok(None))
                } else if f1.axis == nf.axis {
                    (s, Err(RejectedFacet { facet: nf, conflicting: None }))
                } else {
                    (PuzzleInputState::Turn2(f1, nf), Ok(None))
                }
            },
            PuzzleInputState::Turn2(f1, f2) => {
                if f1 == nf {
                    (PuzzleInputState::Init, Ok(None))
                } else if f2 == nf {
                    (PuzzleInputState::Turn1(f1), Ok(None))
                } else if f1.axis == nf.axis {
                    (s, Err(RejectedFacet { facet: nf, conflicting: None }))
                } else if f2.axis == nf.axis {
                    (s, Err(RejectedFacet { facet: nf, conflicting: Some(f1) }))
                } else {
                    (
                        PuzzleInputState::Init,
                        Ok(Some(Turn { facet: Some(f1), from: f2, to: nf })),
                    )
                }
            },
        }
    }

    /// The rotate key never completes a turn and never fails.
    pub fn input_rotate(&mut self) -> (r: Result<Option<Turn>, RejectedFacet>)
        ensures
            *final(self) == PuzzleInputState::input_rotate_spec(*old(self)),
            r == Ok::<Option<Turn>, RejectedFacet>(None::<Turn>),
    {
        match *self {
            PuzzleInputState::Init => {
                *self = PuzzleInputState::Rotate1;
            },
            _ => {
                *self = PuzzleInputState::Init;
            },
        }
        Ok(None)
    }

    /// Applies a facet press; a completed turn is always geometrically
    /// possible.
    pub fn input_facet(&mut self, new_facet: Facet) -> (r: Result<Option<Turn>, RejectedFacet>)
        requires
            old(self).wf(),
        ensures
            final(self).wf(),
            (*final(self), r) == PuzzleInputState::input_facet_spec(*old(self), new_facet),
            r matches Ok(Some(t)) ==> turn_ok(t),
    {
        match *self {
            PuzzleInputState::Init => {
                *self = PuzzleInputState::Turn1(new_facet);
                Ok(None)
            },
            PuzzleInputState::Rotate1 => {
                *self = PuzzleInputState::Rotate2(new_facet);
                Ok(None)
            },
            PuzzleInputState::Rotate2(f1) => {
                if f1 == new_facet {
                    *self = PuzzleInputState::Init;
                    Ok(None)
                } else if f1.axis.id() == new_facet.axis.id() {
                    Err(RejectedFacet { facet: new_facet, conflicting: None })
                } else {
                    *self = PuzzleInputState::Init;
                    Ok(Some(Turn { facet: None, from: f1, to: new_facet }))
                }
            },
            PuzzleInputState::Turn1(f1) => {
                if f1 == new_facet {
                    *self = PuzzleInputState::Init;
                    Ok(None)
                } else if f1.axis.id() == new_facet.axis.id() {
                    Err(RejectedFacet { facet: new_facet, conflicting: None })
                } else {
                    *self = PuzzleInputState::Turn2(f1, new_facet);
                    Ok(None)
                }
            },
            PuzzleInputState::Turn2(f1, f2) => {
                if f1 == new_facet {
                    *self = PuzzleInputState::Init;
                    Ok(None)
                } else if f2 == new_facet {
                    *self = PuzzleInputState::Turn1(f1);
                    Ok(None)
                } else if f1.axis.id() == new_facet.axis.id() {
                    Err(RejectedFacet { facet: new_facet, conflicting: None })
                } else if f2.axis.id() == new_facet.axis.id() {
                    Err(RejectedFacet { facet: new_facet, conflicting: Some(f1) })
                } else {
                    *self = PuzzleInputState::Init;
                    Ok(Some(Turn { facet: Some(f1), from: f2, to: new_facet }))
                }
            },
        }
    }
}

impl Default for PuzzleInputState {
    fn default() -> (r: PuzzleInputState)
        ensures
            r == PuzzleInputState::Init,
    {
        PuzzleInputState::Init
    }
}

/// Facet-press interpreter for the puzzle activity: wraps the selection
/// state machine and records the last rejected press for the renderer to
/// flash.
#[derive(Debug, Copy, Clone, PartialEq, Eq, Structural, Hash)]
pub struct PuzzleInput {
    pub state: PuzzleInputState,
    /// The last rejected facet press, if any; cleared by the renderer.
    pub red_flash: Option<RejectedFacet>,
}

impl PuzzleInput {
    /// Applies the rotate key.
    pub fn input_rotate(&mut self) -> (r: Option<Turn>)
        ensures
            final(self).state == PuzzleInputState::input_rotate_spec(old(self).state),
            final(self).red_flash == old(self).red_flash,
            r is None,
    {
        match self.state.input_rotate() {
            Ok(turn) => turn,
            Err(flash) => {
                self.red_flash = Some(flash);
                None
            },
        }
    }

    /// Applies a facet press, recording a rejection for the renderer.
    pub fn input_facet(&mut self, facet: Facet) -> (r: Option<Turn>)
        requires
            old(self).state.wf(),
        ensures
            final(self).state.wf(),
            final(self).state == PuzzleInputState::input_facet_spec(old(self).state, facet).0,
            match PuzzleInputState::input_facet_spec(old(self).state, facet).1 {
                Ok(turn) => r == turn && final(self).red_flash == old(self).red_flash,
                Err(flash) => r is None && final(self).red_flash == Some(flash),
            },
            r matches Some(t) ==> turn_ok(t),
    {
        match self.state.input_facet(facet) {
            Ok(turn) => turn,
            Err(flash) => {
                self.red_flash = Some(flash);
                None
            },
        }
    }
}

impl Default for PuzzleInput {
    fn default() -> (r: PuzzleInput)
        ensures
            r.state == PuzzleInputState::Init,
            r.red_flash is None,
    {
        PuzzleInput { state: PuzzleInputState::Init, red_flash: None }
    }
}

/// One display filter: bit `f` of each mask refers to the facet with
/// identifier `f`.
#[derive(Debug, Copy, Clone, PartialEq, Eq, Structural, Hash)]
pub struct FilterRule {
    /// Facets a piece must have a sticker on.
    pub must_have: u8,
    /// Facets a piece must not have a sticker on.
    pub must_not_have: u8,
    pub enabled: bool,
}

/// Whether a piece whose sticker colors are `stickers` passes the rule:
/// for every facet, a set `must_have` bit demands a sticker of that color
/// and a set `must_not_have` bit forbids one.
pub open spec fn rule_allows(rule: FilterRule, stickers: Seq<Facet>) -> bool {
    &&& rule.enabled
    &&& (rule.must_have & 0x01 == 0 || stickers.contains(Facet::from_id_spec(0)))
    &&& (rule.must_not_have & 0x01 == 0 || !stickers.contains(Facet::from_id_spec(0)))
    &&& (rule.must_have & 0x02 == 0 || stickers.contains(Facet::from_id_spec(1)))
    &&& (rule.must_not_have & 0x02 == 0 || !stickers.contains(Facet::from_id_spec(1)))
    &&& (rule.must_have & 0x04 == 0 || stickers.contains(Facet::from_id_spec(2)))
    &&& (rule.must_not_have & 0x04 == 0 || !stickers.contains(Facet::from_id_spec(2)))
    &&& (rule.must_have & 0x08 == 0 || stickers.contains(Facet::from_id_spec(3)))
    &&& (rule.must_not_have & 0x08 == 0 || !stickers.contains(Facet::from_id_spec(3)))
    &&& (rule.must_have & 0x10 == 0 || stickers.contains(Facet::from_id_spec(4)))
    &&& (rule.must_not_have & 0x10 == 0 || !stickers.contains(Facet::from_id_spec(4)))
    &&& (rule.must_have & 0x20 == 0 || stickers.contains(Facet::from_id_spec(5)))
    &&& (rule.must_not_have & 0x20 == 0 || !stickers.contains(Facet::from_id_spec(5)))
    &&& (rule.must_have & 0x40 == 0 || stickers.contains(Facet::from_id_spec(6)))
    &&& (rule.must_not_have & 0x40 == 0 || !stickers.contains(Facet::from_id_spec(6)))
    &&& (rule.must_have & 0x80 == 0 || stickers.contains(Facet::from_id_spec(7)))
    &&& (rule.must_not_have & 0x80 == 0 || !stickers.contains(Facet::from_id_spec(7)))
}

/// Whether the slice holds the facet.
fn contains_facet(stickers: &[Facet], f: Facet) -> (r: bool)
    ensures
        r == stickers@.contains(f),
{
    let mut i: usize = 0;
    while i < stickers.len()
        invariant
            i <= stickers@.len(),
            forall|k: int| 0 <= k < i ==> #[trigger] stickers@[k] != f,
        decreases stickers@.len() - i,
    {
        if stickers[i] == f {
            return true;
        }
        i = i + 1;
    }
    false
}

impl FilterRule {
    /// Whether a piece with the given sticker colors passes this rule.
    pub fn has_piece(self, stickers: &[Facet]) -> (r: bool)
        ensures
            r == rule_allows(self, stickers@),
    {
        if !self.enabled {
            return false;
        }
        let c0 = contains_facet(stickers, Facet::from_id(0));
        let c1 = contains_facet(stickers, Facet::from_id(1));
        let c2 = contains_facet(stickers, Facet::from_id(2));
        let c3 = contains_facet(stickers, Facet::from_id(3));
        let c4 = contains_facet(stickers, Facet::from_id(4));
        let c5 = contains_facet(stickers, Facet::from_id(5));
        let c6 = contains_facet(stickers, Facet::from_id(6));
        let c7 = contains_facet(stickers, Facet::from_id(7));
        (self.must_have & 0x01 == 0 || c0) && (self.must_not_have & 0x01 == 0 || !c0) && (
        self.must_have & 0x02 == 0 || c1) && (self.must_not_have & 0x02 == 0 || !c1) && (
        self.must_have & 0x04 == 0 || c2) && (self.must_not_have & 0x04 == 0 || !c2) && (
        self.must_have & 0x08 == 0 || c3) && (self.must_not_have & 0x08 == 0 || !c3) && (
        self.must_have & 0x10 == 0 || c4) && (self.must_not_have & 0x10 == 0 || !c4) && (
        self.must_have & 0x20 == 0 || c5) && (self.must_not_have & 0x20 == 0 || !c5) && (
        self.must_have & 0x40 == 0 || c6) && (self.must_not_have & 0x40 == 0 || !c6) && (
        self.must_have & 0x80 == 0 || c7) && (self.must_not_have & 0x80 == 0 || !c7)
    }
}

impl Default for FilterRule {
    fn default() -> (r: FilterRule)
        ensures
            r.must_have == 0x00,
            r.must_not_have == 0xFF,
            r.enabled,
    {
        FilterRule { must_have: 0x00, must_not_have: 0xFF, enabled: true }
    }
}

/// A piece is shown when some rule lets it through.
#[derive(Debug, Clone)]
pub struct Filters {
    pub rules: ArrayVec<FilterRule, 8>,
}

impl Filters {
    /// Whether a piece with the given sticker colors is shown.
    pub fn has_piece(&self, stickers: &[Facet]) -> (r: bool)
        requires
            self.rules.wf(),
        ensures
            r == exists|i: int|
                0 <= i < self.rules.view_spec().len() && rule_allows(
                    #[trigger] self.rules.view_spec()[i],
                    stickers@,
                ),
    {
        let slice = self.rules.as_slice();
        let mut i: usize = 0;
        while i < slice.len()
            invariant
                slice@ == self.rules.view_spec(),
                i <= slice@.len(),
                forall|k: int| 0 <= k < i ==> !rule_allows(#[trigger] slice@[k], stickers@),
            decreases slice@.len() - i,
        {
            if slice[i].has_piece(stickers) {
                return true;
            }
            i = i + 1;
        }
        false
    }
}

impl Default for Filters {
    fn default() -> (r: Filters)
        ensures
            r.rules.wf(),
            r.rules.view_spec().len() == 1,
            r.rules.view_spec()[0] == (FilterRule { must_have: 0x00, must_not_have: 0x00, enabled: true }),
    {
        let mut rules: ArrayVec<FilterRule, 8> = ArrayVec::new();
        rules.push(FilterRule { must_have: 0x00, must_not_have: 0x00, enabled: true });
        Filters { rules }
    }
}

/// Cursor of the filters editor.
#[derive(Debug, Copy, Clone, PartialEq, Eq, Structural, Hash)]
pub struct EditingFilters {
    pub index: usize,
}

impl Default for EditingFilters {
    fn default() -> (r: EditingFilters)
        ensures
            r.index == 0,
    {
        EditingFilters { index: 0 }
    }
}

} // verus!
