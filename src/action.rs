use vstd::prelude::*;

verus! {

/// A set of drag-and-drop transfer actions, held as the protocol's bits.
#[derive(Clone, Copy, Debug, PartialEq, Eq, Structural)]
pub struct DndAction {
    pub bits: u32,
}

/// No action.
pub const ACTION_NONE: u32 = 0;

/// The data is copied.
pub const ACTION_COPY: u32 = 1;

/// The data is moved.
pub const ACTION_MOVE: u32 = 2;

/// The target asks the user which action to take.
pub const ACTION_ASK: u32 = 4;

impl DndAction {
    pub open spec fn spec_contains(self, other: DndAction) -> bool {
        self.bits & other.bits == other.bits
    }

    /// The empty set of actions.
    pub fn empty() -> (r: DndAction)
        ensures
            r.bits == ACTION_NONE,
    {
        DndAction { bits: ACTION_NONE }
    }

    pub fn copy() -> (r: DndAction)
        ensures
            r.bits == ACTION_COPY,
    {
        DndAction { bits: ACTION_COPY }
    }

    pub fn move_() -> (r: DndAction)
        ensures
            r.bits == ACTION_MOVE,
    {
        DndAction { bits: ACTION_MOVE }
    }

    pub fn ask() -> (r: DndAction)
        ensures
            r.bits == ACTION_ASK,
    {
        DndAction { bits: ACTION_ASK }
    }

    /// Whether every action of `other` is in `self`.
    pub fn contains(&self, other: DndAction) -> (r: bool)
        ensures
            r == self.spec_contains(other),
    {
        self.bits & other.bits == other.bits
    }

    /// The actions present in both sets.
    pub fn intersection(&self, other: DndAction) -> (r: DndAction)
        ensures
            r.bits == self.bits & other.bits,
    {
        DndAction { bits: self.bits & other.bits }
    }

    /// Whether the set holds no action.
    pub fn is_empty(&self) -> (r: bool)
        ensures
            r == (self.bits == ACTION_NONE),
    {
        self.bits == ACTION_NONE
    }
}

/// Whether `a` is exactly one of the three actions.
pub open spec fn is_single_action(a: DndAction) -> bool {
    a.bits == ACTION_MOVE || a.bits == ACTION_COPY || a.bits == ACTION_ASK
}

/// The default negotiation policy: the preferred action when it is a single
/// available action, else the first available of ask, copy and move, else none.
pub open spec fn chosen_action(available: DndAction, preferred: DndAction) -> DndAction {
    if is_single_action(preferred) && available.spec_contains(preferred) {
        preferred
    } else if available.spec_contains(DndAction { bits: ACTION_ASK }) {
        DndAction { bits: ACTION_ASK }
    } else if available.spec_contains(DndAction { bits: ACTION_COPY }) {
        DndAction { bits: ACTION_COPY }
    } else if available.spec_contains(DndAction { bits: ACTION_MOVE }) {
        DndAction { bits: ACTION_MOVE }
    } else {
        DndAction { bits: ACTION_NONE }
    }
}

/// A simple action chooser for drag-and-drop negotiation.
///
/// If the preferred action is available it is picked; otherwise the first
/// available of ask, copy and move; otherwise no action.
pub fn default_action_chooser(available: DndAction, preferred: DndAction) -> (r: DndAction)
    ensures
        r == chosen_action(available, preferred),
{
    let single = preferred.bits == ACTION_MOVE || preferred.bits == ACTION_COPY
        || preferred.bits == ACTION_ASK;
    if single && available.contains(preferred) {
        preferred
    } else if available.contains(DndAction::ask()) {
        DndAction::ask()
    } else if available.contains(DndAction::copy()) {
        DndAction::copy()
    } else if available.contains(DndAction::move_()) {
        DndAction::move_()
    } else {
        DndAction::empty()
    }
}

/// The chosen action is either no action, or a single action that is
/// available.
pub proof fn lemma_chosen_action_is_available_single(available: DndAction, preferred: DndAction)
    ensures
        chosen_action(available, preferred).bits == ACTION_NONE || (is_single_action(
            chosen_action(available, preferred),
        ) && available.spec_contains(chosen_action(available, preferred))),
{
}

/// With nothing available, no action is chosen, whatever is preferred.
pub proof fn lemma_nothing_available_chooses_none(available: DndAction, preferred: DndAction)
    requires
        available.bits == ACTION_NONE,
    ensures
        chosen_action(available, preferred).bits == ACTION_NONE,
{
    let a = available.bits;
    let p = preferred.bits;
    assert(a == 0u32 ==> (a & p == p ==> p == 0u32)) by (bit_vector);
    assert(a == 0u32 ==> a & 4u32 != 4u32 && a & 1u32 != 1u32 && a & 2u32 != 2u32) by (bit_vector);
}

} // verus!
