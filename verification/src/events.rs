//! Event code registry: the synthetic event identifiers used for
//! cross-widget signaling, and the raw pointer events they are derived from.
//!
//! Every synthetic code is a fixed constant, unique, and lies outside the
//! host toolkit's reserved event-code range, so a synthetic event can never
//! be misinterpreted as a real system event.

use vstd::prelude::*;

verus! {

/// The host toolkit reserves event codes below this value for real input
/// events; every synthetic code must lie at or above it.
pub const FIRST_SYNTHETIC_CODE: i32 = 60;

/// The synthetic event identifiers posted through the dispatcher.
#[derive(Clone, Copy, Debug, PartialEq, Eq, Structural)]
pub enum SyntheticEvent {
    MouseMove,
    MouseDown,
    MouseUp,
    MouseOut,
    MouseIn,
    Button1Click,
    Button2Click,
}

/// The physical pointer button reported by the host with a press event.
#[derive(Clone, Copy, Debug, PartialEq, Eq, Structural)]
pub enum PhysicalButton {
    Left,
    Middle,
    Right,
    /// Any further button the host can report (side buttons and the like).
    Other,
}

/// A raw input event, as the host toolkit delivers it to the tracking
/// surface. A press carries the pointer position at which it happened,
/// so does a pointer movement.
#[derive(Clone, Copy, Debug, PartialEq, Eq, Structural)]
pub enum NativeEvent {
    Push { button: PhysicalButton, x: i32, y: i32 },
    Released,
    Enter,
    Leave,
    Move { x: i32, y: i32 },
    /// Any native event the adapter does not react to; it is passed through
    /// to the default widget behavior.
    Other,
}

impl SyntheticEvent {
    /// The integer tag of this synthetic event on the host's event bus.
    pub open spec fn spec_code(self) -> int {
        match self {
            SyntheticEvent::MouseMove => 60,
            SyntheticEvent::MouseDown => 61,
            SyntheticEvent::MouseUp => 62,
            SyntheticEvent::MouseOut => 63,
            SyntheticEvent::MouseIn => 65,
            SyntheticEvent::Button1Click => 66,
            SyntheticEvent::Button2Click => 67,
        }
    }

    /// The integer tag handed to the host when this event is posted.
    pub fn code(self) -> (c: i32)
        ensures
            c == self.spec_code(),
    {
        match self {
            SyntheticEvent::MouseMove => 60,
            SyntheticEvent::MouseDown => 61,
            SyntheticEvent::MouseUp => 62,
            SyntheticEvent::MouseOut => 63,
            SyntheticEvent::MouseIn => 65,
            SyntheticEvent::Button1Click => 66,
            SyntheticEvent::Button2Click => 67,
        }
    }

    /// Recovers the synthetic event carried by an integer tag; `None`
    /// exactly for tags that are no synthetic code.
    pub fn from_code(c: i32) -> (r: Option<SyntheticEvent>)
        ensures
            r matches Some(e) ==> e.spec_code() == c,
            r is None <==> (forall|e: SyntheticEvent| e.spec_code() != c),
    {
        let r = match c {
            60 => Some(SyntheticEvent::MouseMove),
            61 => Some(SyntheticEvent::MouseDown),
            62 => Some(SyntheticEvent::MouseUp),
            63 => Some(SyntheticEvent::MouseOut),
            65 => Some(SyntheticEvent::MouseIn),
            66 => Some(SyntheticEvent::Button1Click),
            67 => Some(SyntheticEvent::Button2Click),
            _ => None,
        };
        proof {
            if r is None {
                assert forall|e: SyntheticEvent| e.spec_code() != c by {
                }
            }
        }
        r
    }
}

/// Registry invariant: every synthetic code lies outside the host's
/// reserved range, so no synthetic event collides with a real one.
pub proof fn lemma_synthetic_codes_reserved(e: SyntheticEvent)
    ensures
        e.spec_code() >= FIRST_SYNTHETIC_CODE,
{
}

/// Registry invariant: synthetic codes are pairwise distinct, so a code is
/// never reused for an unrelated meaning.
pub proof fn lemma_synthetic_codes_unique(e1: SyntheticEvent, e2: SyntheticEvent)
    ensures
        e1.spec_code() == e2.spec_code() ==> e1 == e2,
{
}

} // verus!
