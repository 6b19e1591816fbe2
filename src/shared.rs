//! The display state shared between the foreground task and the periodic
//! refresh, and what each of the two does to it.
//!
//! The state is an `Option`: it is absent until the foreground task has built
//! the display, and both sides leave an absent state alone. Whoever calls
//! these functions holds the state inside a critical section for the length
//! of the call, and no longer.
use crate::seg8x4::{Digit, FourDigitDisplay, show_ops};
use vstd::prelude::*;

verus! {

/// The digit shown last and the display itself.
pub struct InterruptState {
    pub digit: Digit,
    pub display: FourDigitDisplay,
}

impl InterruptState {
    /// The state of a freshly built display; the refresh cycle starts at `D1`.
    pub fn new(display: FourDigitDisplay) -> (r: InterruptState)
        ensures
            r.digit == Digit::D1,
            r.display == display,
    {
        InterruptState { digit: Digit::D1, display }
    }
}

/// One firing of the periodic refresh: advances to the next digit, then shows
/// it. An absent state is left absent and nothing is shown.
pub fn refresh(state: &mut Option<InterruptState>)
    ensures
        old(state).is_none() ==> final(state).is_none(),
        old(state).is_some() ==> final(state).is_some(),
        old(state).is_some() ==> ({
            let (s, t) = (old(state).unwrap(), final(state).unwrap());
            &&& t.digit == s.digit.spec_next()
            &&& t.display.raw() == s.display.raw() + show_ops(s.display.buffer(t.digit), t.digit)
            &&& forall|d: Digit| #[trigger] t.display.buffer(d) == s.display.buffer(d)
        }),
{
    if let Some(s) = state {
        s.digit = s.digit.next();
        s.display.show(s.digit);
    }
}

/// Sets the display, where there is one, to show `number` in base ten. The
/// lines of the display are not touched.
pub fn show_number(state: &mut Option<InterruptState>, number: u16)
    ensures
        old(state).is_none() ==> final(state).is_none(),
        old(state).is_some() ==> final(state).is_some(),
        old(state).is_some() ==> ({
            let (s, t) = (old(state).unwrap(), final(state).unwrap());
            &&& t.digit == s.digit
            &&& t.display.shows_number(number as int, 10)
            &&& t.display.raw() == s.display.raw()
        }),
{
    if let Some(s) = state {
        s.display.set_number(number, 10);
    }
}

} // verus!
