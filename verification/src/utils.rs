//! The clock and the source of random numbers.

use vstd::prelude::*;

verus! {

/// `std::time::SystemTime::elapsed` on the Unix epoch: the time since then,
/// in whole milliseconds (zero for a clock that is set before it). Nothing is
/// promised of the reading: two calls may give any two values.
#[verifier::external_body]
pub(crate) fn current_milliseconds() -> u64 {
    match std::time::UNIX_EPOCH.elapsed() {
        Ok(elapsed) => elapsed.as_millis() as u64,
        Err(_) => 0,
    }
}

/// A source of random numbers.
pub trait Rand: Sized {
    /// A draw may take the source from `self` to `after` and give `value`.
    /// An implementation may narrow the relation; as it stands it admits every
    /// outcome.
    open spec fn draws(&self, after: Self, value: u64) -> bool {
        true
    }

    /// Draws the next number.
    fn next(&mut self) -> (value: u64)
        ensures
            old(self).draws(*final(self), value),
    ;

    /// Draws a number below `upper_bound_excl`, or zero where no number but
    /// zero is below it.
    fn below(&mut self, upper_bound_excl: u64) -> (value: u64)
        ensures
            upper_bound_excl <= 1 ==> value == 0 && *final(self) == *old(self),
            upper_bound_excl > 1 ==> exists|drawn: u64| #[trigger]
                old(self).draws(*final(self), drawn) && value == drawn % upper_bound_excl,
    {
        if upper_bound_excl <= 1 {
            0
        } else {
            self.next() % upper_bound_excl
        }
    }
}

/// What `below` ensures, as one relation: how a number below `bound` is had
/// from `rand`, which leaves it as `after`. It is what one draw leaves when
/// divided by `bound`; where no number but zero is below `bound`, it is zero
/// and nothing is drawn.
pub open spec fn picked<R: Rand>(rand: R, bound: u64, after: R, value: u64) -> bool {
    if bound <= 1 {
        value == 0 && after == rand
    } else {
        exists|drawn: u64| #[trigger] rand.draws(after, drawn) && value == drawn % bound
    }
}

} // verus!
