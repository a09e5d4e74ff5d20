//! Chance: how long the bot rests, and which of its optional tasks it takes up.

use vstd::prelude::*;

verus! {

/// Calls `anda_engine::rand_number` with an inclusive range. Trusted: the result lies in the
/// range. An empty range, on which the outside function panics, is left out. Which number of the
/// range comes out is left to chance; the outside function also panics where the system cannot
/// seed its generator, which no condition on the range can rule out.
#[verifier::external_body]
fn rand_number(low: u64, high: u64) -> (n: u64)
    requires
        low <= high,
    ensures
        low <= n <= high,
{
    anda_engine::rand_number(low..=high)
}

/// A rest of a random number of seconds between two bounds.
#[derive(Debug, PartialEq, Eq)]
pub struct Pause {
    shortest: u64,
    longest: u64,
}

/// The bounds of a `Pause`, in seconds.
pub struct PauseView {
    pub shortest: int,
    pub longest: int,
}

impl View for Pause {
    type V = PauseView;

    closed spec fn view(&self) -> PauseView {
        PauseView { shortest: self.shortest as int, longest: self.longest as int }
    }
}

impl Pause {
    #[verifier::type_invariant]
    spec fn in_order(self) -> bool {
        self.shortest <= self.longest
    }

    /// A rest between two bounds.
    pub fn between(shortest: u64, longest: u64) -> (r: Pause)
        requires
            shortest <= longest,
        ensures
            r@ == (PauseView { shortest: shortest as int, longest: longest as int }),
    {
        Pause { shortest, longest }
    }

    /// Draws how long to rest, in seconds.
    pub fn draw_secs(&self) -> (secs: u64)
        ensures
            self@.shortest <= secs <= self@.longest,
    {
        proof {
            use_type_invariant(self);
        }
        rand_number(self.shortest, self.longest)
    }
}

/// Draws a number from zero up to and with `highest`.
pub fn draw_up_to(highest: u64) -> (n: u64)
    ensures
        n <= highest,
{
    rand_number(0, highest)
}

} // verus!
