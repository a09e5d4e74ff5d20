//! The bot: who it is, whom it speaks for, and how often it works.

use vstd::prelude::*;

verus! {

/// The shortest time between two rounds that can be set, in seconds.
pub const MIN_INTERVAL_SECS: u64 = 60;

/// A bot account.
#[derive(Debug, PartialEq, Eq)]
pub struct TwitterDaemon {
    handle: String,
    name: String,
    engine_name: String,
    min_interval_secs: u64,
}

/// What a `TwitterDaemon` is set up with.
pub struct DaemonView {
    /// The account's handle.
    pub handle: Seq<char>,
    /// The name of the character the bot speaks for.
    pub name: Seq<char>,
    /// The name of the engine it runs on, which speaks for it in requests of its own.
    pub engine_name: Seq<char>,
    /// The shortest time between two rounds, in seconds.
    pub min_interval_secs: int,
}

impl View for TwitterDaemon {
    type V = DaemonView;

    closed spec fn view(&self) -> DaemonView {
        DaemonView {
            handle: self.handle@,
            name: self.name@,
            engine_name: self.engine_name@,
            min_interval_secs: self.min_interval_secs as int,
        }
    }
}

impl TwitterDaemon {
    #[verifier::type_invariant]
    spec fn rests_long_enough(self) -> bool {
        self.min_interval_secs >= MIN_INTERVAL_SECS
    }

    /// Sets up a bot. A time between rounds below the minimum is raised to it.
    pub fn new(
        handle: String,
        name: String,
        engine_name: String,
        min_interval_secs: u64,
    ) -> (r: TwitterDaemon)
        ensures
            r@.handle == handle@,
            r@.name == name@,
            r@.engine_name == engine_name@,
            r@.min_interval_secs == if min_interval_secs >= MIN_INTERVAL_SECS {
                min_interval_secs as int
            } else {
                MIN_INTERVAL_SECS as int
            },
    {
        let min_interval_secs: u64 = if min_interval_secs >= MIN_INTERVAL_SECS {
            min_interval_secs
        } else {
            MIN_INTERVAL_SECS
        };
        TwitterDaemon { handle, name, engine_name, min_interval_secs }
    }

    /// The account's handle.
    pub fn handle(&self) -> (r: &str)
        ensures
            r@ == self@.handle,
    {
        self.handle.as_str()
    }

    /// The name of the character the bot speaks for.
    pub fn name(&self) -> (r: &str)
        ensures
            r@ == self@.name,
    {
        self.name.as_str()
    }

    /// The name of the engine it runs on.
    pub fn engine_name(&self) -> (r: &str)
        ensures
            r@ == self@.engine_name,
    {
        self.engine_name.as_str()
    }

    /// The shortest time between two rounds, in seconds.
    pub fn min_interval_secs(&self) -> (r: u64)
        ensures
            r == self@.min_interval_secs,
            r >= MIN_INTERVAL_SECS,
    {
        proof {
            use_type_invariant(self);
        }
        self.min_interval_secs
    }
}

} // verus!
