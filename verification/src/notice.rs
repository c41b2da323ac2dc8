//! The break notice: what it says and how long it stays on screen.

use crate::params::{MAX_REST_SECONDS, MILLIS_PER_SECOND, MIN_REST_SECONDS};
use crate::text::{decimal, decimal_string};
use vstd::prelude::*;
use vstd::string::StringExecFns;

verus! {

/// A request to show the break notice once. It carries the rest interval
/// that the notice announces; the texts are made from it on demand.
#[derive(Clone, Copy, Debug, PartialEq, Eq, Structural)]
pub struct Notice {
    /// The rest interval announced, in seconds.
    pub rest_seconds: u8,
}

/// Title of every break notice.
pub open spec fn summary_text() -> Seq<char> {
    "Take a Break!"@
}

/// Message of the notice that announces a rest of `seconds` seconds.
pub open spec fn body_text(seconds: nat) -> Seq<char> {
    "Take a break! Look away from the screen for "@ + decimal(seconds) + " seconds."@
}

impl Notice {
    /// The rest interval announced is one that a rest phase can last.
    pub open spec fn in_range(self) -> bool {
        MIN_REST_SECONDS <= self.rest_seconds <= MAX_REST_SECONDS
    }

    /// Time the notice stays on screen, in milliseconds.
    pub open spec fn display_millis_spec(self) -> int {
        self.rest_seconds * MILLIS_PER_SECOND
    }

    /// The title: "Take a Break!".
    pub fn summary(&self) -> (s: &'static str)
        ensures
            s@ == summary_text(),
    {
        "Take a Break!"
    }

    /// The message, which names the rest interval in seconds.
    pub fn body(&self) -> (s: String)
        ensures
            s@ == body_text(self.rest_seconds as nat),
    {
        let mut s = String::from_str("Take a break! Look away from the screen for ");
        let number = decimal_string(self.rest_seconds as u64);
        s.append(number.as_str());
        s.append(" seconds.");
        s
    }

    /// Time the notice stays on screen: the rest interval, in milliseconds.
    pub fn display_millis(&self) -> (ms: u32)
        ensures
            ms == self.display_millis_spec(),
            self.in_range() ==> MIN_REST_SECONDS * MILLIS_PER_SECOND <= ms <= MAX_REST_SECONDS
                * MILLIS_PER_SECOND,
    {
        let seconds: u32 = self.rest_seconds as u32;
        seconds * 1000
    }
}

} // verus!
