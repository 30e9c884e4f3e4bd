//! The pass counter itself: increment-and-read, peek, and the two logging
//! forms, each returning the rendered line.

use vstd::prelude::*;

use crate::render::{pass_line, pass_line_message, render_pass_line, render_pass_line_message};

verus! {

/// A pass counter. It starts at 0 and grows by one on each increment; at
/// `usize::MAX` further increments saturate (the overflow policy chosen and
/// documented here), so the counter is monotonically non-decreasing.
pub struct Counter {
    count: usize,
}

impl View for Counter {
    type V = nat;

    closed spec fn view(&self) -> nat {
        self.count as nat
    }
}

/// The counter value after one increment from `c`: the successor, saturating
/// at `usize::MAX`.
pub open spec fn next_count(c: nat) -> nat {
    if c < usize::MAX as nat {
        c + 1
    } else {
        c
    }
}

/// The counter value after `k` increments from `c`.
pub open spec fn next_count_iter(c: nat, k: nat) -> nat
    decreases k,
{
    if k == 0 {
        c
    } else {
        next_count(next_count_iter(c, (k - 1) as nat))
    }
}

impl Counter {
    /// A fresh counter, as at process start: the count is 0.
    pub fn new() -> (c: Counter)
        ensures
            c@ == 0,
    {
        Counter { count: 0 }
    }

    /// Increment the counter and return the result (increment-and-read).
    pub fn increment(&mut self) -> (r: usize)
        ensures
            final(self)@ == next_count(old(self)@),
            r as nat == final(self)@,
    {
        if self.count < usize::MAX {
            self.count = self.count + 1;
        }
        self.count
    }

    /// The current counter value, without incrementing (peek). The lowest
    /// value this can return is 0.
    pub fn current_count(&self) -> (r: usize)
        ensures
            r as nat == self@,
    {
        self.count
    }

    /// A log call without a message: increment the counter exactly once, as
    /// `increment` does, and return the line `[Pass <count>][Line <line>]`
    /// for the new count and the caller's source line.
    pub fn log(&mut self, line: usize) -> (s: String)
        ensures
            final(self)@ == next_count(old(self)@),
            s@ == pass_line(final(self)@, line as nat),
    {
        let n = self.increment();
        render_pass_line(n, line)
    }

    /// A log call with a message (a literal or a named value, already
    /// rendered as text): increment the counter exactly once, as `increment`
    /// does, and return the line `[Pass <count>][Line <line>] <message>`.
    pub fn log_message(&mut self, line: usize, message: &str) -> (s: String)
        ensures
            final(self)@ == next_count(old(self)@),
            s@ == pass_line_message(final(self)@, line as nat, message@),
    {
        let n = self.increment();
        render_pass_line_message(n, line, message)
    }
}

/// For a run of `k` increment-and-read calls with no interleaved reset,
/// starting from counter value `c`: as long as the counter stays within
/// `usize::MAX`, the value after the run is `c + k`, so the `k`-th call
/// returns exactly `k` plus the value before the run began.
pub proof fn lemma_increment_run(c: nat, k: nat)
    requires
        c + k <= usize::MAX as nat,
    ensures
        next_count_iter(c, k) == c + k,
    decreases k,
{
    if k > 0 {
        lemma_increment_run(c, (k - 1) as nat);
    }
}

/// Peek never mutates state: calling peek any number of times between two
/// increment-and-read calls does not change the value the second of those
/// calls returns. Whatever `peeks` is, the two increments return the first
/// and second successor of the starting value.
pub fn increments_with_peeks_between(c: &mut Counter, peeks: usize) -> (r: (usize, usize))
    ensures
        final(c)@ == next_count(next_count(old(c)@)),
        r.0 as nat == next_count(old(c)@),
        r.1 as nat == next_count(next_count(old(c)@)),
{
    let first = c.increment();
    let mut i: usize = 0;
    while i < peeks
        invariant
            c@ == next_count(old(c)@),
            first as nat == c@,
        decreases peeks - i,
    {
        let peeked = c.current_count();
        assert(peeked == first);
        i = i + 1;
    }
    let second = c.increment();
    (first, second)
}

/// Two consecutive peek calls with no intervening increment return equal
/// values: the contract of `current_count` pins each result to the counter's
/// one current value.
pub proof fn lemma_peek_consistent(c: Counter, first: usize, second: usize)
    requires
        first as nat == c@,
        second as nat == c@,
    ensures
        first == second,
{
}

} // verus!
