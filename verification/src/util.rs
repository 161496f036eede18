//! Unique numbers.

use vstd::prelude::*;

verus! {

/// An incrementing counter for generating unique ids.
///
/// A call needs the counter to itself. Threads that share one behind a lock therefore get its values
/// one after another, in the order in which they get hold of it.
///
/// The counter wraps on overflow. If this is possible for your application, and reuse would be
/// undesirable, use something else.
#[derive(Debug)]
pub struct Counter(u64);

impl View for Counter {
    type V = u64;

    /// The value that is handed out next.
    closed spec fn view(&self) -> u64 {
        self.0
    }
}

/// The value after `value`, which after the largest is 0.
pub open spec fn after(value: u64) -> u64 {
    if value == u64::MAX {
        0
    } else {
        (value + 1) as u64
    }
}

/// The value after `steps` values have been handed out.
pub open spec fn after_many(value: u64, steps: nat) -> u64 {
    ((value + steps) % 0x1_0000_0000_0000_0000) as u64
}

impl Counter {
    /// Create a new counter. The first value is 1.
    pub fn new() -> (counter: Counter)
        ensures
            counter@ == 1,
    {
        Counter(1)
    }

    /// Creates a new counter with a given starting value.
    pub fn new_with_initial_value(init: u64) -> (counter: Counter)
        ensures
            counter@ == init,
    {
        Counter(init)
    }

    /// The value that would be handed out next.
    pub fn to_raw(self) -> (value: u64)
        ensures
            value == self@,
    {
        self.0
    }

    /// Return the next value.
    ///
    /// This wraps on overflow
    pub fn next(&mut self) -> (value: u64)
        ensures
            value == old(self)@,
            final(self)@ == after(old(self)@),
    {
        let value: u64 = self.0;
        self.0 = value.wrapping_add(1);
        value
    }

    /// Return the next value that is not zero.
    ///
    /// If the next value would be zero, the counter is incremented again
    /// to get the next value
    pub fn next_nonzero(&mut self) -> (value: u64)
        ensures
            value != 0,
            old(self)@ != 0 ==> value == old(self)@ && final(self)@ == after(old(self)@),
            old(self)@ == 0 ==> value == 1 && final(self)@ == 2,
    {
        let value: u64 = self.next();
        if value == 0 {
            self.next()
        } else {
            value
        }
    }
}

/// Handing out one value after another counts the steps, so that the values of fewer than 2^64
/// steps in a row are all different.
pub proof fn law_values_do_not_repeat(start: u64, first: nat, second: nat)
    requires
        first < second < first + 0x1_0000_0000_0000_0000,
    ensures
        after_many(start, 0) == start,
        after_many(start, first + 1) == after(after_many(start, first)),
        after_many(start, first) != after_many(start, second),
{
    let m: int = 0x1_0000_0000_0000_0000;
    let a = start + first;
    let b = start + second;
    vstd::arithmetic::div_mod::lemma_small_mod(start as nat, m as nat);
    vstd::arithmetic::div_mod::lemma_fundamental_div_mod(a, m);
    vstd::arithmetic::div_mod::lemma_fundamental_div_mod(b, m);
    vstd::arithmetic::div_mod::lemma_fundamental_div_mod(a + 1, m);
    if a % m == b % m {
        assert(b - a == m * (b / m - a / m)) by (nonlinear_arith)
            requires
                a == m * (a / m) + a % m,
                b == m * (b / m) + b % m,
                a % m == b % m,
        ;
        assert(false) by (nonlinear_arith)
            requires
                b - a == m * (b / m - a / m),
                0 < b - a < m,
                m == 0x1_0000_0000_0000_0000,
        ;
    }
    let r = a % m;
    if r == m - 1 {
        vstd::arithmetic::div_mod::lemma_mod_multiples_vanish(a / m + 1, 0, m);
        assert(a + 1 == m * (a / m + 1)) by (nonlinear_arith)
            requires
                a == m * (a / m) + r,
                r == m - 1,
        ;
    } else {
        vstd::arithmetic::div_mod::lemma_mod_multiples_vanish(a / m, r + 1, m);
        vstd::arithmetic::div_mod::lemma_small_mod((r + 1) as nat, m as nat);
    }
}

/// The value that is handed out next, after the calls of `callers`, one after another.
pub open spec fn value_after(start: u64, callers: Seq<nat>) -> u64
    decreases callers.len(),
{
    if callers.len() == 0 {
        start
    } else {
        after(value_after(start, callers.drop_last()))
    }
}

/// The values that threads get from one counter, each with its thread. `callers` are the threads in
/// the order in which their calls take effect; a thread that calls again is there again.
pub open spec fn handed_out(start: u64, callers: Seq<nat>) -> Seq<(nat, u64)>
    decreases callers.len(),
{
    if callers.len() == 0 {
        Seq::empty()
    } else {
        let earlier = callers.drop_last();
        handed_out(start, earlier).push((callers.last(), value_after(start, earlier)))
    }
}

proof fn lemma_handed_out(start: u64, callers: Seq<nat>)
    ensures
        value_after(start, callers) == after_many(start, callers.len()),
        handed_out(start, callers).len() == callers.len(),
        forall|i: int|
            0 <= i < callers.len() ==> #[trigger] handed_out(start, callers)[i] == (
                callers[i],
                after_many(start, i as nat),
            ),
    decreases callers.len(),
{
    if callers.len() == 0 {
        law_values_do_not_repeat(start, 0, 1);
    } else {
        let earlier = callers.drop_last();
        lemma_handed_out(start, earlier);
        law_values_do_not_repeat(start, earlier.len(), earlier.len() + 1);
        assert forall|i: int| 0 <= i < callers.len() implies #[trigger] handed_out(
            start,
            callers,
        )[i] == (callers[i], after_many(start, i as nat)) by {
            if i < earlier.len() {
                assert(handed_out(start, earlier)[i] == (earlier[i], after_many(start, i as nat)));
            }
        }
    }
}

/// Whichever threads call, and in whatever order, fewer than 2^64 calls get values that all differ.
pub proof fn law_threads_share_no_value(start: u64, callers: Seq<nat>, first: int, second: int)
    requires
        0 <= first < second < callers.len() <= 0x1_0000_0000_0000_0000,
    ensures
        handed_out(start, callers).len() == callers.len(),
        handed_out(start, callers)[first].0 == callers[first],
        handed_out(start, callers)[first].1 != handed_out(start, callers)[second].1,
{
    lemma_handed_out(start, callers);
    law_values_do_not_repeat(start, first as nat, second as nat);
}

} // verus!
