//! What a host's calls do to an instance, one after another.
//!
//! The host chooses which entrypoint to call and when. This module models a
//! run as the sequence of those calls and states what holds of every run.

use vstd::prelude::*;
use crate::guest::Call;

verus! {

/// `GLOBAL` after the host has made `calls` in order, the first of them
/// while `GLOBAL` was `global`.
pub open spec fn global_after_all(global: int, calls: Seq<Call>) -> int
    decreases calls.len(),
{
    if calls.len() == 0 {
        global
    } else {
        calls.last().global_after(global_after_all(global, calls.drop_last()))
    }
}

/// The lines that `calls` emit, one for each call: a call emits its line in
/// the state that the calls before it have left.
pub open spec fn lines_of_all(global: int, calls: Seq<Call>) -> Seq<Seq<char>> {
    Seq::new(calls.len(), |i: int| calls[i].line(global_after_all(global, calls.take(i))))
}

/// `n` calls of the callback in a row.
pub open spec fn callbacks(n: nat) -> Seq<Call> {
    Seq::new(n, |i: int| Call::BlockchainInit)
}

/// From instantiation on, `GLOBAL` is 0 as long as the standard entrypoint
/// has not run and 2 as soon as it has, whatever else the host calls and in
/// whatever order.
pub proof fn lemma_global_tracks_start(calls: Seq<Call>)
    ensures
        global_after_all(0, calls) == if calls.contains(Call::Start) {
            2int
        } else {
            0int
        },
    decreases calls.len(),
{
    if calls.len() > 0 {
        let before = calls.drop_last();
        lemma_global_tracks_start(before);
        if calls.last() == Call::Start {
            assert(calls[calls.len() - 1] == Call::Start);
        } else if before.contains(Call::Start) {
            let i = choose|i: int| 0 <= i < before.len() && before[i] == Call::Start;
            assert(calls[i] == Call::Start);
        } else if calls.contains(Call::Start) {
            let i = choose|i: int| 0 <= i < calls.len() && calls[i] == Call::Start;
            assert(before[i] == Call::Start);
        }
    }
}

/// The initialized state is terminal: once `GLOBAL` is 2, no sequence of
/// calls changes it.
pub proof fn lemma_initialized_is_terminal(calls: Seq<Call>)
    ensures
        global_after_all(2, calls) == 2,
    decreases calls.len(),
{
    if calls.len() > 0 {
        lemma_initialized_is_terminal(calls.drop_last());
    }
}

/// After the standard entrypoint has run once, `GLOBAL` is 2 and stays 2
/// through any number of calls of the callback, whatever it held before.
pub proof fn lemma_started_global_stays(global: int, n: nat)
    ensures
        global_after_all(global, seq![Call::Start] + callbacks(n)) == 2,
    decreases n,
{
    let calls = seq![Call::Start] + callbacks(n);
    if n == 0 {
        assert(calls.drop_last() == Seq::<Call>::empty());
    } else {
        lemma_started_global_stays(global, (n - 1) as nat);
        assert(calls.drop_last() == seq![Call::Start] + callbacks((n - 1) as nat));
    }
}

/// The callback does not write: any number of calls of it in a row leave
/// `GLOBAL` as it was, and each of them emits the same line.
pub proof fn lemma_callbacks_repeat(global: int, n: nat)
    ensures
        global_after_all(global, callbacks(n)) == global,
        lines_of_all(global, callbacks(n)) == Seq::new(
            n,
            |i: int| Call::BlockchainInit.line(global),
        ),
    decreases n,
{
    if n > 0 {
        lemma_callbacks_repeat(global, (n - 1) as nat);
        assert(callbacks(n).drop_last() == callbacks((n - 1) as nat));
    }
    assert forall|i: int| 0 <= i < n implies #[trigger] lines_of_all(global, callbacks(n))[i]
        == Call::BlockchainInit.line(global) by {
        lemma_callbacks_repeat(global, i as nat);
        assert(callbacks(n).take(i) == callbacks(i as nat));
    }
}

} // verus!
