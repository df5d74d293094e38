//! A bounded first-in, first-out window of utterances.
//!
//! A window is an ordinary `Vec<String>`, oldest entry first. Appending puts
//! the new utterance at the tail and drops entries from the head until at most
//! `capacity` remain.

use vstd::prelude::*;

verus! {

/// The text of every entry of a window, in order.
pub open spec fn texts(window: Seq<String>) -> Seq<Seq<char>> {
    window.map_values(|entry: String| entry@)
}

/// The last `n` elements of `s`, or all of `s` where it has no more than `n`.
pub open spec fn last_n<T>(s: Seq<T>, n: nat) -> Seq<T> {
    if s.len() <= n {
        s
    } else {
        s.subrange(s.len() - n, s.len() as int)
    }
}

/// The window that follows `window` once `utterance` has been appended under
/// the bound `capacity`.
pub open spec fn window_after(
    window: Seq<Seq<char>>,
    utterance: Seq<char>,
    capacity: nat,
) -> Seq<Seq<char>> {
    last_n(window.push(utterance), capacity)
}

/// The window that follows `window` once every element of `utterances` has
/// been appended in order, each under the bound `capacity`.
pub open spec fn window_after_all(
    window: Seq<Seq<char>>,
    utterances: Seq<Seq<char>>,
    capacity: nat,
) -> Seq<Seq<char>>
    decreases utterances.len(),
{
    if utterances.len() == 0 {
        window
    } else {
        window_after(
            window_after_all(window, utterances.drop_last(), capacity),
            utterances.last(),
            capacity,
        )
    }
}

/// Appends `utterance` at the tail of `window` and evicts from the head until
/// no more than `capacity` entries are left.
pub fn append(window: &mut Vec<String>, utterance: String, capacity: usize)
    ensures
        texts(final(window)@) == window_after(texts(old(window)@), utterance@, capacity as nat),
{
    let ghost before = window@;
    while window.len() > 0 && window.len() >= capacity
        invariant
            window@.len() <= before.len(),
            window@ == before.subrange(before.len() - window@.len(), before.len() as int),
            capacity >= 1 && before.len() >= capacity - 1 ==> window@.len() >= capacity - 1,
            capacity >= 1 && before.len() < capacity - 1 ==> window@.len() == before.len(),
        decreases window@.len(),
    {
        window.remove(0);
    }
    if capacity > 0 {
        window.push(utterance);
    }
    assert(texts(window@) =~= window_after(texts(before), utterance@, capacity as nat));
}

/// Empties `window`.
pub fn clear(window: &mut Vec<String>)
    ensures
        final(window)@.len() == 0,
        texts(final(window)@) == Seq::<Seq<char>>::empty(),
{
    window.clear();
}

/// Appending never leaves more than `capacity` entries.
pub proof fn lemma_window_bounded(window: Seq<Seq<char>>, utterance: Seq<char>, capacity: nat)
    ensures
        window_after(window, utterance, capacity).len() <= capacity,
{
}

/// After any run of appends to a window within its bound, the window holds
/// exactly the last `capacity` entries of the old window followed by the
/// appended utterances, in that order.
pub proof fn lemma_window_keeps_latest(
    window: Seq<Seq<char>>,
    utterances: Seq<Seq<char>>,
    capacity: nat,
)
    requires
        window.len() <= capacity,
    ensures
        window_after_all(window, utterances, capacity) == last_n(window + utterances, capacity),
        window_after_all(window, utterances, capacity).len() <= capacity,
    decreases utterances.len(),
{
    if utterances.len() == 0 {
        assert(window + utterances =~= window);
    } else {
        let earlier = utterances.drop_last();
        lemma_window_keeps_latest(window, earlier, capacity);
        assert((window + earlier).push(utterances.last()) =~= window + utterances);
        assert(window_after_all(window, utterances, capacity) =~= last_n(
            window + utterances,
            capacity,
        ));
    }
}

/// After any run of appends to an empty window, the window holds exactly the
/// last `capacity` of the appended utterances, in the order of appending, and
/// it held no more than `capacity` entries after each of the appends.
pub proof fn lemma_appends_keep_latest(utterances: Seq<Seq<char>>, capacity: nat)
    ensures
        window_after_all(Seq::empty(), utterances, capacity) == last_n(utterances, capacity),
        forall|k: int|
            0 <= k <= utterances.len() ==> (#[trigger] window_after_all(
                Seq::empty(),
                utterances.take(k),
                capacity,
            )).len() <= capacity,
{
    let empty = Seq::<Seq<char>>::empty();
    lemma_window_keeps_latest(empty, utterances, capacity);
    assert(empty + utterances =~= utterances);
    assert forall|k: int| 0 <= k <= utterances.len() implies (#[trigger] window_after_all(
        empty,
        utterances.take(k),
        capacity,
    )).len() <= capacity by {
        lemma_window_keeps_latest(empty, utterances.take(k), capacity);
    }
}

} // verus!
