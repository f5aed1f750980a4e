//! Properties of the coordinator, stated over the store contents that the
//! entry points' contracts speak of.

use crate::claim::{IdempotencyError, lookup_outcome};
use crate::key::{MAX_KEY_LEN, key_verdict};
use crate::response::{ResponseView, columns_of, is_status_code, lemma_capture_restore};
use crate::store::{
    Outcome, Pair, Slot, after_begin, after_complete, begin_outcome, is_pending, saved_response,
};
use vstd::prelude::*;

verus! {

/// One step against the store: a claim on a pair, or the completion of a
/// pair with a response.
pub enum Event {
    Claim(Pair),
    Complete(Pair, ResponseView),
}

/// The store contents after the events, applied in order.
pub open spec fn run_events(m: Map<Pair, Slot>, evs: Seq<Event>) -> Map<Pair, Slot>
    decreases evs.len(),
{
    if evs.len() == 0 {
        m
    } else {
        let prev = run_events(m, evs.drop_last());
        match evs.last() {
            Event::Claim(k) => after_begin(prev, k),
            Event::Complete(k, v) => after_complete(prev, k, v),
        }
    }
}

/// How many of the events are claims on `k` that were handed `Begin`.
pub open spec fn begins_for(m: Map<Pair, Slot>, evs: Seq<Event>, k: Pair) -> nat
    decreases evs.len(),
{
    if evs.len() == 0 {
        0
    } else {
        let prev = run_events(m, evs.drop_last());
        let here: nat = match evs.last() {
            Event::Claim(k2) => if k2 == k && begin_outcome(prev, k) is Begin {
                1
            } else {
                0
            },
            Event::Complete(_, _) => 0,
        };
        begins_for(m, evs.drop_last(), k) + here
    }
}

/// Whether some event claims `k`.
pub open spec fn claims(evs: Seq<Event>, k: Pair) -> bool {
    exists|i: int| 0 <= i < evs.len() && #[trigger] evs[i] == Event::Claim(k)
}

/// A pair that has a record keeps it under claims and completions.
pub proof fn lemma_record_kept(m: Map<Pair, Slot>, evs: Seq<Event>, k: Pair)
    ensures
        run_events(m, evs).contains_key(k) <==> (m.contains_key(k) || claims(evs, k)),
    decreases evs.len(),
{
    if evs.len() > 0 {
        let prev = evs.drop_last();
        lemma_record_kept(m, prev, k);
        if claims(evs, k) && !claims(prev, k) {
            let i = choose|i: int| 0 <= i < evs.len() && #[trigger] evs[i] == Event::Claim(k);
            if i < evs.len() - 1 {
                assert(prev[i] == evs[i]);
            }
        }
        if claims(prev, k) {
            let i = choose|i: int| 0 <= i < prev.len() && #[trigger] prev[i] == Event::Claim(k);
            assert(evs[i] == prev[i]);
        }
    }
}

/// Mutual exclusion: whatever the interleaving of claims and completions,
/// a pair is handed `Begin` exactly once when it had no record and some
/// event claims it, and never otherwise.
pub proof fn lemma_mutual_exclusion(m: Map<Pair, Slot>, evs: Seq<Event>, k: Pair)
    ensures
        begins_for(m, evs, k) == (if !m.contains_key(k) && claims(evs, k) {
            1nat
        } else {
            0nat
        }),
    decreases evs.len(),
{
    if evs.len() > 0 {
        let prev = evs.drop_last();
        lemma_mutual_exclusion(m, prev, k);
        lemma_record_kept(m, prev, k);
        if claims(evs, k) && !claims(prev, k) {
            let i = choose|i: int| 0 <= i < evs.len() && #[trigger] evs[i] == Event::Claim(k);
            if i < evs.len() - 1 {
                assert(prev[i] == evs[i]);
            }
        }
        if claims(prev, k) {
            let i = choose|i: int| 0 <= i < prev.len() && #[trigger] prev[i] == Event::Claim(k);
            assert(evs[i] == prev[i]);
        }
    }
}

/// Completing a pending pair and reading it back gives exactly the
/// response that was stored: same status, same headers in the same order,
/// same body. The same holds of any storage engine that hands back the
/// columns it was given: replaying them yields the response.
pub proof fn lemma_round_trip(m: Map<Pair, Slot>, k: Pair, v: ResponseView)
    requires
        is_pending(m, k),
        is_status_code(v.status as int),
    ensures
        saved_response(after_complete(m, k, v), k) == Some(v),
        lookup_outcome(Some(columns_of(v))) == Ok::<ResponseView, IdempotencyError>(v),
{
    assert(after_complete(m, k, v)[k] == Slot::Completed(v));
    lemma_capture_restore(v);
}

/// Idempotence of effect: running claim, operation and completion, then
/// claiming the same pair again, hands out `Begin` once; the second claim
/// replays the very response the first run returned and changes nothing.
pub proof fn lemma_idempotent_flow(m: Map<Pair, Slot>, k: Pair, v: ResponseView)
    requires
        !m.contains_key(k),
    ensures
        begin_outcome(m, k) == Outcome::Begin,
        is_pending(after_begin(m, k), k),
        begin_outcome(after_complete(after_begin(m, k), k, v), k) == Outcome::Replay(v),
        after_begin(after_complete(after_begin(m, k), k, v), k) == after_complete(
            after_begin(m, k),
            k,
            v,
        ),
{
    let m1 = after_begin(m, k);
    assert(m1[k] == Slot::Pending);
    assert(after_complete(m1, k, v)[k] == Slot::Completed(v));
}

/// User isolation: the same key claimed by two different users is two
/// independent claims, each handed `Begin`.
pub proof fn lemma_user_isolation(m: Map<Pair, Slot>, a: u128, b: u128, key: Seq<char>)
    requires
        a != b,
        !m.contains_key((a, key)),
        !m.contains_key((b, key)),
    ensures
        begin_outcome(m, (a, key)) == Outcome::Begin,
        begin_outcome(after_begin(m, (a, key)), (b, key)) == Outcome::Begin,
{
    assert((a, key) != (b, key));
}

/// A key that is empty or longer than the maximum is always rejected.
pub proof fn lemma_validation_boundary(s: Seq<char>)
    requires
        s.len() == 0 || s.len() > MAX_KEY_LEN,
    ensures
        key_verdict(s) is Some,
{
}

/// While the winner of a race runs, a second claim on the pair fails fast
/// with `Inconsistent` and changes nothing; once the winner completes, a
/// retry replays the winner's response.
pub proof fn lemma_race_fail_fast(m: Map<Pair, Slot>, k: Pair, v: ResponseView)
    requires
        !m.contains_key(k),
    ensures
        begin_outcome(after_begin(m, k), k) == Outcome::Inconsistent,
        after_begin(after_begin(m, k), k) == after_begin(m, k),
        begin_outcome(after_complete(after_begin(m, k), k, v), k) == Outcome::Replay(v),
{
    let m1 = after_begin(m, k);
    assert(m1[k] == Slot::Pending);
    assert(after_complete(m1, k, v)[k] == Slot::Completed(v));
}

} // verus!
