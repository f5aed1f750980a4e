//! The coordinator's entry points: claim a (user, key) pair, complete it with
//! the operation's response, and replay what was stored.

use crate::claim::{IdempotencyError, InsertStep, after_insert, after_lookup};
use crate::key::{IdempotencyKey, key_verdict};
use crate::response::{SavedResponse, lemma_capture_restore, restore};
use crate::store::{
    Claim, MemoryStore, NextAction, Slot, after_begin, after_complete, begin_outcome, is_pending,
    outcome_matches, saved_response,
};
use vstd::prelude::*;

verus! {

/// Claims the pair (`user_id`, `key`). The first claim on a pair returns
/// `StartProcessing` with the claim; a claim on a completed pair returns its
/// stored response; a claim on a pending pair fails with `InconsistentState`.
pub fn try_processing(store: &mut MemoryStore, key: &IdempotencyKey, user_id: u128) -> (r: Result<
    NextAction,
    IdempotencyError,
>)
    requires
        old(store).wf(),
    ensures
        final(store).wf(),
        final(store)@ == after_begin(old(store)@, (user_id, key@)),
        outcome_matches(r, begin_outcome(old(store)@, (user_id, key@)), (user_id, key@)),
{
    let rows = store.insert_if_absent(user_id, key);
    match after_insert(rows) {
        InsertStep::Claimed => Ok(NextAction::StartProcessing(Claim::new(user_id, key))),
        InsertStep::ReadExisting => {
            let row = store.read_columns(user_id, key);
            proof {
                let k = (user_id, key@);
                store.lemma_slots_valid(k);
                if let Slot::Completed(v) = store@[k] {
                    lemma_capture_restore(v);
                }
            }
            match after_lookup(row) {
                Ok(resp) => Ok(NextAction::ReturnSavedResponse(resp)),
                Err(e) => Err(e),
            }
        },
    }
}

/// Validates the raw key, then claims the pair as `try_processing` does. A
/// malformed key fails with `Validation` and leaves the store untouched.
pub fn begin(store: &mut MemoryStore, raw_key: String, user_id: u128) -> (r: Result<
    NextAction,
    IdempotencyError,
>)
    requires
        old(store).wf(),
    ensures
        final(store).wf(),
        match key_verdict(raw_key@) {
            Some(e) => r == Err::<NextAction, IdempotencyError>(IdempotencyError::Validation(e))
                && final(store)@ == old(store)@,
            None => final(store)@ == after_begin(old(store)@, (user_id, raw_key@)) && outcome_matches(
                r,
                begin_outcome(old(store)@, (user_id, raw_key@)),
                (user_id, raw_key@),
            ),
        },
{
    match IdempotencyKey::parse(raw_key) {
        Ok(key) => try_processing(store, &key, user_id),
        Err(e) => Err(IdempotencyError::Validation(e)),
    }
}

/// Stores the operation's response in the claimed record and commits it;
/// returns the same response. Fails with `InconsistentState`, changing
/// nothing, when the claimed record is no longer pending.
pub fn save_response(store: &mut MemoryStore, claim: Claim, response: SavedResponse) -> (r: Result<
    SavedResponse,
    IdempotencyError,
>)
    requires
        old(store).wf(),
        response.wf(),
    ensures
        final(store).wf(),
        final(store)@ == after_complete(old(store)@, claim@, response@),
        r is Ok <==> is_pending(old(store)@, claim@),
        r matches Ok(resp) ==> resp@ == response@ && resp.wf(),
        r matches Err(e) ==> e == IdempotencyError::InconsistentState,
{
    let returned = response.duplicate();
    if store.complete_record(claim, response) {
        Ok(returned)
    } else {
        Err(IdempotencyError::InconsistentState)
    }
}

/// The response stored for the pair, if its record is completed.
pub fn get_saved_response(store: &MemoryStore, key: &IdempotencyKey, user_id: u128) -> (r: Option<
    SavedResponse,
>)
    requires
        store.wf(),
    ensures
        match (r, saved_response(store@, (user_id, key@))) {
            (Some(resp), Some(v)) => resp@ == v && resp.wf(),
            (None, None) => true,
            _ => false,
        },
{
    let row = store.read_columns(user_id, key);
    proof {
        let k = (user_id, key@);
        if store@.contains_key(k) {
            store.lemma_slots_valid(k);
            if let Slot::Completed(v) = store@[k] {
                lemma_capture_restore(v);
            }
        }
    }
    match row {
        Some(columns) => match restore(columns) {
            Ok(resp) => Some(resp),
            Err(_) => None,
        },
        None => None,
    }
}

} // verus!
