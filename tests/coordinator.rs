use zero_to_prod::claim::IdempotencyError;
use zero_to_prod::coordinator::{begin, get_saved_response, save_response, try_processing};
use zero_to_prod::key::{IdempotencyKey, KeyError};
use zero_to_prod::response::{HeaderPair, SavedResponse};
use zero_to_prod::store::{Claim, MemoryStore, NextAction};

fn key(raw: &str) -> IdempotencyKey {
    IdempotencyKey::parse(raw.to_string()).unwrap()
}

fn published() -> SavedResponse {
    SavedResponse::new(
        303,
        vec![
            HeaderPair::new("location".to_string(), b"/admin/newsletters".to_vec()),
            HeaderPair::new("set-cookie".to_string(), b"_flash=a".to_vec()),
            HeaderPair::new("set-cookie".to_string(), b"_flash=b".to_vec()),
        ],
        b"<p><i>The newsletter issue has been published!</i></p>".to_vec(),
    )
    .unwrap()
}

fn bytes_of(r: &SavedResponse) -> (u16, Vec<(String, Vec<u8>)>, Vec<u8>) {
    (
        r.status,
        r.headers.iter().map(|h| (h.name.clone(), h.value.clone())).collect(),
        r.body.clone(),
    )
}

fn expect_claim(r: Result<NextAction, IdempotencyError>) -> Claim {
    match r {
        Ok(NextAction::StartProcessing(c)) => c,
        other => panic!("expected a claim, got {other:?}"),
    }
}

fn expect_replay(r: Result<NextAction, IdempotencyError>) -> SavedResponse {
    match r {
        Ok(NextAction::ReturnSavedResponse(resp)) => resp,
        other => panic!("expected a replay, got {other:?}"),
    }
}

/// Runs the whole flow for one request; `dispatch` counts the operation.
fn publish(store: &mut MemoryStore, raw: &str, user: u128, dispatch: &mut u32) -> SavedResponse {
    match begin(store, raw.to_string(), user).unwrap() {
        NextAction::StartProcessing(claim) => {
            *dispatch += 1;
            save_response(store, claim, published()).unwrap()
        }
        NextAction::ReturnSavedResponse(resp) => resp,
    }
}

#[test]
fn newsletter_creation_is_idempotent() {
    let mut store = MemoryStore::new();
    let mut dispatched = 0;
    let first = publish(&mut store, "abc-123", 42, &mut dispatched);
    let second = publish(&mut store, "abc-123", 42, &mut dispatched);
    assert_eq!(dispatched, 1);
    assert_eq!(bytes_of(&first), bytes_of(&second));
    assert_eq!(bytes_of(&first), bytes_of(&published()));
}

#[test]
fn only_one_of_many_claims_begins() {
    let mut store = MemoryStore::new();
    let k = key("same-request");
    let mut claims = Vec::new();
    let mut inconsistent = 0;
    for _ in 0..10 {
        match try_processing(&mut store, &k, 7) {
            Ok(NextAction::StartProcessing(c)) => claims.push(c),
            Err(IdempotencyError::InconsistentState) => inconsistent += 1,
            other => panic!("unexpected {other:?}"),
        }
    }
    assert_eq!(claims.len(), 1);
    assert_eq!(inconsistent, 9);
    let winner = save_response(&mut store, claims.pop().unwrap(), published()).unwrap();
    for _ in 0..10 {
        let replay = expect_replay(try_processing(&mut store, &k, 7));
        assert_eq!(bytes_of(&replay), bytes_of(&winner));
    }
}

#[test]
fn concurrent_form_submission_is_handled_gracefully() {
    let mut store = MemoryStore::new();
    let mut dispatched = 0;
    // Both requests arrive before the first one finishes its work.
    let claim = expect_claim(begin(&mut store, "race-1".to_string(), 5));
    let loser = begin(&mut store, "race-1".to_string(), 5);
    assert_eq!(loser.unwrap_err(), IdempotencyError::InconsistentState);
    dispatched += 1;
    let first = save_response(&mut store, claim, published()).unwrap();
    // The loser retries once the winner has finished.
    let second = expect_replay(begin(&mut store, "race-1".to_string(), 5));
    assert_eq!(dispatched, 1);
    assert_eq!(bytes_of(&first), bytes_of(&second));
}

#[test]
fn same_key_for_two_users_is_two_claims() {
    let mut store = MemoryStore::new();
    let a = expect_claim(begin(&mut store, "X".to_string(), 1));
    let b = expect_claim(begin(&mut store, "X".to_string(), 2));
    let ra = save_response(&mut store, a, published()).unwrap();
    let other = SavedResponse::new(200, vec![], b"second".to_vec()).unwrap();
    let rb = save_response(&mut store, b, other).unwrap();
    assert_eq!(bytes_of(&expect_replay(begin(&mut store, "X".to_string(), 1))), bytes_of(&ra));
    assert_eq!(bytes_of(&expect_replay(begin(&mut store, "X".to_string(), 2))), bytes_of(&rb));
}

#[test]
fn malformed_keys_fail_before_touching_the_store() {
    let mut store = MemoryStore::new();
    let long = "k".repeat(51);
    assert_eq!(
        begin(&mut store, String::new(), 1).unwrap_err(),
        IdempotencyError::Validation(KeyError::Empty)
    );
    assert_eq!(
        begin(&mut store, long, 1).unwrap_err(),
        IdempotencyError::Validation(KeyError::TooLong)
    );
    assert_eq!(
        begin(&mut store, "no spaces".to_string(), 1).unwrap_err(),
        IdempotencyError::Validation(KeyError::InvalidCharacter)
    );
    // Nothing was recorded: a valid claim on the same user still begins.
    expect_claim(begin(&mut store, "k".to_string(), 1));
}

#[test]
fn abandoned_claim_frees_the_pair() {
    let mut store = MemoryStore::new();
    let k = key("retry-me");
    let claim = expect_claim(try_processing(&mut store, &k, 9));
    assert!(store.abandon(claim));
    let again = expect_claim(try_processing(&mut store, &k, 9));
    save_response(&mut store, again, published()).unwrap();
    let replay = expect_replay(try_processing(&mut store, &k, 9));
    assert_eq!(bytes_of(&replay), bytes_of(&published()));
}

#[test]
fn saved_response_is_only_there_once_completed() {
    let mut store = MemoryStore::new();
    let k = key("load-me");
    assert!(get_saved_response(&store, &k, 3).is_none());
    let claim = expect_claim(try_processing(&mut store, &k, 3));
    assert!(get_saved_response(&store, &k, 3).is_none());
    save_response(&mut store, claim, published()).unwrap();
    let loaded = get_saved_response(&store, &k, 3).unwrap();
    assert_eq!(bytes_of(&loaded), bytes_of(&published()));
    assert!(get_saved_response(&store, &k, 4).is_none());
}

#[test]
fn raw_store_operations() {
    let mut store = MemoryStore::new();
    let k = key("raw-ops");
    assert_eq!(store.insert_if_absent(1, &k), 1);
    assert_eq!(store.insert_if_absent(1, &k), 0);
    assert_eq!(store.insert_if_absent(2, &k), 1);
    let columns = store.read_columns(1, &k).unwrap();
    assert_eq!(columns.status_code, None);
    assert!(columns.headers.is_none() && columns.body.is_none());
    assert!(store.read_columns(3, &k).is_none());
}
