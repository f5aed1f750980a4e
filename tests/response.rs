use zero_to_prod::claim::{after_insert, after_lookup, IdempotencyError, InsertStep};
use zero_to_prod::response::{
    capture, copy_bytes, copy_headers, restore, HeaderPair, ResponseColumns, RestoreError,
    SavedResponse,
};

fn header(name: &str, value: &[u8]) -> HeaderPair {
    HeaderPair::new(name.to_string(), value.to_vec())
}

fn sample_headers() -> Vec<HeaderPair> {
    vec![
        header("set-cookie", b"a=1"),
        header("content-type", b"text/html"),
        header("set-cookie", b"b=2"),
        header("x-raw", &[0, 159, 255]),
    ]
}

fn same_headers(a: &[HeaderPair], b: &[HeaderPair]) -> bool {
    a.len() == b.len()
        && a.iter().zip(b.iter()).all(|(x, y)| x.name == y.name && x.value == y.value)
}

#[test]
fn status_codes_outside_the_http_range_are_refused() {
    assert!(SavedResponse::new(99, vec![], vec![]).is_none());
    assert!(SavedResponse::new(1000, vec![], vec![]).is_none());
    assert!(SavedResponse::new(0, vec![], vec![]).is_none());
    assert_eq!(SavedResponse::new(100, vec![], vec![]).unwrap().status, 100);
    assert_eq!(SavedResponse::new(999, vec![], vec![]).unwrap().status, 999);
}

#[test]
fn capture_then_restore_keeps_status_headers_and_body() {
    let body = b"<p>published</p>".to_vec();
    let resp = SavedResponse::new(303, sample_headers(), body.clone()).unwrap();
    let columns = capture(resp);
    assert_eq!(columns.status_code, Some(303));
    let back = restore(columns).unwrap();
    assert_eq!(back.status, 303);
    assert!(same_headers(&back.headers, &sample_headers()));
    assert_eq!(back.body, body);
}

#[test]
fn pending_columns_restore_to_pending() {
    assert_eq!(restore(ResponseColumns::pending()).unwrap_err(), RestoreError::Pending);
    let partial = ResponseColumns { status_code: Some(200), headers: None, body: Some(vec![]) };
    assert_eq!(restore(partial).unwrap_err(), RestoreError::Pending);
}

#[test]
fn stored_status_outside_the_http_range_is_invalid() {
    for code in [-1i16, 0, 99, 1000, i16::MAX] {
        let columns =
            ResponseColumns { status_code: Some(code), headers: Some(vec![]), body: Some(vec![]) };
        assert_eq!(restore(columns).unwrap_err(), RestoreError::InvalidStatus, "{code}");
    }
}

#[test]
fn copies_are_exact() {
    let bytes = vec![1u8, 2, 3, 0, 255];
    assert_eq!(copy_bytes(&bytes), bytes);
    assert!(same_headers(&copy_headers(&sample_headers()), &sample_headers()));
    let resp = SavedResponse::new(200, sample_headers(), bytes.clone()).unwrap();
    let dup = resp.duplicate();
    assert_eq!(dup.status, 200);
    assert!(same_headers(&dup.headers, &resp.headers));
    assert_eq!(dup.body, bytes);
    let columns = capture(resp).duplicate();
    assert_eq!(columns.body, Some(bytes));
}

#[test]
fn insert_count_decides_the_claim() {
    assert_eq!(after_insert(1), InsertStep::Claimed);
    assert_eq!(after_insert(0), InsertStep::ReadExisting);
}

#[test]
fn lookup_decisions() {
    assert_eq!(after_lookup(None).unwrap_err(), IdempotencyError::InconsistentState);
    assert_eq!(
        after_lookup(Some(ResponseColumns::pending())).unwrap_err(),
        IdempotencyError::InconsistentState
    );
    let bad = ResponseColumns { status_code: Some(42), headers: Some(vec![]), body: Some(vec![]) };
    assert_eq!(after_lookup(Some(bad)).unwrap_err(), IdempotencyError::Storage);
    let good = capture(SavedResponse::new(200, sample_headers(), b"ok".to_vec()).unwrap());
    let resp = after_lookup(Some(good)).unwrap();
    assert_eq!(resp.status, 200);
    assert!(same_headers(&resp.headers, &sample_headers()));
    assert_eq!(resp.body, b"ok".to_vec());
}
