//! Capture and replay of a finished HTTP response: status code, the ordered
//! header list (duplicates kept) and the body bytes, in the shape of the
//! three nullable response columns of an idempotency record.

use actix_web::http::StatusCode;
use vstd::prelude::*;

verus! {

/// The codes that an HTTP status can carry.
pub open spec fn is_status_code(code: int) -> bool {
    100 <= code <= 999
}

/// Relies on `actix_web::http::StatusCode::from_u16` (re-exported from the
/// `http` crate), which accepts a code exactly when it lies in 100..=999.
#[verifier::external_body]
fn status_code_accepted(code: u16) -> (r: bool)
    ensures
        r == is_status_code(code as int),
{
    StatusCode::from_u16(code).is_ok()
}

/// One response header: its name and its raw value bytes.
#[derive(Debug, Clone)]
pub struct HeaderPair {
    pub name: String,
    pub value: Vec<u8>,
}

impl View for HeaderPair {
    type V = (Seq<char>, Seq<u8>);

    open spec fn view(&self) -> (Seq<char>, Seq<u8>) {
        (self.name@, self.value@)
    }
}

impl HeaderPair {
    pub fn new(name: String, value: Vec<u8>) -> (r: HeaderPair)
        ensures
            r.name@ == name@,
            r.value@ == value@,
    {
        HeaderPair { name, value }
    }
}

/// A copy of a byte buffer.
pub fn copy_bytes(v: &Vec<u8>) -> (r: Vec<u8>)
    ensures
        r@ == v@,
{
    let mut r: Vec<u8> = Vec::with_capacity(v.len());
    let mut i: usize = 0;
    while i < v.len()
        invariant
            i <= v@.len(),
            r@ == v@.subrange(0, i as int),
        decreases v@.len() - i,
    {
        r.push(v[i]);
        i = i + 1;
        assert(r@ =~= v@.subrange(0, i as int));
    }
    assert(r@ =~= v@);
    r
}

/// A copy of a header list, in the same order.
pub fn copy_headers(h: &Vec<HeaderPair>) -> (r: Vec<HeaderPair>)
    ensures
        headers_view(r@) == headers_view(h@),
{
    let mut r: Vec<HeaderPair> = Vec::with_capacity(h.len());
    let mut i: usize = 0;
    while i < h.len()
        invariant
            i <= h@.len(),
            r@.len() == i,
            forall|j: int| 0 <= j < i ==> (#[trigger] r@[j])@ == h@[j]@,
        decreases h@.len() - i,
    {
        let pair = HeaderPair { name: h[i].name.clone(), value: copy_bytes(&h[i].value) };
        r.push(pair);
        i = i + 1;
    }
    assert(headers_view(r@) =~= headers_view(h@));
    r
}

/// The mathematical content of a response.
pub struct ResponseView {
    pub status: u16,
    pub headers: Seq<(Seq<char>, Seq<u8>)>,
    pub body: Seq<u8>,
}

pub open spec fn headers_view(h: Seq<HeaderPair>) -> Seq<(Seq<char>, Seq<u8>)> {
    h.map_values(|p: HeaderPair| p@)
}

/// A fully materialised response: status, ordered headers, body.
#[derive(Debug)]
pub struct SavedResponse {
    pub status: u16,
    pub headers: Vec<HeaderPair>,
    pub body: Vec<u8>,
}

impl View for SavedResponse {
    type V = ResponseView;

    open spec fn view(&self) -> ResponseView {
        ResponseView { status: self.status, headers: headers_view(self.headers@), body: self.body@ }
    }
}

impl SavedResponse {
    /// A response is well formed when its status is a real HTTP status code.
    pub open spec fn wf(&self) -> bool {
        is_status_code(self.status as int)
    }

    /// Builds a response; `None` exactly when `status` is no HTTP status code.
    pub fn new(status: u16, headers: Vec<HeaderPair>, body: Vec<u8>) -> (r: Option<SavedResponse>)
        ensures
            r is Some <==> is_status_code(status as int),
            r matches Some(resp) ==> resp.status == status && resp.headers@ == headers@
                && resp.body@ == body@,
    {
        if status_code_accepted(status) {
            Some(SavedResponse { status, headers, body })
        } else {
            None
        }
    }
}

impl SavedResponse {
    /// A copy of this response.
    pub fn duplicate(&self) -> (r: SavedResponse)
        ensures
            r@ == self@,
    {
        SavedResponse {
            status: self.status,
            headers: copy_headers(&self.headers),
            body: copy_bytes(&self.body),
        }
    }
}

/// The nullable response columns of an idempotency record.
#[derive(Debug)]
pub struct ResponseColumns {
    pub status_code: Option<i16>,
    pub headers: Option<Vec<HeaderPair>>,
    pub body: Option<Vec<u8>>,
}

pub struct ColumnsView {
    pub status_code: Option<i16>,
    pub headers: Option<Seq<(Seq<char>, Seq<u8>)>>,
    pub body: Option<Seq<u8>>,
}

impl View for ResponseColumns {
    type V = ColumnsView;

    open spec fn view(&self) -> ColumnsView {
        ColumnsView {
            status_code: self.status_code,
            headers: match self.headers {
                Some(h) => Some(headers_view(h@)),
                None => None,
            },
            body: match self.body {
                Some(b) => Some(b@),
                None => None,
            },
        }
    }
}

/// The columns of a record that is claimed and not yet completed.
pub open spec fn pending_columns() -> ColumnsView {
    ColumnsView { status_code: None, headers: None, body: None }
}

/// The columns that hold a captured response.
pub open spec fn columns_of(v: ResponseView) -> ColumnsView {
    ColumnsView { status_code: Some(v.status as i16), headers: Some(v.headers), body: Some(v.body) }
}

/// Why stored columns give no response back.
#[derive(Debug, Clone, Copy, PartialEq, Eq, Structural)]
pub enum RestoreError {
    /// At least one response column is null: the record is still pending.
    Pending,
    /// The stored status is no HTTP status code.
    InvalidStatus,
}

/// What replaying stored columns yields.
pub open spec fn restore_spec(c: ColumnsView) -> Result<ResponseView, RestoreError> {
    match (c.status_code, c.headers, c.body) {
        (Some(s), Some(h), Some(b)) => if s >= 0 && is_status_code(s as int) {
            Ok(ResponseView { status: s as u16, headers: h, body: b })
        } else {
            Err(RestoreError::InvalidStatus)
        },
        _ => Err(RestoreError::Pending),
    }
}

impl ResponseColumns {
    /// A copy of these columns.
    pub fn duplicate(&self) -> (r: ResponseColumns)
        ensures
            r@ == self@,
    {
        let headers = match &self.headers {
            Some(h) => Some(copy_headers(h)),
            None => None,
        };
        let body = match &self.body {
            Some(b) => Some(copy_bytes(b)),
            None => None,
        };
        ResponseColumns { status_code: self.status_code, headers, body }
    }

    /// Columns with no response in them.
    pub fn pending() -> (r: ResponseColumns)
        ensures
            r@ == pending_columns(),
    {
        ResponseColumns { status_code: None, headers: None, body: None }
    }
}

/// Turns a finished response into the columns that store it. Header order
/// and duplicates are kept as they are.
pub fn capture(response: SavedResponse) -> (c: ResponseColumns)
    requires
        response.wf(),
    ensures
        c@ == columns_of(response@),
{
    let status_code = response.status as i16;
    ResponseColumns {
        status_code: Some(status_code),
        headers: Some(response.headers),
        body: Some(response.body),
    }
}

/// Rebuilds the response that `columns` stores.
pub fn restore(columns: ResponseColumns) -> (r: Result<SavedResponse, RestoreError>)
    ensures
        match (r, restore_spec(columns@)) {
            (Ok(resp), Ok(v)) => resp@ == v && resp.wf(),
            (Err(e), Err(f)) => e == f,
            _ => false,
        },
{
    match columns {
        ResponseColumns { status_code: Some(s), headers: Some(h), body: Some(b) } => {
            if s < 0 {
                return Err(RestoreError::InvalidStatus);
            }
            let code = s as u16;
            if status_code_accepted(code) {
                Ok(SavedResponse { status: code, headers: h, body: b })
            } else {
                Err(RestoreError::InvalidStatus)
            }
        },
        _ => Err(RestoreError::Pending),
    }
}

/// Storing a well-formed response and replaying it gives back the same
/// status, the same headers in the same order, and the same body.
pub proof fn lemma_capture_restore(v: ResponseView)
    requires
        is_status_code(v.status as int),
    ensures
        restore_spec(columns_of(v)) == Ok::<ResponseView, RestoreError>(v),
{
}

} // verus!
