//! An in-memory storage engine for idempotency records, and the model of
//! its contents that the coordinator's contracts speak of.
//!
//! The store keeps one record per (user, key) pair. Its claiming insert is
//! atomic: every sequence of calls, however requests interleave, is a
//! sequence of the operations below, each applied whole.

use crate::claim::{IdempotencyError, row_view};
use crate::key::IdempotencyKey;
use crate::response::{
    ColumnsView, ResponseColumns, ResponseView, SavedResponse, capture, columns_of,
    is_status_code, lemma_capture_restore, pending_columns,
};
use vstd::prelude::*;

verus! {

/// A (user, key) pair: records are unique per pair.
pub type Pair = (u128, Seq<char>);

/// The state of a pair that has a record.
pub enum Slot {
    /// Claimed; the operation has not completed.
    Pending,
    /// Completed with the captured response.
    Completed(ResponseView),
}

/// What a `begin` call hands its caller.
pub enum Outcome {
    /// The caller holds the claim and must run the operation.
    Begin,
    /// The operation already ran: this is its response.
    Replay(ResponseView),
    /// The pair is claimed and not completed.
    Inconsistent,
}

/// The outcome of a claim on `k` against the store contents `m`.
pub open spec fn begin_outcome(m: Map<Pair, Slot>, k: Pair) -> Outcome {
    if !m.contains_key(k) {
        Outcome::Begin
    } else {
        match m[k] {
            Slot::Pending => Outcome::Inconsistent,
            Slot::Completed(v) => Outcome::Replay(v),
        }
    }
}

/// The store contents after a claim on `k`.
pub open spec fn after_begin(m: Map<Pair, Slot>, k: Pair) -> Map<Pair, Slot> {
    if !m.contains_key(k) {
        m.insert(k, Slot::Pending)
    } else {
        m
    }
}

pub open spec fn is_pending(m: Map<Pair, Slot>, k: Pair) -> bool {
    m.contains_key(k) && m[k] is Pending
}

/// The store contents after completing `k` with the response `v`.
pub open spec fn after_complete(m: Map<Pair, Slot>, k: Pair, v: ResponseView) -> Map<Pair, Slot> {
    if is_pending(m, k) {
        m.insert(k, Slot::Completed(v))
    } else {
        m
    }
}

/// The store contents after abandoning the claim on `k`.
pub open spec fn after_abandon(m: Map<Pair, Slot>, k: Pair) -> Map<Pair, Slot> {
    if is_pending(m, k) {
        m.remove(k)
    } else {
        m
    }
}

/// The response stored for `k`, if it is completed.
pub open spec fn saved_response(m: Map<Pair, Slot>, k: Pair) -> Option<ResponseView> {
    if m.contains_key(k) {
        match m[k] {
            Slot::Completed(v) => Some(v),
            Slot::Pending => None,
        }
    } else {
        None
    }
}

/// The columns that hold a slot.
pub open spec fn slot_columns(s: Slot) -> ColumnsView {
    match s {
        Slot::Pending => pending_columns(),
        Slot::Completed(v) => columns_of(v),
    }
}

pub open spec fn slot_valid(s: Slot) -> bool {
    match s {
        Slot::Pending => true,
        Slot::Completed(v) => is_status_code(v.status as int),
    }
}

/// The single-use capability to complete (or abandon) one claimed pair.
#[derive(Debug)]
pub struct Claim {
    user_id: u128,
    key: String,
}

impl View for Claim {
    type V = Pair;

    closed spec fn view(&self) -> Pair {
        (self.user_id, self.key@)
    }
}

impl Claim {
    pub(crate) fn new(user_id: u128, key: &IdempotencyKey) -> (c: Claim)
        ensures
            c@ == (user_id, key@),
    {
        Claim { user_id, key: key.to_text() }
    }
}

/// What the caller of a claim must do next.
#[derive(Debug)]
pub enum NextAction {
    /// Run the operation, then hand its response to `save_response`.
    StartProcessing(Claim),
    /// Send this response back unchanged; run nothing.
    ReturnSavedResponse(SavedResponse),
}

/// `r` is what a claim returns when its outcome is `o` for the pair `k`.
pub open spec fn outcome_matches(r: Result<NextAction, IdempotencyError>, o: Outcome, k: Pair) -> bool {
    match o {
        Outcome::Begin => r matches Ok(NextAction::StartProcessing(c)) && c@ == k,
        Outcome::Replay(v) => r matches Ok(NextAction::ReturnSavedResponse(resp)) && resp@ == v
            && resp.wf(),
        Outcome::Inconsistent => r matches Err(IdempotencyError::InconsistentState),
    }
}

struct StoredRecord {
    user_id: u128,
    key: String,
    response: ResponseColumns,
}

impl StoredRecord {
    spec fn pair(&self) -> Pair {
        (self.user_id, self.key@)
    }
}

/// Idempotency records held in memory.
pub struct MemoryStore {
    records: Vec<StoredRecord>,
    contents: Ghost<Map<Pair, Slot>>,
}

impl View for MemoryStore {
    type V = Map<Pair, Slot>;

    closed spec fn view(&self) -> Map<Pair, Slot> {
        self.contents@
    }
}

impl MemoryStore {
    /// Every record stands for its pair's slot, every slot has a record, and
    /// no two records share a pair.
    pub closed spec fn wf(&self) -> bool {
        &&& forall|i: int|
            0 <= i < self.records@.len() ==> {
                let rec = #[trigger] self.records@[i];
                &&& self.contents@.contains_key(rec.pair())
                &&& slot_valid(self.contents@[rec.pair()])
                &&& rec.response@ == slot_columns(self.contents@[rec.pair()])
            }
        &&& forall|k: Pair|
            #[trigger] self.contents@.contains_key(k) ==> exists|i: int|
                0 <= i < self.records@.len() && self.records@[i].pair() == k
        &&& forall|i: int, j: int|
            0 <= i < self.records@.len() && 0 <= j < self.records@.len() && i != j
                ==> #[trigger] self.records@[i].pair() != #[trigger] self.records@[j].pair()
    }

    /// An empty store.
    pub fn new() -> (s: MemoryStore)
        ensures
            s.wf(),
            s@ == Map::<Pair, Slot>::empty(),
    {
        MemoryStore { records: Vec::new(), contents: Ghost(Map::empty()) }
    }

    /// Every slot of a well-formed store holds a valid response, if any.
    pub proof fn lemma_slots_valid(&self, k: Pair)
        requires
            self.wf(),
            self@.contains_key(k),
        ensures
            slot_valid(self@[k]),
    {
        let i = choose|i: int| 0 <= i < self.records@.len() && self.records@[i].pair() == k;
        assert(self.records@[i].pair() == k);
    }

    fn find(&self, user_id: u128, key: &String) -> (r: Option<usize>)
        requires
            self.wf(),
        ensures
            match r {
                Some(i) => i < self.records@.len() && self.records@[i as int].pair() == (
                user_id,
                key@,
                ),
                None => !self@.contains_key((user_id, key@)),
            },
    {
        let mut i: usize = 0;
        while i < self.records.len()
            invariant
                self.wf(),
                i <= self.records@.len(),
                forall|j: int| 0 <= j < i ==> (#[trigger] self.records@[j]).pair() != (user_id, key@),
            decreases self.records@.len() - i,
        {
            let rec = &self.records[i];
            if rec.user_id == user_id && rec.key == *key {
                return Some(i);
            }
            i = i + 1;
        }
        proof {
            if self@.contains_key((user_id, key@)) {
                let w = choose|w: int|
                    0 <= w < self.records@.len() && self.records@[w].pair() == (user_id, key@);
                assert(self.records@[w].pair() != (user_id, key@));
            }
        }
        None
    }

    /// Inserts a pending record for the pair unless one exists; returns the
    /// number of records inserted. The check and the insert form one step.
    pub fn insert_if_absent(&mut self, user_id: u128, key: &IdempotencyKey) -> (n: u64)
        requires
            old(self).wf(),
        ensures
            final(self).wf(),
            final(self)@ == after_begin(old(self)@, (user_id, key@)),
            n == (if old(self)@.contains_key((user_id, key@)) {
                0u64
            } else {
                1u64
            }),
    {
        let text = key.to_text();
        match self.find(user_id, &text) {
            Some(_) => 0,
            None => {
                let ghost k = (user_id, key@);
                let ghost old_records = self.records@;
                self.records.push(
                    StoredRecord { user_id, key: text, response: ResponseColumns::pending() },
                );
                self.contents = Ghost(self.contents@.insert(k, Slot::Pending));
                proof {
                    let n = old_records.len() as int;
                    assert(self.records@[n].pair() == k);
                    assert forall|k2: Pair| #[trigger] self.contents@.contains_key(k2) implies exists|
                        i: int,
                    |
                        0 <= i < self.records@.len() && self.records@[i].pair() == k2 by {
                        if k2 != k {
                            let w = choose|w: int|
                                0 <= w < old_records.len() && old_records[w].pair() == k2;
                            assert(self.records@[w] == old_records[w]);
                        }
                    }
                    assert forall|i: int, j: int|
                        0 <= i < self.records@.len() && 0 <= j < self.records@.len() && i != j
                            implies #[trigger] self.records@[i].pair()
                        != #[trigger] self.records@[j].pair() by {
                        if i < n && j < n {
                            assert(old_records[i] == self.records@[i]);
                            assert(old_records[j] == self.records@[j]);
                        } else if i < n {
                            assert(old_records[i] == self.records@[i]);
                            assert(old_records[i].pair() != k);
                        } else if j < n {
                            assert(old_records[j] == self.records@[j]);
                            assert(old_records[j].pair() != k);
                        }
                    }
                    assert forall|i: int| 0 <= i < self.records@.len() implies {
                        let rec = #[trigger] self.records@[i];
                        &&& self.contents@.contains_key(rec.pair())
                        &&& slot_valid(self.contents@[rec.pair()])
                        &&& rec.response@ == slot_columns(self.contents@[rec.pair()])
                    } by {
                        if i < n {
                            assert(old_records[i] == self.records@[i]);
                            assert(old_records[i].pair() != k);
                        }
                    }
                }
                1
            },
        }
    }

    /// The response columns of the pair's record, if it has one.
    pub fn read_columns(&self, user_id: u128, key: &IdempotencyKey) -> (r: Option<ResponseColumns>)
        requires
            self.wf(),
        ensures
            row_view(r) == (if self@.contains_key((user_id, key@)) {
                Some(slot_columns(self@[(user_id, key@)]))
            } else {
                None
            }),
    {
        let text = key.to_text();
        match self.find(user_id, &text) {
            Some(i) => Some(self.records[i].response.duplicate()),
            None => None,
        }
    }

    /// Writes the response into the pair's pending record. Returns whether
    /// there was such a record; otherwise nothing changes.
    pub fn complete_record(&mut self, claim: Claim, response: SavedResponse) -> (done: bool)
        requires
            old(self).wf(),
            response.wf(),
        ensures
            final(self).wf(),
            done == is_pending(old(self)@, claim@),
            final(self)@ == after_complete(old(self)@, claim@, response@),
    {
        let ghost k = claim@;
        let Claim { user_id, key } = claim;
        let found = self.find(user_id, &key);
        let i = match found {
            Some(i) => i,
            None => {
                return false;
            },
        };
        if self.records[i].response.status_code.is_some() {
            return false;
        }
        let ghost old_records = self.records@;
        let ghost v = response@;
        let columns = capture(response);
        self.records.set(i, StoredRecord { user_id, key, response: columns });
        self.contents = Ghost(self.contents@.insert(k, Slot::Completed(v)));
        proof {
            assert forall|j: int| 0 <= j < self.records@.len() implies (#[trigger] self.records@[j]).pair()
                == old_records[j].pair() by {}
            assert forall|k2: Pair| #[trigger] self.contents@.contains_key(k2) implies exists|
                j: int,
            |
                0 <= j < self.records@.len() && self.records@[j].pair() == k2 by {
                if k2 != k {
                    let w = choose|w: int| 0 <= w < old_records.len() && old_records[w].pair() == k2;
                    assert(self.records@[w].pair() == k2);
                } else {
                    assert(self.records@[i as int].pair() == k2);
                }
            }
            assert forall|a: int, b: int|
                0 <= a < self.records@.len() && 0 <= b < self.records@.len() && a != b
                    implies #[trigger] self.records@[a].pair()
                != #[trigger] self.records@[b].pair() by {
                assert(old_records[a].pair() != old_records[b].pair());
            }
            assert forall|j: int| 0 <= j < self.records@.len() implies {
                let rec = #[trigger] self.records@[j];
                &&& self.contents@.contains_key(rec.pair())
                &&& slot_valid(self.contents@[rec.pair()])
                &&& rec.response@ == slot_columns(self.contents@[rec.pair()])
            } by {
                if j != i {
                    assert(old_records[j] == self.records@[j]);
                    assert(old_records[j].pair() != old_records[i as int].pair());
                }
            }
        }
        true
    }

    /// Drops the pair's pending record, as rolling back its claim does.
    /// Returns whether there was such a record; otherwise nothing changes.
    pub fn abandon(&mut self, claim: Claim) -> (done: bool)
        requires
            old(self).wf(),
        ensures
            final(self).wf(),
            done == is_pending(old(self)@, claim@),
            final(self)@ == after_abandon(old(self)@, claim@),
    {
        let ghost k = claim@;
        let found = self.find(claim.user_id, &claim.key);
        let i = match found {
            Some(i) => i,
            None => {
                return false;
            },
        };
        if self.records[i].response.status_code.is_some() {
            return false;
        }
        let ghost old_records = self.records@;
        let _gone = self.records.remove(i);
        self.contents = Ghost(self.contents@.remove(k));
        proof {
            let n = old_records.len() as int;
            assert forall|j: int| 0 <= j < self.records@.len() implies #[trigger] self.records@[j]
                == (if j < i {
                old_records[j]
            } else {
                old_records[j + 1]
            }) by {}
            assert forall|k2: Pair| #[trigger] self.contents@.contains_key(k2) implies exists|
                j: int,
            |
                0 <= j < self.records@.len() && self.records@[j].pair() == k2 by {
                let w = choose|w: int| 0 <= w < old_records.len() && old_records[w].pair() == k2;
                assert(w != i);
                if w < i {
                    assert(self.records@[w] == old_records[w]);
                } else {
                    assert(self.records@[w - 1] == old_records[w]);
                }
            }
            assert forall|a: int, b: int|
                0 <= a < self.records@.len() && 0 <= b < self.records@.len() && a != b
                    implies #[trigger] self.records@[a].pair()
                != #[trigger] self.records@[b].pair() by {
                let a0 = if a < i { a } else { a + 1 };
                let b0 = if b < i { b } else { b + 1 };
                assert(self.records@[a] == old_records[a0]);
                assert(self.records@[b] == old_records[b0]);
                assert(old_records[a0].pair() != old_records[b0].pair());
            }
            assert forall|j: int| 0 <= j < self.records@.len() implies {
                let rec = #[trigger] self.records@[j];
                &&& self.contents@.contains_key(rec.pair())
                &&& slot_valid(self.contents@[rec.pair()])
                &&& rec.response@ == slot_columns(self.contents@[rec.pair()])
            } by {
                let j0 = if j < i { j } else { j + 1 };
                assert(self.records@[j] == old_records[j0]);
                assert(old_records[j0].pair() != old_records[i as int].pair());
            }
        }
        true
    }
}

} // verus!
