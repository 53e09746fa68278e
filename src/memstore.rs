use vstd::prelude::*;
use vstd::slice::slice_to_vec;
use crate::claim::{
    begin_claim, batch_of, bootstrap_cursor, claim_step, finishes_with, inserts_cursor, updates_cursor,
    ClaimAction, ClaimState, Ending, Outcome,
};
use crate::codec::{le_value, CURSOR_BYTES};
use crate::error::DaosError;
use crate::oid::{id_of, reserved_bits_clear, DaosObjectId};
use crate::range::{FastPath, OidRange, RangeAllocator, OID_BATCH_CURSOR_START, OID_BATCH_SIZE};

verus! {

/// Code of a read or update-only write of a record that does not exist.
pub const STORE_NOT_FOUND: i32 = -1005;

/// Code of an insert-only write of a record that already exists.
pub const STORE_EXISTS: i32 = -1004;

/// Code of a transactional action without an open transaction.
pub const STORE_NO_TXN: i32 = -1002;

/// Code of a commit whose transaction read a record that has changed since.
pub const STORE_CONFLICT: i32 = -2031;

/// An in-process cursor record with the conditional-write semantics of the
/// storage service: fetch and update-only writes need the record, insert-only
/// writes need its absence, and a commit fails when the record its
/// transaction read has changed since. Every action served is counted.
#[derive(Debug)]
pub struct MemoryCursorStore {
    pub record: Option<Vec<u8>>,
    pub calls: u64,
}

/// One client's transaction against a [`MemoryCursorStore`].
#[derive(Debug)]
pub struct StoreTxn {
    pub open: bool,
    /// The record as the transaction read it.
    pub read: Option<Vec<u8>>,
    /// The update that the commit would apply.
    pub staged: Option<Vec<u8>>,
}

/// Bytes of an optional record.
pub open spec fn opt_view(o: Option<Vec<u8>>) -> Option<Seq<u8>> {
    match o {
        Some(v) => Some(v@),
        None => None,
    }
}

/// The next id value that a record stands for; before any claim it is the
/// starting value.
pub open spec fn cursor_value(rec: Option<Seq<u8>>) -> nat {
    match rec {
        Some(b) => le_value(b),
        None => OID_BATCH_CURSOR_START as nat,
    }
}

/// What a batch claim against an otherwise idle store reports.
pub open spec fn claim_result(rec: Option<Seq<u8>>) -> Result<OidRange, DaosError> {
    match rec {
        None => Ok(batch_of(OID_BATCH_CURSOR_START as int)),
        Some(b) => if b.len() != CURSOR_BYTES {
            Err(DaosError::CorruptCursor)
        } else if !reserved_bits_clear(le_value(b) as int) {
            Err(DaosError::Exhausted)
        } else {
            Ok(batch_of(le_value(b) as int))
        },
    }
}

/// A counter that stops at its largest value.
pub open spec fn bump(n: u64) -> u64 {
    if n == u64::MAX {
        n
    } else {
        (n + 1) as u64
    }
}

/// Whether two byte strings are equal.
fn same_bytes(a: &[u8], b: &[u8]) -> (r: bool)
    ensures
        r == (a@ == b@),
{
    if a.len() != b.len() {
        return false;
    }
    let mut i: usize = 0;
    while i < a.len()
        invariant
            a@.len() == b@.len(),
            i <= a@.len(),
            a@.subrange(0, i as int) == b@.subrange(0, i as int),
        decreases a@.len() - i,
    {
        if a[i] != b[i] {
            assert(a@.subrange(0, i as int + 1)[i as int] != b@.subrange(0, i as int + 1)[i as int]);
            return false;
        }
        assert(a@.subrange(0, i as int + 1) =~= a@.subrange(0, i as int).push(a[i as int]));
        assert(b@.subrange(0, i as int + 1) =~= b@.subrange(0, i as int).push(b[i as int]));
        i = i + 1;
    }
    assert(a@ =~= a@.subrange(0, i as int));
    assert(b@ =~= b@.subrange(0, i as int));
    true
}

impl MemoryCursorStore {
    pub open spec fn rec(&self) -> Option<Seq<u8>> {
        opt_view(self.record)
    }

    /// A store without a cursor record.
    pub fn new() -> (r: MemoryCursorStore)
        ensures
            r.rec() is None,
            r.calls == 0,
    {
        MemoryCursorStore { record: None, calls: 0 }
    }

    /// A store whose cursor record holds `bytes`.
    pub fn with_record(bytes: Vec<u8>) -> (r: MemoryCursorStore)
        ensures
            r.rec() == Some(bytes@),
            r.calls == 0,
    {
        MemoryCursorStore { record: Some(bytes), calls: 0 }
    }

    /// Number of actions served so far.
    pub fn calls(&self) -> (r: u64)
        ensures
            r == self.calls,
    {
        self.calls
    }

    /// A copy of the cursor record, if there is one.
    pub fn record_bytes(&self) -> (r: Option<Vec<u8>>)
        ensures
            opt_view(r) == self.rec(),
    {
        match &self.record {
            Some(v) => Some(slice_to_vec(v.as_slice())),
            None => None,
        }
    }

    /// Whether the record is, byte for byte, the one a transaction read.
    fn unchanged_since(&self, read: &Option<Vec<u8>>) -> (r: bool)
        ensures
            r == (self.rec() == opt_view(*read)),
    {
        match (&self.record, read) {
            (Some(a), Some(b)) => same_bytes(a.as_slice(), b.as_slice()),
            (None, None) => true,
            _ => false,
        }
    }

    /// Serves one storage action of a claim for the client holding `txn`.
    pub fn perform(&mut self, txn: &mut StoreTxn, action: &ClaimAction) -> (r: Outcome)
        ensures
            final(self).calls == bump(old(self).calls),
            // only an insert or a commit writes the record
            !(action is InsertCursor || action is Commit) ==> final(self).rec() == old(self).rec(),
            // opening resets the client's transaction
            action is OpenTxn ==> r is Done && final(txn).open && final(txn).read is None
                && final(txn).staged is None,
            // reading remembers what was read
            action is FetchCursor ==> final(txn).open == old(txn).open && opt_view(final(txn).staged)
                == opt_view(old(txn).staged),
            action is FetchCursor && !old(txn).open ==> r == Outcome::Failed(DaosError::Native(STORE_NO_TXN))
                && opt_view(final(txn).read) == opt_view(old(txn).read),
            action is FetchCursor && old(txn).open && old(self).rec() is None ==> r == Outcome::Failed(
                DaosError::Native(STORE_NOT_FOUND),
            ) && opt_view(final(txn).read) == opt_view(old(txn).read),
            action is FetchCursor && old(txn).open && old(self).rec() is Some ==> r is Data && Some(
                r->Data_0@,
            ) == old(self).rec() && opt_view(final(txn).read) == old(self).rec(),
            // creating the record outside any transaction
            action is InsertCursor ==> final(txn).open == old(txn).open && opt_view(final(txn).read)
                == opt_view(old(txn).read) && opt_view(final(txn).staged) == opt_view(old(txn).staged),
            action is InsertCursor && old(self).rec() is Some ==> r == Outcome::Failed(
                DaosError::Native(STORE_EXISTS),
            ) && final(self).rec() == old(self).rec(),
            action is InsertCursor && old(self).rec() is None ==> r is Done && final(self).rec() == Some(
                action->InsertCursor_0@,
            ),
            // staging an update-only write
            action is UpdateCursor ==> final(txn).open == old(txn).open && opt_view(final(txn).read)
                == opt_view(old(txn).read),
            action is UpdateCursor && !old(txn).open ==> r == Outcome::Failed(DaosError::Native(STORE_NO_TXN)),
            action is UpdateCursor && old(txn).open && old(self).rec() is None ==> r == Outcome::Failed(
                DaosError::Native(STORE_NOT_FOUND),
            ),
            action is UpdateCursor && !(old(txn).open && old(self).rec() is Some) ==> opt_view(
                final(txn).staged,
            ) == opt_view(old(txn).staged),
            action is UpdateCursor && old(txn).open && old(self).rec() is Some ==> r is Done && opt_view(
                final(txn).staged,
            ) == Some(action->UpdateCursor_0@),
            // committing applies the staged write unless the record read has changed
            action is Commit ==> final(txn).open == old(txn).open,
            action is Commit && !old(txn).open ==> r == Outcome::Failed(DaosError::Native(STORE_NO_TXN))
                && final(self).rec() == old(self).rec(),
            action is Commit && old(txn).open && old(txn).staged is Some && old(txn).read is Some
                && old(self).rec() != opt_view(old(txn).read) ==> r == Outcome::Failed(
                DaosError::Native(STORE_CONFLICT),
            ) && final(self).rec() == old(self).rec(),
            action is Commit && old(txn).open && old(txn).staged is Some && (old(txn).read is None
                || old(self).rec() == opt_view(old(txn).read)) ==> r is Done && final(self).rec() == opt_view(
                old(txn).staged,
            ) && final(txn).staged is None,
            action is Commit && old(txn).open && old(txn).staged is None ==> r is Done && final(self).rec()
                == old(self).rec(),
            // aborting and closing drop what the transaction held
            action is Abort ==> final(txn).open == old(txn).open && final(txn).staged is None
                && final(txn).read is None,
            action is Abort && !old(txn).open ==> r == Outcome::Failed(DaosError::Native(STORE_NO_TXN)),
            action is Abort && old(txn).open ==> r is Done,
            action is Close ==> r is Done && !final(txn).open && final(txn).staged is None && final(txn).read is None,
            action is Finish ==> r is Done && final(txn).open == old(txn).open && opt_view(final(txn).staged)
                == opt_view(old(txn).staged) && opt_view(final(txn).read) == opt_view(old(txn).read),
    {
        self.calls = if self.calls == u64::MAX { self.calls } else { self.calls + 1 };
        match action {
            ClaimAction::OpenTxn => {
                txn.open = true;
                txn.read = None;
                txn.staged = None;
                Outcome::Done
            },
            ClaimAction::FetchCursor => {
                if !txn.open {
                    return Outcome::Failed(DaosError::Native(STORE_NO_TXN));
                }
                match &self.record {
                    Some(v) => {
                        txn.read = Some(slice_to_vec(v.as_slice()));
                        Outcome::Data(slice_to_vec(v.as_slice()))
                    },
                    None => Outcome::Failed(DaosError::Native(STORE_NOT_FOUND)),
                }
            },
            ClaimAction::InsertCursor(bytes) => {
                if self.record.is_some() {
                    return Outcome::Failed(DaosError::Native(STORE_EXISTS));
                }
                self.record = Some(slice_to_vec(bytes.as_slice()));
                Outcome::Done
            },
            ClaimAction::UpdateCursor(bytes) => {
                if !txn.open {
                    return Outcome::Failed(DaosError::Native(STORE_NO_TXN));
                }
                if self.record.is_none() {
                    return Outcome::Failed(DaosError::Native(STORE_NOT_FOUND));
                }
                txn.staged = Some(slice_to_vec(bytes.as_slice()));
                Outcome::Done
            },
            ClaimAction::Commit => {
                if !txn.open {
                    return Outcome::Failed(DaosError::Native(STORE_NO_TXN));
                }
                if txn.staged.is_none() {
                    return Outcome::Done;
                }
                if txn.read.is_some() && !self.unchanged_since(&txn.read) {
                    return Outcome::Failed(DaosError::Native(STORE_CONFLICT));
                }
                self.record = txn.staged.take();
                Outcome::Done
            },
            ClaimAction::Abort => {
                txn.staged = None;
                txn.read = None;
                if !txn.open {
                    return Outcome::Failed(DaosError::Native(STORE_NO_TXN));
                }
                Outcome::Done
            },
            ClaimAction::Close => {
                txn.open = false;
                txn.staged = None;
                txn.read = None;
                Outcome::Done
            },
            ClaimAction::Finish(_) => Outcome::Done,
        }
    }
}

impl StoreTxn {
    /// A client that holds no transaction.
    pub fn new() -> (r: StoreTxn)
        ensures
            !r.open,
            r.read is None,
            r.staged is None,
    {
        StoreTxn { open: false, read: None, staged: None }
    }
}

/// What has been settled once a claim decided how it ends, against an
/// otherwise idle store whose record was `orig` when the claim began.
spec fn ending_holds(then: Ending, orig: Option<Seq<u8>>, store: MemoryCursorStore) -> bool {
    match then {
        Ending::Retry => false,
        Ending::Claim(s) => claim_result(orig) == Ok::<OidRange, DaosError>(batch_of(s as int)) && s as nat
            == cursor_value(orig) && store.rec() is Some && store.rec()->0.len() == CURSOR_BYTES && le_value(
            store.rec()->0,
        ) == s + OID_BATCH_SIZE,
        Ending::Fail(e) => claim_result(orig) == Err::<OidRange, DaosError>(e) && store.rec() == orig,
    }
}

/// How far a claim run alone against the store has come, for each state.
spec fn driving(
    state: ClaimState,
    action: ClaimAction,
    txn: StoreTxn,
    store: MemoryCursorStore,
    orig: Option<Seq<u8>>,
) -> bool {
    match state {
        ClaimState::Opening { retry } => !retry && action is OpenTxn && store.rec() == orig,
        ClaimState::Fetching { retry } => !retry && action is FetchCursor && store.rec() == orig && txn.open,
        ClaimState::Inserting => orig is None && store.rec() == orig && inserts_cursor(action, bootstrap_cursor()),
        ClaimState::Updating { start } => orig is Some && store.rec() == orig && claim_result(orig) == Ok::<OidRange, DaosError>(
            batch_of(start as int),
        ) && start as nat == cursor_value(orig) && updates_cursor(action, (start + OID_BATCH_SIZE) as nat)
            && txn.open && opt_view(txn.read) == orig,
        ClaimState::Committing { start } => orig is Some && store.rec() == orig && claim_result(orig) == Ok::<
            OidRange,
            DaosError,
        >(batch_of(start as int)) && start as nat == cursor_value(orig) && action is Commit && txn.open
            && opt_view(txn.read) == orig && txn.staged is Some && txn.staged->0@.len() == CURSOR_BYTES
            && le_value(txn.staged->0@) == start + OID_BATCH_SIZE,
        ClaimState::Aborting { then } => action is Abort && ending_holds(then, orig, store),
        ClaimState::Closing { then } => action is Close && ending_holds(then, orig, store),
        ClaimState::Finished => finishes_with(action, claim_result(orig)) && (claim_result(orig) is Err
            ==> store.rec() == orig) && (claim_result(orig) is Ok ==> store.rec() is Some
            && store.rec()->0.len() == CURSOR_BYTES && le_value(store.rec()->0) == claim_result(orig)->Ok_0.end),
    }
}

/// Runs one whole batch claim against the store, with nothing else using it
/// meanwhile. The claimed batch starts at the cursor's value, and the cursor
/// moves up by exactly one batch; on failure the record is left as it was.
pub fn run_claim(store: &mut MemoryCursorStore) -> (r: Result<OidRange, DaosError>)
    ensures
        r == claim_result(old(store).rec()),
        r is Ok ==> r->Ok_0.start == cursor_value(old(store).rec()) && r->Ok_0.end == r->Ok_0.start
            + OID_BATCH_SIZE && final(store).rec() is Some && final(store).rec()->0.len() == CURSOR_BYTES
            && cursor_value(final(store).rec()) == r->Ok_0.end,
        r is Err ==> final(store).rec() == old(store).rec(),
{
    let ghost orig = store.rec();
    let mut txn = StoreTxn::new();
    let (s0, a0) = begin_claim();
    let mut state = s0;
    let mut action = a0;
    loop
        invariant
            state.wf(),
            driving(state, action, txn, *store, orig),
            orig == old(store).rec(),
        decreases state.rank(),
    {
        if let ClaimAction::Finish(res) = action {
            return res;
        }
        let outcome = store.perform(&mut txn, &action);
        let (s1, a1) = claim_step(state, outcome);
        state = s1;
        action = a1;
    }
}

impl RangeAllocator {
    /// Hands out the next id, claiming a fresh batch from `store` first when
    /// the reservation is used up. While the reservation lasts the store is
    /// not touched at all.
    pub fn allocate_with(&mut self, store: &mut MemoryCursorStore) -> (r: Result<DaosObjectId, DaosError>)
        requires
            old(self).wf(),
        ensures
            final(self).wf(),
            !old(self).range.is_empty_spec() ==> *final(store) == *old(store),
            !old(self).range.is_empty_spec() && reserved_bits_clear(old(self).range.start as int) ==> r
                == Ok::<DaosObjectId, DaosError>(id_of(old(self).range.start)) && final(self).range == (OidRange {
                start: (old(self).range.start + 1) as u128,
                end: old(self).range.end,
            }),
            !old(self).range.is_empty_spec() && !reserved_bits_clear(old(self).range.start as int) ==> r
                == Err::<DaosObjectId, DaosError>(DaosError::Exhausted) && *final(self) == *old(self),
            old(self).range.is_empty_spec() && claim_result(old(store).rec()) is Err ==> r
                == Err::<DaosObjectId, DaosError>(claim_result(old(store).rec())->Err_0) && *final(self)
                == *old(self) && final(store).rec() == old(store).rec(),
            old(self).range.is_empty_spec() && claim_result(old(store).rec()) is Ok ==> ({
                let b = claim_result(old(store).rec())->Ok_0;
                &&& b.start == cursor_value(old(store).rec())
                &&& final(store).rec() is Some && final(store).rec()->0.len() == CURSOR_BYTES
                &&& cursor_value(final(store).rec()) == b.end
                &&& b.end == b.start + OID_BATCH_SIZE
                &&& reserved_bits_clear(b.start as int) ==> r == Ok::<DaosObjectId, DaosError>(id_of(b.start))
                    && final(self).range == (OidRange { start: (b.start + 1) as u128, end: b.end })
                &&& !reserved_bits_clear(b.start as int) ==> r == Err::<DaosObjectId, DaosError>(
                    DaosError::Exhausted,
                ) && final(self).range == b
            }),
    {
        match self.try_fast_path() {
            FastPath::Issued(id) => Ok(id),
            FastPath::Failed(e) => Err(e),
            FastPath::NeedsRefill => {
                match run_claim(store) {
                    Ok(batch) => self.refill_and_take(batch),
                    Err(e) => Err(e),
                }
            },
        }
    }
}

} // verus!
