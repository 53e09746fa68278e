use vstd::prelude::*;
use crate::codec::{decode_cursor, encode_cursor, le_value, CURSOR_BYTES};
use crate::error::DaosError;
use crate::oid::{reserved_bits_clear, OID_SPACE_END};
use crate::range::{OidRange, OID_BATCH_CURSOR_START, OID_BATCH_SIZE};

verus! {

/// Distribution key of the cursor record.
pub const OID_BATCH_CURSOR_KEY: &'static str = "OID_BATCH_CURSOR";

/// Attribute key of the cursor record (a single zero byte).
pub const OID_BATCH_CURSOR_AKEY: u8 = 0;

/// Largest number of bytes read back when fetching the cursor record.
pub const OID_CURSOR_FETCH_MAX: u32 = 32;

/// What a claim does once its open transaction has been released.
#[derive(Clone, Copy, Debug, PartialEq, Eq, Structural)]
pub enum Ending {
    /// Report the batch that starts at the given value.
    Claim(u128),
    /// Start over with a fresh transaction, reading a cursor that now exists.
    Retry,
    /// Report the failure.
    Fail(DaosError),
}

/// Where a batch claim stands: each state waits for the outcome of one storage action.
#[derive(Clone, Copy, Debug, PartialEq, Eq, Structural)]
pub enum ClaimState {
    /// Waiting for a transaction to open; `retry` is set on the second attempt.
    Opening { retry: bool },
    /// Waiting for the cursor record, read inside the transaction.
    Fetching { retry: bool },
    /// Waiting for the insert-only write that creates the cursor (outside the transaction).
    Inserting,
    /// Waiting for the update-only write of the advanced cursor, inside the transaction.
    Updating { start: u128 },
    /// Waiting for the commit of the transaction that advances the cursor past `start`.
    Committing { start: u128 },
    /// Waiting for the open transaction to be aborted.
    Aborting { then: Ending },
    /// Waiting for the transaction handle to be closed.
    Closing { then: Ending },
    /// The claim has reported its result.
    Finished,
}

/// The outcome of the storage action that a claim asked for.
#[derive(Debug)]
pub enum Outcome {
    /// The action succeeded and brought no data.
    Done,
    /// A fetch succeeded with the given record.
    Data(Vec<u8>),
    /// The action failed.
    Failed(DaosError),
}

/// The next storage action of a claim, or its result.
#[derive(Debug)]
pub enum ClaimAction {
    /// Open a transaction on the container.
    OpenTxn,
    /// Read the cursor record inside the transaction, requiring that it exists.
    FetchCursor,
    /// Create the cursor record with these bytes, requiring that it does not exist,
    /// as a write of its own outside the transaction.
    InsertCursor(Vec<u8>),
    /// Overwrite the cursor record with these bytes inside the transaction,
    /// requiring that it exists.
    UpdateCursor(Vec<u8>),
    /// Commit the transaction.
    Commit,
    /// Abort the transaction.
    Abort,
    /// Close the transaction handle.
    Close,
    /// The claim is over, with this result.
    Finish(Result<OidRange, DaosError>),
}

impl Ending {
    pub open spec fn wf(&self) -> bool {
        match *self {
            Ending::Claim(s) => s < OID_SPACE_END,
            _ => true,
        }
    }
}

impl ClaimState {
    /// Any start value that a state carries has its reserved bits clear, so the
    /// batch after it fits in 128 bits.
    pub open spec fn wf(&self) -> bool {
        match *self {
            ClaimState::Updating { start } => start < OID_SPACE_END,
            ClaimState::Committing { start } => start < OID_SPACE_END,
            ClaimState::Aborting { then } => then.wf(),
            ClaimState::Closing { then } => then.wf(),
            _ => true,
        }
    }

    /// Strictly decreases at every step, so a claim finishes after a bounded
    /// number of actions.
    pub open spec fn rank(&self) -> nat {
        match *self {
            ClaimState::Finished => 0,
            ClaimState::Closing { then } => if then is Retry { 7 } else { 1 },
            ClaimState::Aborting { then } => if then is Retry { 8 } else { 2 },
            ClaimState::Committing { .. } => 3,
            ClaimState::Updating { .. } => 4,
            ClaimState::Fetching { retry } => if retry { 5 } else { 10 },
            ClaimState::Opening { retry } => if retry { 6 } else { 11 },
            ClaimState::Inserting => 9,
        }
    }
}

/// The batch `[start, start + OID_BATCH_SIZE)` as a spec value.
pub open spec fn batch_of(start: int) -> OidRange {
    OidRange { start: start as u128, end: (start + OID_BATCH_SIZE) as u128 }
}

/// The value a claim writes when it creates the cursor.
pub open spec fn bootstrap_cursor() -> nat {
    (OID_BATCH_CURSOR_START + OID_BATCH_SIZE) as nat
}

/// The action reports `res` as the claim's result.
pub open spec fn finishes_with(a: ClaimAction, res: Result<OidRange, DaosError>) -> bool {
    a matches ClaimAction::Finish(x) && x == res
}

/// The action creates the cursor record with the encoding of `v`.
pub open spec fn inserts_cursor(a: ClaimAction, v: nat) -> bool {
    a matches ClaimAction::InsertCursor(b) && b@.len() == CURSOR_BYTES && le_value(b@) == v
}

/// The action overwrites the cursor record with the encoding of `v`.
pub open spec fn updates_cursor(a: ClaimAction, v: nat) -> bool {
    a matches ClaimAction::UpdateCursor(b) && b@.len() == CURSOR_BYTES && le_value(b@) == v
}

/// The first step of a batch claim: open a transaction.
pub fn begin_claim() -> (r: (ClaimState, ClaimAction))
    ensures
        r.0 == (ClaimState::Opening { retry: false }),
        r.1 is OpenTxn,
{
    (ClaimState::Opening { retry: false }, ClaimAction::OpenTxn)
}

/// Carries out what a claim decided to do once its transaction is released.
fn resolve(then: Ending) -> (r: (ClaimState, ClaimAction))
    requires
        then.wf(),
    ensures
        r.0.wf(),
        then matches Ending::Claim(s) ==> r.0 == ClaimState::Finished && finishes_with(
            r.1,
            Ok(batch_of(s as int)),
        ),
        then is Retry ==> r.0 == (ClaimState::Opening { retry: true }) && r.1 is OpenTxn,
        then matches Ending::Fail(e) ==> r.0 == ClaimState::Finished && finishes_with(r.1, Err(e)),
{
    match then {
        Ending::Claim(s) => (ClaimState::Finished, ClaimAction::Finish(Ok(OidRange::batch(s)))),
        Ending::Retry => (ClaimState::Opening { retry: true }, ClaimAction::OpenTxn),
        Ending::Fail(e) => (ClaimState::Finished, ClaimAction::Finish(Err(e))),
    }
}

/// Decides what a read cursor record leads to: advance it, or give up on a
/// record that is malformed or whose value has reserved bits set.
fn after_fetch(record: &[u8]) -> (r: (ClaimState, ClaimAction))
    ensures
        r.0.wf(),
        record@.len() != CURSOR_BYTES ==> r.0 == (ClaimState::Aborting {
            then: Ending::Fail(DaosError::CorruptCursor),
        }) && r.1 is Abort,
        record@.len() == CURSOR_BYTES && !reserved_bits_clear(le_value(record@) as int) ==> r.0
            == (ClaimState::Aborting { then: Ending::Fail(DaosError::Exhausted) }) && r.1 is Abort,
        record@.len() == CURSOR_BYTES && reserved_bits_clear(le_value(record@) as int) ==> r.0
            == (ClaimState::Updating { start: le_value(record@) as u128 }) && updates_cursor(
            r.1,
            (le_value(record@) + OID_BATCH_SIZE) as nat,
        ),
{
    match decode_cursor(record) {
        None => (ClaimState::Aborting { then: Ending::Fail(DaosError::CorruptCursor) }, ClaimAction::Abort),
        Some(c) => {
            if c >= OID_SPACE_END {
                (ClaimState::Aborting { then: Ending::Fail(DaosError::Exhausted) }, ClaimAction::Abort)
            } else {
                let next = encode_cursor(c + OID_BATCH_SIZE);
                (ClaimState::Updating { start: c }, ClaimAction::UpdateCursor(next))
            }
        },
    }
}

/// One step of a batch claim: from the state and the outcome of the action it
/// asked for, the next state and the next action.
pub fn claim_step(state: ClaimState, outcome: Outcome) -> (r: (ClaimState, ClaimAction))
    requires
        state.wf(),
        state != ClaimState::Finished,
    ensures
        r.0.wf(),
        r.0.rank() < state.rank(),
        // opening a transaction
        outcome matches Outcome::Failed(c) ==> (state is Opening ==> r.0 == ClaimState::Finished
            && finishes_with(r.1, Err(c))),
        state matches ClaimState::Opening { retry } ==> (!(outcome is Failed) ==> r.0 == (ClaimState::Fetching {
            retry,
        }) && r.1 is FetchCursor),
        // reading the cursor: a missing record is created once, then read again once
        state == (ClaimState::Fetching { retry: false }) && outcome is Failed ==> r.0 == ClaimState::Inserting
            && inserts_cursor(r.1, bootstrap_cursor()),
        outcome matches Outcome::Failed(c) ==> (state == (ClaimState::Fetching { retry: true }) ==> r.0
            == (ClaimState::Aborting { then: Ending::Fail(c) }) && r.1 is Abort),
        state is Fetching && outcome is Done ==> r.0 == (ClaimState::Aborting {
            then: Ending::Fail(DaosError::CorruptCursor),
        }) && r.1 is Abort,
        outcome matches Outcome::Data(d) ==> (state is Fetching && d@.len() != CURSOR_BYTES ==> r.0
            == (ClaimState::Aborting { then: Ending::Fail(DaosError::CorruptCursor) }) && r.1 is Abort),
        outcome matches Outcome::Data(d) ==> (state is Fetching && d@.len() == CURSOR_BYTES
            && !reserved_bits_clear(le_value(d@) as int) ==> r.0 == (ClaimState::Aborting {
            then: Ending::Fail(DaosError::Exhausted),
        }) && r.1 is Abort),
        outcome matches Outcome::Data(d) ==> (state is Fetching && d@.len() == CURSOR_BYTES && reserved_bits_clear(
            le_value(d@) as int,
        ) ==> r.0 == (ClaimState::Updating { start: le_value(d@) as u128 }) && updates_cursor(
            r.1,
            (le_value(d@) + OID_BATCH_SIZE) as nat,
        )),
        // creating the cursor: the winner owns the first batch, the loser reads again
        state is Inserting && outcome is Failed ==> r.0 == (ClaimState::Aborting { then: Ending::Retry })
            && r.1 is Abort,
        state is Inserting && !(outcome is Failed) ==> r.0 == (ClaimState::Aborting {
            then: Ending::Claim(OID_BATCH_CURSOR_START),
        }) && r.1 is Abort,
        // advancing and committing
        state matches ClaimState::Updating { start } ==> (!(outcome is Failed) ==> r.0
            == (ClaimState::Committing { start }) && r.1 is Commit),
        outcome matches Outcome::Failed(c) ==> (state is Updating ==> r.0 == (ClaimState::Aborting {
            then: Ending::Fail(c),
        }) && r.1 is Abort),
        state matches ClaimState::Committing { start } ==> (!(outcome is Failed) ==> r.0 == (ClaimState::Closing {
            then: Ending::Claim(start),
        }) && r.1 is Close),
        outcome matches Outcome::Failed(c) ==> (state is Committing ==> r.0 == (ClaimState::Aborting {
            then: Ending::Fail(c),
        }) && r.1 is Abort),
        // releasing the transaction, whatever the outcome
        state matches ClaimState::Aborting { then } ==> r.0 == (ClaimState::Closing { then }) && r.1 is Close,
        state matches ClaimState::Closing { then } ==> (then matches Ending::Claim(s) ==> r.0
            == ClaimState::Finished && finishes_with(r.1, Ok(batch_of(s as int)))),
        state == (ClaimState::Closing { then: Ending::Retry }) ==> r.0 == (ClaimState::Opening { retry: true })
            && r.1 is OpenTxn,
        state matches ClaimState::Closing { then } ==> (then matches Ending::Fail(e) ==> r.0
            == ClaimState::Finished && finishes_with(r.1, Err(e))),
{
    match state {
        ClaimState::Opening { retry } => match outcome {
            Outcome::Failed(c) => (ClaimState::Finished, ClaimAction::Finish(Err(c))),
            _ => (ClaimState::Fetching { retry }, ClaimAction::FetchCursor),
        },
        ClaimState::Fetching { retry } => match outcome {
            Outcome::Failed(c) => {
                if retry {
                    (ClaimState::Aborting { then: Ending::Fail(c) }, ClaimAction::Abort)
                } else {
                    let initial = encode_cursor(OID_BATCH_CURSOR_START + OID_BATCH_SIZE);
                    (ClaimState::Inserting, ClaimAction::InsertCursor(initial))
                }
            },
            Outcome::Done => (
                ClaimState::Aborting { then: Ending::Fail(DaosError::CorruptCursor) },
                ClaimAction::Abort,
            ),
            Outcome::Data(d) => after_fetch(d.as_slice()),
        },
        ClaimState::Inserting => match outcome {
            Outcome::Failed(_) => (ClaimState::Aborting { then: Ending::Retry }, ClaimAction::Abort),
            _ => (
                ClaimState::Aborting { then: Ending::Claim(OID_BATCH_CURSOR_START) },
                ClaimAction::Abort,
            ),
        },
        ClaimState::Updating { start } => match outcome {
            Outcome::Failed(c) => (ClaimState::Aborting { then: Ending::Fail(c) }, ClaimAction::Abort),
            _ => (ClaimState::Committing { start }, ClaimAction::Commit),
        },
        ClaimState::Committing { start } => match outcome {
            Outcome::Failed(c) => (ClaimState::Aborting { then: Ending::Fail(c) }, ClaimAction::Abort),
            _ => (ClaimState::Closing { then: Ending::Claim(start) }, ClaimAction::Close),
        },
        ClaimState::Aborting { then } => (ClaimState::Closing { then }, ClaimAction::Close),
        ClaimState::Closing { then } => resolve(then),
        ClaimState::Finished => unreached(),
    }
}

} // verus!
