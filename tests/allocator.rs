use daos_oid::claim::{begin_claim, claim_step, ClaimAction, ClaimState, Outcome};
use daos_oid::codec::{decode_cursor, encode_cursor};
use daos_oid::error::DaosError;
use daos_oid::memstore::{run_claim, MemoryCursorStore, StoreTxn, STORE_CONFLICT};
use daos_oid::oid::{encode_oid, DaosObjectId, OID_SPACE_END};
use daos_oid::range::{FastPath, OidRange, RangeAllocator, OID_BATCH_SIZE};
use std::collections::HashSet;

fn cursor_of(store: &MemoryCursorStore) -> Option<u128> {
    store.record_bytes().and_then(|b| decode_cursor(&b))
}

/// Feeds one outcome to a claim; returns the finished result once there is one.
fn advance(
    store: &mut MemoryCursorStore,
    txn: &mut StoreTxn,
    state: &mut ClaimState,
    action: &mut ClaimAction,
) -> Option<Result<OidRange, DaosError>> {
    if let ClaimAction::Finish(res) = action {
        return Some(*res);
    }
    let outcome = store.perform(txn, action);
    let (s, a) = claim_step(*state, outcome);
    *state = s;
    *action = a;
    None
}

fn finish(store: &mut MemoryCursorStore, txn: &mut StoreTxn, state: &mut ClaimState, action: &mut ClaimAction) -> Result<OidRange, DaosError> {
    loop {
        if let Some(r) = advance(store, txn, state, action) {
            return r;
        }
    }
}

#[test]
fn first_allocation_on_empty_container() {
    let mut store = MemoryCursorStore::new();
    let mut alloc = RangeAllocator::new();
    assert_eq!(alloc.allocate_with(&mut store), Ok(DaosObjectId { hi: 0, lo: 1024 }));
    assert_eq!(cursor_of(&store), Some(2048));
}

#[test]
fn concrete_batch_scenario() {
    let mut store = MemoryCursorStore::new();
    let mut alloc = RangeAllocator::new();
    let first = alloc.allocate_with(&mut store).unwrap();
    assert_eq!(first, DaosObjectId { hi: 0, lo: 1024 });
    let calls_after_claim = store.calls();
    let mut last = first;
    for _ in 1..1024 {
        last = alloc.allocate_with(&mut store).unwrap();
    }
    assert_eq!(last, DaosObjectId { hi: 0, lo: 2047 });
    assert_eq!(store.calls(), calls_after_claim);
    let refill = alloc.allocate_with(&mut store).unwrap();
    assert_eq!(refill, DaosObjectId { hi: 0, lo: 2048 });
    assert_eq!(alloc.range, OidRange { start: 2049, end: 3072 });
    assert_eq!(cursor_of(&store), Some(3072));
}

#[test]
fn fast_path_makes_no_storage_calls() {
    let mut store = MemoryCursorStore::new();
    let mut alloc = RangeAllocator { range: OidRange { start: 10, end: 20 } };
    for i in 10u64..20 {
        assert_eq!(alloc.allocate_with(&mut store), Ok(DaosObjectId { hi: 0, lo: i }));
    }
    assert_eq!(store.calls(), 0);
    assert!(store.record_bytes().is_none());
    assert_eq!(alloc.try_fast_path(), FastPath::NeedsRefill);
}

#[test]
fn cursor_grows_by_one_batch_per_claim() {
    let mut store = MemoryCursorStore::new();
    let mut previous = 1024u128;
    for _ in 0..5 {
        let batch = run_claim(&mut store).unwrap();
        assert_eq!(batch.start, previous);
        assert_eq!(batch.end, batch.start + OID_BATCH_SIZE);
        assert_eq!(cursor_of(&store), Some(batch.end));
        previous = batch.end;
    }
}

#[test]
fn ids_from_many_allocators_are_distinct() {
    let mut store = MemoryCursorStore::new();
    let mut allocators: Vec<RangeAllocator> = (0..4).map(|_| RangeAllocator::new()).collect();
    let mut seen = HashSet::new();
    for round in 0..3000usize {
        let alloc = &mut allocators[round % 4];
        let id = alloc.allocate_with(&mut store).unwrap();
        assert!(seen.insert(id));
    }
    assert_eq!(seen.len(), 3000);
}

#[test]
fn bootstrap_race_converges_to_disjoint_batches() {
    let mut store = MemoryCursorStore::new();
    let (mut ta, mut tb) = (StoreTxn::new(), StoreTxn::new());
    let (mut sa, mut aa) = begin_claim();
    let (mut sb, mut ab) = begin_claim();
    // both open, both find no cursor
    advance(&mut store, &mut ta, &mut sa, &mut aa);
    advance(&mut store, &mut tb, &mut sb, &mut ab);
    advance(&mut store, &mut ta, &mut sa, &mut aa);
    advance(&mut store, &mut tb, &mut sb, &mut ab);
    assert_eq!(sa, ClaimState::Inserting);
    assert_eq!(sb, ClaimState::Inserting);
    // the first insert wins, the second observes the conflict
    advance(&mut store, &mut ta, &mut sa, &mut aa);
    advance(&mut store, &mut tb, &mut sb, &mut ab);
    assert!(matches!(sb, ClaimState::Aborting { .. }));
    let ra = finish(&mut store, &mut ta, &mut sa, &mut aa).unwrap();
    let rb = finish(&mut store, &mut tb, &mut sb, &mut ab).unwrap();
    assert_eq!(ra, OidRange { start: 1024, end: 2048 });
    assert_eq!(rb, OidRange { start: 2048, end: 3072 });
    assert_eq!(cursor_of(&store), Some(3072));
}

#[test]
fn concurrent_commit_loses_and_reports_the_conflict() {
    let mut store = MemoryCursorStore::with_record(encode_cursor(5000));
    let (mut ta, mut tb) = (StoreTxn::new(), StoreTxn::new());
    let (mut sa, mut aa) = begin_claim();
    let (mut sb, mut ab) = begin_claim();
    for _ in 0..3 {
        advance(&mut store, &mut ta, &mut sa, &mut aa);
        advance(&mut store, &mut tb, &mut sb, &mut ab);
    }
    assert_eq!(sa, ClaimState::Committing { start: 5000 });
    assert_eq!(sb, ClaimState::Committing { start: 5000 });
    let ra = finish(&mut store, &mut ta, &mut sa, &mut aa);
    let rb = finish(&mut store, &mut tb, &mut sb, &mut ab);
    assert_eq!(ra, Ok(OidRange { start: 5000, end: 6024 }));
    assert_eq!(rb, Err(DaosError::Native(STORE_CONFLICT)));
    assert_eq!(cursor_of(&store), Some(6024));
}

#[test]
fn exhaustion_just_below_reserved_bits() {
    let mut store = MemoryCursorStore::with_record(encode_cursor(OID_SPACE_END - 1));
    let mut alloc = RangeAllocator::new();
    assert_eq!(
        alloc.allocate_with(&mut store),
        Ok(DaosObjectId { hi: 0xFFFF_FFFF, lo: u64::MAX })
    );
    assert_eq!(alloc.allocate_with(&mut store), Err(DaosError::Exhausted));
    assert_eq!(alloc.allocate_with(&mut store), Err(DaosError::Exhausted));
    let mut other = RangeAllocator::new();
    let before = cursor_of(&store);
    assert_eq!(other.allocate_with(&mut store), Err(DaosError::Exhausted));
    assert_eq!(cursor_of(&store), before);
}

#[test]
fn cursor_at_threshold_is_refused_without_writing() {
    let mut store = MemoryCursorStore::with_record(encode_cursor(OID_SPACE_END));
    assert_eq!(run_claim(&mut store), Err(DaosError::Exhausted));
    assert_eq!(cursor_of(&store), Some(OID_SPACE_END));
}

#[test]
fn malformed_cursor_is_reported() {
    let mut store = MemoryCursorStore::with_record(vec![1, 2, 3, 4, 5, 6, 7, 8]);
    let mut alloc = RangeAllocator::new();
    assert_eq!(alloc.allocate_with(&mut store), Err(DaosError::CorruptCursor));
    assert_eq!(store.record_bytes(), Some(vec![1, 2, 3, 4, 5, 6, 7, 8]));
    assert_eq!(alloc.range, OidRange { start: 0, end: 0 });
}

#[test]
fn native_failures_end_the_claim() {
    let (s, a) = claim_step(ClaimState::Opening { retry: false }, Outcome::Failed(DaosError::Native(-1001)));
    assert_eq!(s, ClaimState::Finished);
    assert!(matches!(a, ClaimAction::Finish(Err(DaosError::Native(-1001)))));
    let (s, a) = claim_step(ClaimState::Updating { start: 7 }, Outcome::Failed(DaosError::Native(-12)));
    assert!(matches!(a, ClaimAction::Abort));
    let (s, a) = claim_step(s, Outcome::Done);
    assert!(matches!(a, ClaimAction::Close));
    let (s, a) = claim_step(s, Outcome::Failed(DaosError::Native(-1)));
    assert_eq!(s, ClaimState::Finished);
    assert!(matches!(a, ClaimAction::Finish(Err(DaosError::Native(-12)))));
}

#[test]
fn second_missing_cursor_is_not_retried() {
    let (s, a) = claim_step(ClaimState::Fetching { retry: true }, Outcome::Failed(DaosError::Native(-1005)));
    assert!(matches!(a, ClaimAction::Abort));
    let (s, _) = claim_step(s, Outcome::Done);
    let (s, a) = claim_step(s, Outcome::Done);
    assert_eq!(s, ClaimState::Finished);
    assert!(matches!(a, ClaimAction::Finish(Err(DaosError::Native(-1005)))));
}

#[test]
fn claim_writes_the_advanced_cursor() {
    let (s, a) = claim_step(ClaimState::Fetching { retry: false }, Outcome::Data(encode_cursor(4096)));
    assert_eq!(s, ClaimState::Updating { start: 4096 });
    match a {
        ClaimAction::UpdateCursor(b) => assert_eq!(decode_cursor(&b), Some(5120)),
        _ => panic!("expected an update"),
    }
    let (s, a) = claim_step(ClaimState::Fetching { retry: false }, Outcome::Failed(DaosError::Native(-1005)));
    assert_eq!(s, ClaimState::Inserting);
    match a {
        ClaimAction::InsertCursor(b) => assert_eq!(decode_cursor(&b), Some(2048)),
        _ => panic!("expected an insert"),
    }
}

#[test]
fn cursor_codec_is_little_endian() {
    let b = encode_cursor(0x0102);
    assert_eq!(b.len(), 16);
    assert_eq!(b[0], 0x02);
    assert_eq!(b[1], 0x01);
    assert!(b[2..].iter().all(|x| *x == 0));
    assert_eq!(b, 0x0102u128.to_le_bytes().to_vec());
    assert_eq!(decode_cursor(&u128::MAX.to_le_bytes()), Some(u128::MAX));
    assert_eq!(decode_cursor(&[0u8; 15]), None);
    assert_eq!(decode_cursor(&[0u8; 17]), None);
    assert_eq!(decode_cursor(&encode_cursor(123456789)), Some(123456789));
}

#[test]
fn ids_split_into_words() {
    assert_eq!(encode_oid((1u128 << 64) + 5), Ok(DaosObjectId { hi: 1, lo: 5 }));
    assert_eq!(encode_oid(0), Ok(DaosObjectId { hi: 0, lo: 0 }));
    assert_eq!(encode_oid(OID_SPACE_END), Err(DaosError::Exhausted));
    assert_eq!(encode_oid(u128::MAX), Err(DaosError::Exhausted));
}

#[test]
fn refill_serves_the_first_id_of_the_batch() {
    let mut alloc = RangeAllocator::new();
    assert_eq!(alloc.refill_and_take(OidRange::batch(4096)), Ok(DaosObjectId { hi: 0, lo: 4096 }));
    assert_eq!(alloc.range, OidRange { start: 4097, end: 5120 });
    let mut alloc = RangeAllocator::new();
    let b = OidRange::batch(OID_SPACE_END);
    assert_eq!(alloc.refill_and_take(b), Err(DaosError::Exhausted));
    assert!(OidRange::empty().is_empty());
}
