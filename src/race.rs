use vstd::prelude::*;
use crate::claim::{
    begin_claim, batch_of, bootstrap_cursor, claim_step, inserts_cursor, updates_cursor, ClaimAction,
    ClaimState, Ending,
};
use crate::codec::{le_value, CURSOR_BYTES};
use crate::error::DaosError;
use crate::memstore::{bump, cursor_value, opt_view, MemoryCursorStore, StoreTxn};
use crate::oid::{id_of, lemma_id_of_injective};
use crate::range::{OidRange, OID_BATCH_CURSOR_START, OID_BATCH_SIZE};

verus! {

/// Whether two batches share no value.
pub open spec fn disjoint(a: OidRange, b: OidRange) -> bool {
    a.end <= b.start || b.end <= a.start
}

/// A batch of the claimed size that ends at or below the cursor value `cur`.
pub open spec fn settled(b: OidRange, cur: nat) -> bool {
    b.end == b.start + OID_BATCH_SIZE && b.end <= cur
}

/// Ids drawn from batches that do not overlap are distinct.
pub proof fn lemma_ids_from_disjoint_batches(a: OidRange, b: OidRange, x: u128, y: u128)
    requires
        disjoint(a, b),
        a.contains(x as int),
        b.contains(y as int),
    ensures
        x != y,
        id_of(x) != id_of(y),
{
    lemma_id_of_injective(x, y);
}

/// No id is handed out twice: of the batches that claims reported, in any
/// interleaving of their steps, two ids drawn from them differ unless they are
/// the same value of the same batch.
pub proof fn lemma_reported_ids_unique(race: &ClaimRace, k1: int, k2: int, x: u128, y: u128)
    requires
        race.wf(),
        0 <= k1 < race.issued_view().len(),
        0 <= k2 < race.issued_view().len(),
        race.issued_view()[k1].contains(x as int),
        race.issued_view()[k2].contains(y as int),
        k1 != k2 || x != y,
    ensures
        id_of(x) != id_of(y),
{
    if k1 != k2 {
        assert(disjoint(race.issued@[k1], race.issued@[k2]));
        lemma_ids_from_disjoint_batches(race.issued_view()[k1], race.issued_view()[k2], x, y);
    } else {
        lemma_id_of_injective(x, y);
    }
}

/// One client taking part in claims: where its claim stands, the storage
/// action it waits on, and its transaction.
#[derive(Debug)]
pub struct ClaimClient {
    state: ClaimState,
    action: ClaimAction,
    txn: StoreTxn,
}

/// Several clients claiming batches from one cursor record, whose steps may
/// be interleaved in any order.
#[derive(Debug)]
pub struct ClaimRace {
    store: MemoryCursorStore,
    clients: Vec<ClaimClient>,
    issued: Vec<OidRange>,
}

/// The batch a client owns but has not reported yet.
spec fn pending(c: ClaimClient) -> Option<OidRange> {
    match c.state {
        ClaimState::Aborting { then: Ending::Claim(s) } => Some(batch_of(s as int)),
        ClaimState::Closing { then: Ending::Claim(s) } => Some(batch_of(s as int)),
        ClaimState::Finished => match c.action {
            ClaimAction::Finish(Ok(b)) => Some(b),
            _ => None,
        },
        _ => None,
    }
}

/// The action a client waits on matches its state, and a client about to
/// advance the cursor holds what it read and what it will write.
spec fn client_ok(c: ClaimClient) -> bool {
    &&& c.state.wf()
    &&& match c.state {
        ClaimState::Opening { .. } => c.action is OpenTxn,
        ClaimState::Fetching { .. } => c.action is FetchCursor,
        ClaimState::Inserting => inserts_cursor(c.action, bootstrap_cursor()),
        ClaimState::Updating { start } => updates_cursor(c.action, (start + OID_BATCH_SIZE) as nat) && c.txn.open
            && c.txn.read is Some && c.txn.read->0@.len() == CURSOR_BYTES && le_value(c.txn.read->0@) == start,
        ClaimState::Committing { start } => c.action is Commit && c.txn.open && c.txn.read is Some
            && c.txn.read->0@.len() == CURSOR_BYTES && le_value(c.txn.read->0@) == start && c.txn.staged is Some
            && c.txn.staged->0@.len() == CURSOR_BYTES && le_value(c.txn.staged->0@) == start + OID_BATCH_SIZE,
        ClaimState::Aborting { .. } => c.action is Abort,
        ClaimState::Closing { .. } => c.action is Close,
        ClaimState::Finished => c.action is Finish,
    }
}

impl ClaimRace {
    pub closed spec fn issued_view(&self) -> Seq<OidRange> {
        self.issued@
    }

    pub closed spec fn client_count(&self) -> nat {
        self.clients@.len()
    }

    /// Every batch reported or owned lies below the cursor, and no two overlap.
    pub closed spec fn wf(&self) -> bool {
        let cur = cursor_value(self.store.rec());
        let iss = self.issued@;
        let cl = self.clients@;
        &&& forall|k: int| 0 <= k < iss.len() ==> settled(#[trigger] iss[k], cur)
        &&& forall|k1: int, k2: int|
            0 <= k1 < iss.len() && 0 <= k2 < iss.len() && k1 != k2 ==> disjoint(#[trigger] iss[k1], #[trigger] iss[k2])
        &&& forall|i: int| 0 <= i < cl.len() ==> client_ok(#[trigger] cl[i])
        &&& forall|i: int|
            0 <= i < cl.len() && (#[trigger] pending(cl[i])) is Some ==> settled(pending(cl[i])->0, cur)
        &&& forall|i: int, k: int|
            0 <= i < cl.len() && 0 <= k < iss.len() && (#[trigger] pending(cl[i])) is Some ==> disjoint(
                pending(cl[i])->0,
                #[trigger] iss[k],
            )
        &&& forall|i: int, j: int|
            0 <= i < cl.len() && 0 <= j < cl.len() && i != j && (#[trigger] pending(cl[i])) is Some && (
            #[trigger] pending(cl[j])) is Some ==> disjoint(pending(cl[i])->0, pending(cl[j])->0)
    }

    /// Where client `i`'s claim stands.
    pub closed spec fn client(&self, i: int) -> ClaimState {
        self.clients@[i].state
    }

    /// The result that client `i` is about to report, once its claim is over.
    pub closed spec fn reported(&self, i: int) -> Option<Result<OidRange, DaosError>> {
        match self.clients@[i].action {
            ClaimAction::Finish(res) => Some(res),
            _ => None,
        }
    }

    /// `n` clients, each about to start a claim against `store`.
    pub fn new(store: MemoryCursorStore, n: usize) -> (r: ClaimRace)
        ensures
            r.wf(),
            r.client_count() == n,
            r.issued_view() == Seq::<OidRange>::empty(),
            r.store_view() == store,
            forall|i: int| 0 <= i < n ==> #[trigger] r.client(i) == (ClaimState::Opening { retry: false })
                && r.reported(i) is None,
    {
        let mut clients: Vec<ClaimClient> = Vec::new();
        let mut k: usize = 0;
        while k < n
            invariant
                k <= n,
                clients@.len() == k,
                forall|i: int| 0 <= i < clients@.len() ==> client_ok(#[trigger] clients@[i]),
                forall|i: int| 0 <= i < clients@.len() ==> (#[trigger] pending(clients@[i])) is None,
                forall|i: int| 0 <= i < clients@.len() ==> (#[trigger] clients@[i]).state == (ClaimState::Opening {
                    retry: false,
                }) && !(clients@[i].action is Finish),
            decreases n - k,
        {
            let (s, a) = begin_claim();
            clients.push(ClaimClient { state: s, action: a, txn: StoreTxn::new() });
            k = k + 1;
        }
        ClaimRace { store, clients, issued: Vec::new() }
    }

    /// The cursor record the clients share.
    pub closed spec fn store_view(&self) -> MemoryCursorStore {
        self.store
    }

    /// The cursor record the clients share.
    pub fn store(&self) -> (r: &MemoryCursorStore)
        ensures
            *r == self.store_view(),
    {
        &self.store
    }

    /// Where client `i`'s claim stands.
    pub fn client_state(&self, i: usize) -> (r: Option<ClaimState>)
        ensures
            i >= self.client_count() ==> r is None,
            i < self.client_count() ==> r == Some(self.client(i as int)),
    {
        if i < self.clients.len() {
            Some(self.clients[i].state)
        } else {
            None
        }
    }

    /// The batches that claims have reported so far: no two of them overlap,
    /// whatever order the clients' steps came in.
    pub fn issued(&self) -> (r: &Vec<OidRange>)
        requires
            self.wf(),
        ensures
            r@ == self.issued_view(),
            forall|k: int| 0 <= k < r@.len() ==> (#[trigger] r@[k]).end == r@[k].start + OID_BATCH_SIZE,
            forall|k1: int, k2: int|
                0 <= k1 < r@.len() && 0 <= k2 < r@.len() && k1 != k2 ==> disjoint(#[trigger] r@[k1], #[trigger] r@[k2]),
    {
        &self.issued
    }

    /// Lets client `i` take one step: report its finished claim and start a
    /// new one, or serve the storage action it waits on and advance its claim.
    /// A reported batch overlaps none that was reported before, whatever the
    /// order in which the clients step.
    pub fn step(&mut self, i: usize) -> (r: Option<Result<OidRange, DaosError>>)
        requires
            old(self).wf(),
        ensures
            final(self).wf(),
            final(self).client_count() == old(self).client_count(),
            cursor_value(final(self).store_view().rec()) == cursor_value(old(self).store_view().rec())
                || cursor_value(final(self).store_view().rec()) == cursor_value(old(self).store_view().rec())
                + OID_BATCH_SIZE,
            // a client out of range changes nothing
            i >= old(self).client_count() ==> r is None && *final(self) == *old(self),
            // a finished claim is reported, and the client starts a new one
            i < old(self).client_count() && old(self).reported(i as int) is Some ==> r == old(self).reported(
                i as int,
            ) && final(self).client(i as int) == (ClaimState::Opening { retry: false }) && final(self).reported(
                i as int,
            ) is None && final(self).store_view() == old(self).store_view(),
            // otherwise the store serves the action the client waits on, and its claim moves on
            i < old(self).client_count() && old(self).reported(i as int) is None ==> r is None
                && final(self).client(i as int).rank() < old(self).client(i as int).rank()
                && final(self).store_view().calls == bump(old(self).store_view().calls),
            // the other clients stay where they were
            forall|j: int|
                0 <= j < old(self).client_count() && j != i ==> #[trigger] final(self).client(j) == old(self).client(j)
                    && final(self).reported(j) == old(self).reported(j),
            // the record, once written, is never removed; it is created only by a
            // client whose insert found it absent, and that client owns the first batch
            old(self).store_view().rec() is Some ==> final(self).store_view().rec() is Some,
            old(self).store_view().rec() is None && final(self).store_view().rec() is Some ==> i
                < old(self).client_count() && old(self).client(i as int) == ClaimState::Inserting
                && final(self).client(i as int) == (ClaimState::Aborting {
                then: Ending::Claim(OID_BATCH_CURSOR_START),
            }),
            r is Some && r->0 is Ok ==> final(self).issued_view() == old(self).issued_view().push(r->0->Ok_0)
                && forall|k: int|
                0 <= k < old(self).issued_view().len() ==> disjoint(r->0->Ok_0, #[trigger] old(self).issued_view()[k]),
            !(r is Some && r->0 is Ok) ==> final(self).issued_view() == old(self).issued_view(),
    {
        if i >= self.clients.len() {
            return None;
        }
        let ghost old_cl = self.clients@;
        let ghost old_iss = self.issued@;
        let ghost old_cur = cursor_value(self.store.rec());
        let mut c = self.clients.remove(i);
        proof {
            assert(c == old_cl[i as int]);
            assert(client_ok(c));
        }
        if let ClaimAction::Finish(res) = &c.action {
            let res = *res;
            proof {
                assert(c.state == ClaimState::Finished);
            }
            match res {
                Ok(b) => self.issued.push(b),
                Err(_) => {},
            }
            let (s0, a0) = begin_claim();
            let fresh = ClaimClient { state: s0, action: a0, txn: StoreTxn::new() };
            self.clients.insert(i, fresh);
            proof {
                let cl = self.clients@;
                assert(cl =~= old_cl.update(i as int, fresh));
                assert(pending(fresh) is None);
                if res is Ok {
                    assert(pending(old_cl[i as int]) == Some(res->Ok_0));
                    assert(self.issued@ =~= old_iss.push(res->Ok_0));
                } else {
                    assert(self.issued@ =~= old_iss);
                }
                let iss = self.issued@;
                assert forall|k1: int, k2: int|
                    0 <= k1 < iss.len() && 0 <= k2 < iss.len() && k1 != k2 implies disjoint(
                    #[trigger] iss[k1],
                    #[trigger] iss[k2],
                ) by {
                    if k1 < old_iss.len() && k2 < old_iss.len() {
                        assert(iss[k1] == old_iss[k1] && iss[k2] == old_iss[k2]);
                    } else if k1 < old_iss.len() {
                        assert(iss[k1] == old_iss[k1]);
                        assert(pending(old_cl[i as int]) is Some);
                        assert(disjoint(pending(old_cl[i as int])->0, old_iss[k1]));
                    } else {
                        assert(iss[k2] == old_iss[k2]);
                        assert(pending(old_cl[i as int]) is Some);
                        assert(disjoint(pending(old_cl[i as int])->0, old_iss[k2]));
                    }
                }
                assert forall|j: int, k: int|
                    0 <= j < cl.len() && 0 <= k < iss.len() && (#[trigger] pending(cl[j])) is Some implies disjoint(
                    pending(cl[j])->0,
                    #[trigger] iss[k],
                ) by {
                    assert(j != i);
                    assert(cl[j] == old_cl[j]);
                    if k < old_iss.len() {
                        assert(iss[k] == old_iss[k]);
                    } else {
                        assert(pending(old_cl[i as int]) is Some);
                        assert(pending(old_cl[j]) is Some);
                    }
                }
                assert forall|j: int| 0 <= j < cl.len() implies client_ok(#[trigger] cl[j]) by {
                    if j != i {
                        assert(cl[j] == old_cl[j]);
                    }
                }
                assert forall|j: int|
                    0 <= j < cl.len() && (#[trigger] pending(cl[j])) is Some implies settled(
                    pending(cl[j])->0,
                    cursor_value(self.store.rec()),
                ) by {
                    assert(cl[j] == old_cl[j]);
                }
                assert forall|j1: int, j2: int|
                    0 <= j1 < cl.len() && 0 <= j2 < cl.len() && j1 != j2 && (#[trigger] pending(cl[j1])) is Some && (
                    #[trigger] pending(cl[j2])) is Some implies disjoint(pending(cl[j1])->0, pending(cl[j2])->0) by {
                    assert(cl[j1] == old_cl[j1]);
                    assert(cl[j2] == old_cl[j2]);
                }
            }
            return Some(res);
        }
        let outcome = self.store.perform(&mut c.txn, &c.action);
        let (s1, a1) = claim_step(c.state, outcome);
        c.state = s1;
        c.action = a1;
        let ghost c0 = old_cl[i as int];
        let ghost new_cur = cursor_value(self.store.rec());
        proof {
            assert(client_ok(c));
            assert(new_cur == old_cur || (pending(c0) is None && pending(c) == Some(batch_of(old_cur as int))
                && new_cur == old_cur + OID_BATCH_SIZE));
            assert(new_cur == old_cur ==> (pending(c) is None || pending(c) == pending(c0)));
        }
        self.clients.insert(i, c);
        proof {
            let cl = self.clients@;
            let iss = self.issued@;
            assert(iss == old_iss);
            assert(cl =~= old_cl.update(i as int, c));
            assert(new_cur >= old_cur);
            assert forall|k: int| 0 <= k < iss.len() implies settled(#[trigger] iss[k], new_cur) by {
                assert(settled(old_iss[k], old_cur));
            }
            assert forall|j: int| 0 <= j < cl.len() implies client_ok(#[trigger] cl[j]) by {
                if j != i {
                    assert(cl[j] == old_cl[j]);
                }
            }
            assert forall|j: int|
                0 <= j < cl.len() && (#[trigger] pending(cl[j])) is Some implies settled(pending(cl[j])->0, new_cur) by {
                if j != i {
                    assert(cl[j] == old_cl[j]);
                    assert(settled(pending(old_cl[j])->0, old_cur));
                } else if new_cur == old_cur {
                    assert(pending(c) == pending(c0));
                }
            }
            assert forall|j: int, k: int|
                0 <= j < cl.len() && 0 <= k < iss.len() && (#[trigger] pending(cl[j])) is Some implies disjoint(
                pending(cl[j])->0,
                #[trigger] iss[k],
            ) by {
                if j != i {
                    assert(cl[j] == old_cl[j]);
                } else if new_cur == old_cur {
                    assert(pending(c) == pending(c0));
                } else {
                    assert(settled(old_iss[k], old_cur));
                }
            }
            assert forall|j1: int, j2: int|
                0 <= j1 < cl.len() && 0 <= j2 < cl.len() && j1 != j2 && (#[trigger] pending(cl[j1])) is Some && (
                #[trigger] pending(cl[j2])) is Some implies disjoint(pending(cl[j1])->0, pending(cl[j2])->0) by {
                if j1 != i && j2 != i {
                    assert(cl[j1] == old_cl[j1]);
                    assert(cl[j2] == old_cl[j2]);
                } else if j1 == i {
                    assert(cl[j2] == old_cl[j2]);
                    if new_cur == old_cur {
                        assert(pending(c) == pending(c0));
                    } else {
                        assert(settled(pending(old_cl[j2])->0, old_cur));
                    }
                } else {
                    assert(cl[j1] == old_cl[j1]);
                    if new_cur == old_cur {
                        assert(pending(c) == pending(c0));
                    } else {
                        assert(settled(pending(old_cl[j1])->0, old_cur));
                    }
                }
            }
        }
        None
    }
}

} // verus!
