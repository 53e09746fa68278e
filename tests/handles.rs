use daos_oid::error::DaosError;
use daos_oid::handle::{fetched_record, opened_handle, txn_none_handle, DaosHandle, DaosObject, DaosPool, DaosTxn};
use daos_oid::keylist::{
    daos_anchor_is_eof, DaosKeyDesc, DaosKeyList, DAOS_ANCHOR_TYPE_EOF, KEY_BUF_SIZE, MAX_KEY_DESCS,
};
use daos_oid::oid::DaosObjectId;

fn listed(keys: &[&str]) -> Box<DaosKeyList> {
    let mut lst = DaosKeyList::new();
    let mut off = 0usize;
    for (i, k) in keys.iter().enumerate() {
        lst.out_buf[off..off + k.len()].copy_from_slice(k.as_bytes());
        lst.key_descs[i] = DaosKeyDesc { kd_key_len: k.len() as u64, kd_val_type: 0 };
        off += k.len();
    }
    lst.ndesc = keys.len() as u32;
    lst
}

#[test]
fn key_list_walks_listed_keys() {
    let lst = listed(&["string1", "very_long_string2"]);
    assert_eq!(lst.get_key_num(), 2);
    let (key, off) = lst.get_key((0, 0)).unwrap();
    assert_eq!(key, "string1".as_bytes());
    assert_eq!(off, (7, 1));
    let (key, off) = lst.get_key(off).unwrap();
    assert_eq!(key, "very_long_string2".as_bytes());
    assert_eq!(off, (24, 2));
    assert_eq!(lst.get_key(off), Err(DaosError::OutOfRange));
}

#[test]
fn key_list_refuses_keys_past_the_buffer() {
    let mut lst = listed(&["abc"]);
    assert_eq!(lst.get_key((KEY_BUF_SIZE as u32 - 2, 0)), Err(DaosError::OutOfRange));
    lst.ndesc = MAX_KEY_DESCS + 5;
    assert_eq!(lst.get_key((0, MAX_KEY_DESCS)), Err(DaosError::OutOfRange));
    assert_eq!(lst.get_key((0, 0)).unwrap().0, "abc".as_bytes());
}

#[test]
fn new_key_list_is_empty_and_open() {
    let mut lst = DaosKeyList::new();
    assert_eq!(lst.get_key_num(), 0);
    assert!(!lst.reach_end());
    assert_eq!(lst.anchor.da_shard, 0);
    assert_eq!(lst.anchor.da_flags, 0);
    assert_eq!(lst.anchor.da_sub_anchors, 0);
    assert!(lst.anchor.da_buf.iter().all(|b| *b == 0));
    assert_eq!(lst.out_buf.len(), KEY_BUF_SIZE);
    assert_eq!(lst.key_descs.len(), MAX_KEY_DESCS as usize);
    assert_eq!(lst.get_key((0, 0)), Err(DaosError::OutOfRange));
    lst.prepare_next_query();
    assert_eq!(lst.get_key_num(), MAX_KEY_DESCS);
}

#[test]
fn listing_stops_at_the_end_anchor() {
    let mut lst = DaosKeyList::new();
    assert!(lst.begin_listing());
    assert_eq!(lst.get_key_num(), MAX_KEY_DESCS);
    lst.anchor.da_type = DAOS_ANCHOR_TYPE_EOF;
    assert!(daos_anchor_is_eof(&lst.anchor));
    assert!(lst.reach_end());
    assert!(!lst.begin_listing());
    assert_eq!(lst.get_key_num(), 0);
}

#[test]
fn pool_connect_and_disconnect() {
    let mut pool = DaosPool::new("pool1");
    assert_eq!(pool.label, "pool1");
    assert_eq!(pool.get_handle(), None);
    assert_eq!(pool.connected(-1006, DaosHandle { cookie: 1 }), Err(DaosError::Native(-1006)));
    assert_eq!(pool.get_handle(), None);
    assert_eq!(pool.connected(0, DaosHandle { cookie: 9 }), Ok(()));
    assert_eq!(pool.get_handle(), Some(DaosHandle { cookie: 9 }));
    assert_eq!(pool.connected(0, DaosHandle { cookie: 10 }), Ok(()));
    assert_eq!(pool.get_handle(), Some(DaosHandle { cookie: 9 }));
    assert_eq!(pool.disconnected(-2), Err(DaosError::Native(-2)));
    assert_eq!(pool.get_handle(), Some(DaosHandle { cookie: 9 }));
    assert_eq!(pool.disconnected(0), Ok(()));
    assert_eq!(pool.get_handle(), None);
}

#[test]
fn object_io_needs_queue_and_handle() {
    let oid = DaosObjectId { lo: 3, hi: 4 };
    let obj = DaosObject::new(oid, DaosHandle { cookie: 5 }, Some(DaosHandle { cookie: 6 }));
    assert_eq!(obj.get_handle(), Some(DaosHandle { cookie: 5 }));
    assert_eq!(obj.get_event_queue(), Some(DaosHandle { cookie: 6 }));
    let t = obj.io_target(&DaosTxn::txn_none()).unwrap();
    assert_eq!(t.object.cookie, 5);
    assert_eq!(t.queue.cookie, 6);
    assert_eq!(t.txn, txn_none_handle());
    let txn = DaosTxn::opened(DaosHandle { cookie: 77 }, Some(DaosHandle { cookie: 6 }));
    assert_eq!(obj.io_target(&txn).unwrap().txn.cookie, 77);
    let no_queue = DaosObject::new(oid, DaosHandle { cookie: 5 }, None);
    assert_eq!(no_queue.io_target(&txn), Err(DaosError::MissingHandle));
    let mut closing = DaosObject::new(oid, DaosHandle { cookie: 5 }, None);
    assert_eq!(closing.closed(-4), Err(DaosError::Native(-4)));
    assert_eq!(closing.closed(0), Ok(()));
    assert_eq!(closing.get_handle(), None);
    assert_eq!(closing.io_target(&txn), Err(DaosError::MissingHandle));
}

#[test]
fn transaction_ops_need_both_handles() {
    let none = DaosTxn::txn_none();
    assert_eq!(none.get_handle(), None);
    assert_eq!(none.op_target(), Err(DaosError::MissingHandle));
    let half = DaosTxn::opened(DaosHandle { cookie: 1 }, None);
    assert_eq!(half.op_target(), Err(DaosError::MissingHandle));
    let txn = DaosTxn::opened(DaosHandle { cookie: 1 }, Some(DaosHandle { cookie: 2 }));
    assert_eq!(txn.get_handle(), Some(DaosHandle { cookie: 1 }));
    assert_eq!(txn.op_target(), Ok((DaosHandle { cookie: 1 }, DaosHandle { cookie: 2 })));
}

#[test]
fn opening_results_map_to_handles() {
    assert_eq!(opened_handle(0, DaosHandle { cookie: 3 }), Ok(DaosHandle { cookie: 3 }));
    assert_eq!(opened_handle(-1003, DaosHandle { cookie: 3 }), Err(DaosError::Native(-1003)));
}

#[test]
fn fetched_record_is_cut_to_its_size() {
    assert_eq!(fetched_record(vec![1, 2, 3, 4], 2), Ok(vec![1, 2]));
    assert_eq!(fetched_record(vec![1, 2, 3, 4], 4), Ok(vec![1, 2, 3, 4]));
    assert_eq!(fetched_record(vec![1, 2], 0), Ok(vec![]));
    assert_eq!(fetched_record(vec![1, 2], 3), Err(DaosError::RecordTooLarge));
}
