use valkyrie_contracts::bytes::{addr_eq, copy_addr};
use valkyrie_contracts::keys::{
    addr_range, calc_range_end, calc_range_end_addr, calc_range_start, calc_range_start_addr,
    cw20_balance_key, id_range, query_limit, u64_to_be_bytes, OrderBy, DEFAULT_LIMIT,
    MAX_LIMIT,
};

#[test]
fn be_bytes_of_ids() {
    assert_eq!(u64_to_be_bytes(0), vec![0, 0, 0, 0, 0, 0, 0, 0]);
    assert_eq!(u64_to_be_bytes(258), vec![0, 0, 0, 0, 0, 0, 1, 2]);
    assert_eq!(u64_to_be_bytes(u64::MAX), vec![255; 8]);
    assert_eq!(u64_to_be_bytes(0x0102030405060708), 0x0102030405060708u64.to_be_bytes().to_vec());
}

#[test]
fn concat_joins_namespace_and_key() {
    assert_eq!(valkyrie_contracts::keys::concat(b"ns", b"key"), b"nskey".to_vec());
    assert_eq!(valkyrie_contracts::keys::concat(b"", b"key"), b"key".to_vec());
    assert_eq!(valkyrie_contracts::keys::concat(b"ns", b""), b"ns".to_vec());
}

#[test]
fn cw20_balance_key_is_length_prefixed() {
    let key = cw20_balance_key(b"addr");
    assert_eq!(key, vec![0, 7, b'b', b'a', b'l', b'a', b'n', b'c', b'e', b'a', b'd', b'd', b'r']);
}

#[test]
fn id_range_bounds() {
    assert_eq!(calc_range_start(None), None);
    assert_eq!(calc_range_start(Some(3)), Some(vec![0, 0, 0, 0, 0, 0, 0, 3, 1]));
    assert_eq!(calc_range_end(None), None);
    assert_eq!(calc_range_end(Some(3)), Some(vec![0, 0, 0, 0, 0, 0, 0, 3]));

    // The start key lies strictly between the key of `start_after` and the next id.
    let start = calc_range_start(Some(3)).unwrap();
    assert!(u64_to_be_bytes(3) < start);
    assert!(start < u64_to_be_bytes(4));

    let (s, e, o) = id_range(Some(3), Some(OrderBy::Asc));
    assert_eq!((s, e, o), (Some(vec![0, 0, 0, 0, 0, 0, 0, 3, 1]), None, OrderBy::Asc));
    let (s, e, o) = id_range(Some(3), None);
    assert_eq!((s, e, o), (None, Some(vec![0, 0, 0, 0, 0, 0, 0, 3]), OrderBy::Desc));
}

#[test]
fn addr_range_bounds() {
    assert_eq!(calc_range_start_addr(Some(b"abc".to_vec())), Some(b"abc\x01".to_vec()));
    assert_eq!(calc_range_end_addr(Some(b"abc".to_vec())), Some(b"abc".to_vec()));
    assert_eq!(calc_range_start_addr(None), None);
    let (s, e, o) = addr_range(Some(b"abc".to_vec()), Some(OrderBy::Desc));
    assert_eq!((s, e, o), (None, Some(b"abc".to_vec()), OrderBy::Desc));
}

#[test]
fn limits() {
    assert_eq!(query_limit(None), DEFAULT_LIMIT as usize);
    assert_eq!(query_limit(Some(5)), 5);
    assert_eq!(query_limit(Some(1000)), MAX_LIMIT as usize);
}

#[test]
fn canonical_addresses() {
    assert!(addr_eq(&b"a".to_vec(), &b"a".to_vec()));
    assert!(!addr_eq(&b"a".to_vec(), &b"b".to_vec()));
    assert_eq!(copy_addr(&b"xyz".to_vec()), b"xyz".to_vec());
}
