//! Byte keys of the stored items and of the ranges that queries read.
use vstd::prelude::*;

verus! {

/// The big-endian bytes of `x`.
pub open spec fn spec_be_bytes(x: u64) -> Seq<u8> {
    seq![
        (x / 0x100000000000000 % 256) as u8,
        (x / 0x1000000000000 % 256) as u8,
        (x / 0x10000000000 % 256) as u8,
        (x / 0x100000000 % 256) as u8,
        (x / 0x1000000 % 256) as u8,
        (x / 0x10000 % 256) as u8,
        (x / 0x100 % 256) as u8,
        (x % 256) as u8,
    ]
}

/// The big-endian bytes of `x`, the key of an item stored under an id.
pub fn u64_to_be_bytes(x: u64) -> (r: Vec<u8>)
    ensures
        r@ == spec_be_bytes(x),
{
    let mut v: Vec<u8> = Vec::new();
    v.push((x / 0x100000000000000 % 256) as u8);
    v.push((x / 0x1000000000000 % 256) as u8);
    v.push((x / 0x10000000000 % 256) as u8);
    v.push((x / 0x100000000 % 256) as u8);
    v.push((x / 0x1000000 % 256) as u8);
    v.push((x / 0x10000 % 256) as u8);
    v.push((x / 0x100 % 256) as u8);
    v.push((x % 256) as u8);
    proof {
        assert(v@ =~= spec_be_bytes(x));
    }
    v
}

/// `namespace` followed by `key`.
pub fn concat(namespace: &[u8], key: &[u8]) -> (r: Vec<u8>)
    ensures
        r@ == namespace@ + key@,
{
    let mut k: Vec<u8> = Vec::new();
    let mut i: usize = 0;
    while i < namespace.len()
        invariant
            i <= namespace@.len(),
            k@ == namespace@.take(i as int),
        decreases namespace@.len() - i,
    {
        k.push(namespace[i]);
        proof {
            assert(namespace@.take(i + 1) =~= namespace@.take(i as int).push(namespace@[i as int]));
        }
        i = i + 1;
    }
    let mut j: usize = 0;
    while j < key.len()
        invariant
            i == namespace@.len(),
            j <= key@.len(),
            k@ == namespace@ + key@.take(j as int),
        decreases key@.len() - j,
    {
        k.push(key[j]);
        proof {
            assert(namespace@ + key@.take(j + 1) =~= (namespace@ + key@.take(j as int)).push(
                key@[j as int],
            ));
        }
        j = j + 1;
    }
    proof {
        assert(namespace@.take(i as int) =~= namespace@);
        assert(key@.take(j as int) =~= key@);
    }
    k
}

/// `cosmwasm_storage::to_length_prefixed`: the two-byte big-endian length
/// of `namespace` followed by `namespace`. It panics when the namespace is
/// 65536 bytes or longer, which is excluded here.
#[verifier::external_body]
fn cw_to_length_prefixed(namespace: &[u8]) -> (r: Vec<u8>)
    requires
        namespace@.len() < 65536,
    ensures
        r@ == seq![(namespace@.len() / 256) as u8, (namespace@.len() % 256) as u8] + namespace@,
{
    cosmwasm_storage::to_length_prefixed(namespace)
}

/// The key under which a cw20 token stores the balance of `account`:
/// the length-prefixed namespace `balance`, then the account.
pub fn cw20_balance_key(account: &[u8]) -> (r: Vec<u8>)
    ensures
        r@ == seq![0u8, 7u8, 98u8, 97u8, 108u8, 97u8, 110u8, 99u8, 101u8] + account@,
{
    let namespace: [u8; 7] = [98u8, 97u8, 108u8, 97u8, 110u8, 99u8, 101u8];
    let prefix = cw_to_length_prefixed(namespace.as_slice());
    let r = concat(prefix.as_slice(), account);
    proof {
        assert(prefix@ =~= seq![0u8, 7u8, 98u8, 97u8, 108u8, 97u8, 110u8, 99u8, 101u8]);
    }
    r
}

/// The first key after `start_after` in a range over ids: its bytes and a
/// trailing `1`. The key of an id lies at or after it exactly when the id
/// comes after `start_after`.
pub fn calc_range_start(start_after: Option<u64>) -> (r: Option<Vec<u8>>)
    ensures
        start_after is None ==> r is None,
        start_after is Some ==> r is Some && r->Some_0@ == spec_be_bytes(start_after->Some_0).push(
            1u8,
        ),
        start_after is Some ==> forall|k: u64|
            !key_lt(#[trigger] spec_be_bytes(k), r->Some_0@) <==> k > start_after->Some_0,
{
    match start_after {
        Some(id) => {
            let mut v = u64_to_be_bytes(id);
            v.push(1u8);
            proof {
                assert forall|k: u64| !key_lt(#[trigger] spec_be_bytes(k), v@) <==> k > id by {
                    law_range_skips_start_after(id, k, Seq::<u8>::empty(), Seq::<u8>::empty());
                }
            }
            Some(v)
        },
        None => None,
    }
}

/// The bound `start_after` of a range over ids, excluded when read backwards:
/// the key of an id lies before it exactly when the id comes before
/// `start_after`.
pub fn calc_range_end(start_after: Option<u64>) -> (r: Option<Vec<u8>>)
    ensures
        start_after is None ==> r is None,
        start_after is Some ==> r is Some && r->Some_0@ == spec_be_bytes(start_after->Some_0),
        start_after is Some ==> forall|k: u64|
            key_lt(#[trigger] spec_be_bytes(k), r->Some_0@) <==> k < start_after->Some_0,
{
    match start_after {
        Some(id) => {
            let v = u64_to_be_bytes(id);
            proof {
                assert forall|k: u64| key_lt(#[trigger] spec_be_bytes(k), v@) <==> k < id by {
                    law_range_skips_start_after(id, k, Seq::<u8>::empty(), Seq::<u8>::empty());
                }
            }
            Some(v)
        },
        None => None,
    }
}

/// The first key after the address `start_after` in a range over addresses.
pub fn calc_range_start_addr(start_after: Option<Vec<u8>>) -> (r: Option<Vec<u8>>)
    ensures
        start_after is None ==> r is None,
        start_after is Some ==> r is Some && r->Some_0@ == start_after->Some_0@.push(1u8),
{
    match start_after {
        Some(addr) => {
            let mut v = addr;
            v.push(1u8);
            Some(v)
        },
        None => None,
    }
}

/// The bound `start_after` of a range over addresses.
pub fn calc_range_end_addr(start_after: Option<Vec<u8>>) -> (r: Option<Vec<u8>>)
    ensures
        start_after is None ==> r is None,
        start_after is Some ==> r is Some && r->Some_0@ == start_after->Some_0@,
{
    start_after
}

/// `a` comes before `b` in the byte order in which stored keys are read.
pub open spec fn key_lt(a: Seq<u8>, b: Seq<u8>) -> bool
    decreases a.len(),
{
    if a.len() == 0 {
        b.len() > 0
    } else if b.len() == 0 {
        false
    } else if a[0] < b[0] {
        true
    } else if a[0] > b[0] {
        false
    } else {
        key_lt(a.drop_first(), b.drop_first())
    }
}

/// `256^n`, the weight of the byte `n` places from the end.
pub open spec fn place(n: nat) -> int
    decreases n,
{
    if n == 0 {
        1
    } else {
        256 * place((n - 1) as nat)
    }
}

/// The number that the bytes of `s` spell in big-endian order.
pub open spec fn be_value(s: Seq<u8>) -> int
    decreases s.len(),
{
    if s.len() == 0 {
        0
    } else {
        s[0] * place((s.len() - 1) as nat) + be_value(s.drop_first())
    }
}

proof fn lemma_place_pos(n: nat)
    ensures
        place(n) >= 1,
    decreases n,
{
    if n > 0 {
        lemma_place_pos((n - 1) as nat);
    }
}

proof fn lemma_be_value_bounds(s: Seq<u8>)
    ensures
        0 <= be_value(s) < place(s.len()),
    decreases s.len(),
{
    if s.len() > 0 {
        let t = s.drop_first();
        lemma_be_value_bounds(t);
        lemma_place_pos(t.len());
        let p = place(t.len());
        let d = s[0] as int;
        assert(0 <= d * p <= 255 * p) by (nonlinear_arith)
            requires
                0 <= d <= 255,
                p >= 1,
        ;
    }
}

/// For keys of one length, the byte order is the order of the numbers they spell.
proof fn lemma_key_lt_value(a: Seq<u8>, b: Seq<u8>)
    requires
        a.len() == b.len(),
    ensures
        key_lt(a, b) <==> be_value(a) < be_value(b),
    decreases a.len(),
{
    if a.len() > 0 {
        let ta = a.drop_first();
        let tb = b.drop_first();
        lemma_key_lt_value(ta, tb);
        lemma_be_value_bounds(ta);
        lemma_be_value_bounds(tb);
        let p = place(ta.len());
        let x = a[0] as int;
        let y = b[0] as int;
        if x < y {
            assert(x * p + p <= y * p) by (nonlinear_arith)
                requires
                    x < y,
                    p >= 1,
            ;
        } else if x > y {
            assert(y * p + p <= x * p) by (nonlinear_arith)
                requires
                    y < x,
                    p >= 1,
            ;
        }
    }
}

/// A key of one length before another of that length with a byte after it
/// is one before the other key, or that key itself.
proof fn lemma_key_lt_push(a: Seq<u8>, b: Seq<u8>, c: u8)
    requires
        a.len() == b.len(),
    ensures
        key_lt(a, b.push(c)) <==> (key_lt(a, b) || a =~= b),
    decreases a.len(),
{
    if a.len() > 0 {
        assert(b.push(c).drop_first() =~= b.drop_first().push(c));
        lemma_key_lt_push(a.drop_first(), b.drop_first(), c);
        if a[0] == b[0] && a.drop_first() =~= b.drop_first() {
            assert forall|i: int| 0 <= i < a.len() implies a[i] == b[i] by {
                if i > 0 {
                    assert(a.drop_first()[i - 1] == b.drop_first()[i - 1]);
                }
            }
            assert(a =~= b);
        }
    }
}

/// Keys of one length with equal values are equal.
proof fn lemma_value_injective(a: Seq<u8>, b: Seq<u8>)
    requires
        a.len() == b.len(),
        be_value(a) == be_value(b),
    ensures
        a =~= b,
    decreases a.len(),
{
    if a.len() > 0 {
        let ta = a.drop_first();
        let tb = b.drop_first();
        lemma_be_value_bounds(ta);
        lemma_be_value_bounds(tb);
        let p = place(ta.len());
        let x = a[0] as int;
        let y = b[0] as int;
        if x < y {
            assert(x * p + p <= y * p) by (nonlinear_arith)
                requires
                    x < y,
                    p >= 1,
            ;
        } else if x > y {
            assert(y * p + p <= x * p) by (nonlinear_arith)
                requires
                    y < x,
                    p >= 1,
            ;
        }
        lemma_value_injective(ta, tb);
        assert forall|i: int| 0 <= i < a.len() implies a[i] == b[i] by {
            if i > 0 {
                assert(ta[i - 1] == tb[i - 1]);
            }
        }
    }
}

/// The big-endian bytes of an id spell the id.
proof fn lemma_be_bytes_value(x: u64)
    ensures
        be_value(spec_be_bytes(x)) == x,
{
    let s = spec_be_bytes(x);
    let t1 = s.drop_first();
    let t2 = t1.drop_first();
    let t3 = t2.drop_first();
    let t4 = t3.drop_first();
    let t5 = t4.drop_first();
    let t6 = t5.drop_first();
    let t7 = t6.drop_first();
    let t8 = t7.drop_first();
    assert(place(0) == 1);
    assert(place(1) == 0x100);
    assert(place(2) == 0x10000);
    assert(place(3) == 0x1000000);
    assert(place(4) == 0x100000000);
    assert(place(5) == 0x10000000000);
    assert(place(6) == 0x1000000000000);
    assert(place(7) == 0x100000000000000);
    assert(t8.len() == 0);
    assert(be_value(t8) == 0);
    assert(be_value(t7) == s[7] as int);
    assert(be_value(t6) == s[6] * 0x100 + s[7]);
    assert(be_value(t5) == s[5] * 0x10000 + s[6] * 0x100 + s[7]);
    assert(be_value(t4) == s[4] * 0x1000000 + s[5] * 0x10000 + s[6] * 0x100 + s[7]);
    assert(be_value(t3) == s[3] * 0x100000000 + s[4] * 0x1000000 + s[5] * 0x10000 + s[6] * 0x100
        + s[7]);
    assert(be_value(t2) == s[2] * 0x10000000000 + s[3] * 0x100000000 + s[4] * 0x1000000 + s[5]
        * 0x10000 + s[6] * 0x100 + s[7]);
    assert(be_value(t1) == s[1] * 0x1000000000000 + s[2] * 0x10000000000 + s[3] * 0x100000000
        + s[4] * 0x1000000 + s[5] * 0x10000 + s[6] * 0x100 + s[7]);
    assert(be_value(s) == s[0] * 0x100000000000000 + s[1] * 0x1000000000000 + s[2]
        * 0x10000000000 + s[3] * 0x100000000 + s[4] * 0x1000000 + s[5] * 0x10000 + s[6] * 0x100
        + s[7]);
    assert(x == (x / 0x100000000000000 % 256) * 0x100000000000000 + (x / 0x1000000000000 % 256)
        * 0x1000000000000 + (x / 0x10000000000 % 256) * 0x10000000000 + (x / 0x100000000 % 256)
        * 0x100000000 + (x / 0x1000000 % 256) * 0x1000000 + (x / 0x10000 % 256) * 0x10000 + (x
        / 0x100 % 256) * 0x100 + x % 256) by (bit_vector);
}

/// What a range read finds around `start_after`. Read in ascending order
/// from `calc_range_start(Some(x))`, which is inclusive, the ids found are
/// exactly those after `x`; read in descending order up to
/// `calc_range_end(Some(x))`, which is exclusive, they are exactly those
/// before `x`. Over addresses of one length, `calc_range_start_addr` keeps
/// exactly the addresses after the given one.
pub proof fn law_range_skips_start_after(x: u64, y: u64, a: Seq<u8>, b: Seq<u8>)
    requires
        a.len() == b.len(),
    ensures
        !key_lt(spec_be_bytes(y), spec_be_bytes(x).push(1u8)) <==> x < y,
        key_lt(spec_be_bytes(y), spec_be_bytes(x)) <==> y < x,
        !key_lt(b, a.push(1u8)) <==> key_lt(a, b),
{
    lemma_be_bytes_value(x);
    lemma_be_bytes_value(y);
    lemma_key_lt_value(spec_be_bytes(y), spec_be_bytes(x));
    lemma_key_lt_push(spec_be_bytes(y), spec_be_bytes(x), 1u8);
    if spec_be_bytes(y) =~= spec_be_bytes(x) {
        assert(be_value(spec_be_bytes(y)) == be_value(spec_be_bytes(x)));
    }
    lemma_key_lt_push(b, a, 1u8);
    lemma_key_lt_value(a, b);
    lemma_key_lt_value(b, a);
    if be_value(a) == be_value(b) {
        lemma_value_injective(a, b);
    }
}

/// The order in which a query reads a range.
#[derive(Clone, Copy, Debug, PartialEq, Eq, Structural)]
pub enum OrderBy {
    Asc,
    Desc,
}

/// The most items a query returns.
pub const MAX_LIMIT: u32 = 30;

/// The items a query returns when it names no limit.
pub const DEFAULT_LIMIT: u32 = 10;

/// The number of items a query returns: the limit asked for, ten when none
/// is, and never more than thirty.
pub fn query_limit(limit: Option<u32>) -> (r: usize)
    ensures
        r == (if limit is Some {
            if limit->Some_0 < MAX_LIMIT {
                limit->Some_0
            } else {
                MAX_LIMIT
            }
        } else {
            DEFAULT_LIMIT
        }),
{
    let l = match limit {
        Some(l) => l,
        None => DEFAULT_LIMIT,
    };
    if l < MAX_LIMIT {
        l as usize
    } else {
        MAX_LIMIT as usize
    }
}

/// The bounds and the direction of a range over ids: ascending from just
/// after `start_after`, or descending from just before it (the default).
pub fn id_range(start_after: Option<u64>, order_by: Option<OrderBy>) -> (r: (
    Option<Vec<u8>>,
    Option<Vec<u8>>,
    OrderBy,
))
    ensures
        order_by == Some(OrderBy::Asc) ==> r.1 is None && r.2 == OrderBy::Asc && (
        start_after is None ==> r.0 is None) && (start_after is Some ==> r.0 is Some
            && r.0->Some_0@ == spec_be_bytes(start_after->Some_0).push(1u8)),
        order_by != Some(OrderBy::Asc) ==> r.0 is None && r.2 == OrderBy::Desc && (
        start_after is None ==> r.1 is None) && (start_after is Some ==> r.1 is Some
            && r.1->Some_0@ == spec_be_bytes(start_after->Some_0)),
{
    match order_by {
        Some(OrderBy::Asc) => (calc_range_start(start_after), None, OrderBy::Asc),
        _ => (None, calc_range_end(start_after), OrderBy::Desc),
    }
}

/// The bounds and the direction of a range over addresses, as `id_range`.
pub fn addr_range(start_after: Option<Vec<u8>>, order_by: Option<OrderBy>) -> (r: (
    Option<Vec<u8>>,
    Option<Vec<u8>>,
    OrderBy,
))
    ensures
        order_by == Some(OrderBy::Asc) ==> r.1 is None && r.2 == OrderBy::Asc && (
        start_after is None ==> r.0 is None) && (start_after is Some ==> r.0 is Some
            && r.0->Some_0@ == start_after->Some_0@.push(1u8)),
        order_by != Some(OrderBy::Asc) ==> r.0 is None && r.2 == OrderBy::Desc && (
        start_after is None ==> r.1 is None) && (start_after is Some ==> r.1 is Some
            && r.1->Some_0@ == start_after->Some_0@),
{
    match order_by {
        Some(OrderBy::Asc) => (calc_range_start_addr(start_after), None, OrderBy::Asc),
        _ => (None, calc_range_end_addr(start_after), OrderBy::Desc),
    }
}

} // verus!
