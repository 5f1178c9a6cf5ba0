//! The diff engine: set-based comparison of two answer sections.
//!
//! Each record is reduced to a comparison key of owner name (folded to
//! lower case), class, type and data — the TTL is deliberately left
//! out, so TTL-only differences do not count.  The two sides are
//! compared as sets of keys; every key is classified as unchanged,
//! removed or added, and the classified rows come out sorted by the
//! key's natural order, interleaved rather than grouped by action.

use vstd::prelude::*;

use crate::records::{
    copy_bytes, lower_u8, record_views, answer_records, parse_answer, RecordRepr, RecordView,
};

verus! {

//------------ Actions and keys ----------------------------------------------

/// The classification of one diff row.
#[derive(Clone, Copy, Debug, PartialEq, Eq, Structural)]
pub enum Action {
    Added,
    Removed,
    Unchanged,
}

/// The comparison key of a record: owner name folded to lower case,
/// class, type and data.  No TTL.
#[derive(Clone, Debug)]
pub struct RecordKey {
    pub owner: Vec<u8>,
    pub class: u16,
    pub rtype: u16,
    pub data: Vec<u8>,
}

/// The mathematical value of a [`RecordKey`].
#[verifier::ext_equal]
pub struct KeyView {
    pub owner: Seq<u8>,
    pub class: u16,
    pub rtype: u16,
    pub data: Seq<u8>,
}

impl View for RecordKey {
    type V = KeyView;

    open spec fn view(&self) -> KeyView {
        KeyView { owner: self.owner@, class: self.class, rtype: self.rtype, data: self.data@ }
    }
}

/// A byte sequence folded to lower case.
pub open spec fn lower_seq(s: Seq<u8>) -> Seq<u8> {
    s.map_values(|b: u8| lower_u8(b))
}

/// The comparison key of a record.
pub open spec fn key_of(r: RecordView) -> KeyView {
    KeyView { owner: lower_seq(r.owner), class: r.class, rtype: r.rtype, data: r.data }
}

/// The set of comparison keys of an answer section.
pub open spec fn key_set(rs: Seq<RecordView>) -> Set<KeyView> {
    rs.map_values(|r: RecordView| key_of(r)).to_set()
}

proof fn lemma_key_set_contains(rs: Seq<RecordView>, k: KeyView)
    ensures
        key_set(rs).contains(k) <==> exists|i: int| 0 <= i < rs.len() && key_of(rs[i]) == k,
{
    let mapped = rs.map_values(|r: RecordView| key_of(r));
    if key_set(rs).contains(k) {
        let i = choose|i: int| 0 <= i < mapped.len() && mapped[i] == k;
        assert(key_of(rs[i]) == k);
    }
    if exists|i: int| 0 <= i < rs.len() && key_of(rs[i]) == k {
        let i = choose|i: int| 0 <= i < rs.len() && key_of(rs[i]) == k;
        assert(mapped[i] == k);
        assert(mapped.contains(k));
    }
}

//------------ The order on keys ---------------------------------------------

/// Lexicographic order on byte sequences; a prefix comes first.
pub open spec fn bytes_le(a: Seq<u8>, b: Seq<u8>) -> bool
    decreases a.len(),
{
    if a.len() == 0 {
        true
    } else if b.len() == 0 {
        false
    } else if a[0] < b[0] {
        true
    } else if a[0] > b[0] {
        false
    } else {
        bytes_le(a.drop_first(), b.drop_first())
    }
}

/// The keys' natural order: owner first, then class, then type, then
/// data.
pub open spec fn key_le(a: KeyView, b: KeyView) -> bool {
    if a.owner != b.owner {
        bytes_le(a.owner, b.owner)
    } else if a.class != b.class {
        a.class < b.class
    } else if a.rtype != b.rtype {
        a.rtype < b.rtype
    } else {
        bytes_le(a.data, b.data)
    }
}

pub open spec fn key_lt(a: KeyView, b: KeyView) -> bool {
    key_le(a, b) && a != b
}

proof fn lemma_bytes_le_total(a: Seq<u8>, b: Seq<u8>)
    ensures
        bytes_le(a, b) || bytes_le(b, a),
    decreases a.len(),
{
    if a.len() > 0 && b.len() > 0 && a[0] == b[0] {
        lemma_bytes_le_total(a.drop_first(), b.drop_first());
    }
}

proof fn lemma_bytes_le_antisym(a: Seq<u8>, b: Seq<u8>)
    requires
        bytes_le(a, b),
        bytes_le(b, a),
    ensures
        a == b,
    decreases a.len(),
{
    if a.len() == 0 {
        assert(b.len() == 0);
        assert(a =~= b);
    } else {
        assert(b.len() > 0);
        assert(a[0] == b[0]);
        lemma_bytes_le_antisym(a.drop_first(), b.drop_first());
        assert(a.drop_first() == b.drop_first());
        assert(a.drop_first().len() == a.len() - 1);
        assert(b.drop_first().len() == b.len() - 1);
        assert(a.len() == b.len());
        assert forall|i: int| 0 <= i < a.len() implies a[i] == b[i] by {
            if i >= 1 {
                assert(a[i] == a.drop_first()[i - 1]);
                assert(b[i] == b.drop_first()[i - 1]);
            }
        }
        assert(a =~= b);
    }
}

proof fn lemma_bytes_le_trans(a: Seq<u8>, b: Seq<u8>, c: Seq<u8>)
    requires
        bytes_le(a, b),
        bytes_le(b, c),
    ensures
        bytes_le(a, c),
    decreases a.len(),
{
    if a.len() == 0 {
    } else {
        assert(b.len() > 0);
        assert(c.len() > 0);
        if a[0] == b[0] && b[0] == c[0] {
            lemma_bytes_le_trans(a.drop_first(), b.drop_first(), c.drop_first());
        }
    }
}

proof fn lemma_key_le_total(a: KeyView, b: KeyView)
    ensures
        key_le(a, b) || key_le(b, a),
{
    lemma_bytes_le_total(a.owner, b.owner);
    lemma_bytes_le_total(a.data, b.data);
}

proof fn lemma_key_le_antisym(a: KeyView, b: KeyView)
    requires
        key_le(a, b),
        key_le(b, a),
    ensures
        a == b,
{
    if a.owner != b.owner {
        lemma_bytes_le_antisym(a.owner, b.owner);
    } else {
        lemma_bytes_le_antisym(a.data, b.data);
        assert(a =~= b);
    }
}

proof fn lemma_key_le_trans(a: KeyView, b: KeyView, c: KeyView)
    requires
        key_le(a, b),
        key_le(b, c),
    ensures
        key_le(a, c),
{
    if a.owner != b.owner && b.owner != c.owner {
        lemma_bytes_le_trans(a.owner, b.owner, c.owner);
        if a.owner == c.owner {
            lemma_bytes_le_antisym(a.owner, b.owner);
        }
    } else if a.owner == b.owner && b.owner == c.owner {
        if a.class == b.class && b.class == c.class && a.rtype == b.rtype && b.rtype == c.rtype {
            lemma_bytes_le_trans(a.data, b.data, c.data);
        }
    }
}

proof fn lemma_key_lt_trans(a: KeyView, b: KeyView, c: KeyView)
    requires
        key_lt(a, b),
        key_lt(b, c),
    ensures
        key_lt(a, c),
{
    lemma_key_le_trans(a, b, c);
    if a == c {
        lemma_key_le_antisym(a, b);
    }
}

//------------ Executable comparisons ----------------------------------------

/// Folds a byte vector to lower case.
fn lower_bytes(v: &Vec<u8>) -> (r: Vec<u8>)
    ensures
        r@ == lower_seq(v@),
{
    let mut r: Vec<u8> = Vec::new();
    let mut i: usize = 0;
    while i < v.len()
        invariant
            0 <= i <= v@.len(),
            r@ =~= v@.take(i as int).map_values(|b: u8| lower_u8(b)),
        decreases v@.len() - i,
    {
        let b = v[i];
        if 65 <= b && b <= 90 {
            r.push(b + 32);
        } else {
            r.push(b);
        }
        i = i + 1;
        proof {
            assert(v@.take(i as int).drop_last() =~= v@.take(i - 1));
            assert(r@ =~= v@.take(i as int).map_values(|b: u8| lower_u8(b)));
        }
    }
    proof {
        assert(v@.take(v@.len() as int) =~= v@);
    }
    r
}

/// Compares two byte vectors for equality.
fn bytes_eq(a: &Vec<u8>, b: &Vec<u8>) -> (r: bool)
    ensures
        r == (a@ == b@),
{
    if a.len() != b.len() {
        return false;
    }
    let mut i: usize = 0;
    while i < a.len()
        invariant
            0 <= i <= a@.len(),
            a@.len() == b@.len(),
            forall|j: int| 0 <= j < i ==> a@[j] == b@[j],
        decreases a@.len() - i,
    {
        if a[i] != b[i] {
            return false;
        }
        i = i + 1;
    }
    proof {
        assert(a@ =~= b@);
    }
    true
}

proof fn lemma_bytes_le_skip(a: Seq<u8>, b: Seq<u8>, i: int)
    requires
        0 <= i <= a.len(),
        i <= b.len(),
        forall|j: int| 0 <= j < i ==> a[j] == b[j],
    ensures
        bytes_le(a, b) == bytes_le(a.skip(i), b.skip(i)),
    decreases i,
{
    if i > 0 {
        assert(a.skip(0) =~= a);
        assert(b.skip(0) =~= b);
        lemma_bytes_le_skip(a.drop_first(), b.drop_first(), i - 1);
        assert(a.drop_first().skip(i - 1) =~= a.skip(i));
        assert(b.drop_first().skip(i - 1) =~= b.skip(i));
    } else {
        assert(a.skip(0) =~= a);
        assert(b.skip(0) =~= b);
    }
}

/// Compares two byte vectors in lexicographic order.
fn bytes_le_exec(a: &Vec<u8>, b: &Vec<u8>) -> (r: bool)
    ensures
        r == bytes_le(a@, b@),
{
    let n: usize = if a.len() < b.len() {
        a.len()
    } else {
        b.len()
    };
    let mut i: usize = 0;
    while i < n
        invariant
            0 <= i <= n,
            n <= a@.len(),
            n <= b@.len(),
            n == a@.len() || n == b@.len(),
            forall|j: int| 0 <= j < i ==> a@[j] == b@[j],
        decreases n - i,
    {
        if a[i] < b[i] {
            proof {
                lemma_bytes_le_skip(a@, b@, i as int);
                assert(a@.skip(i as int)[0] == a@[i as int]);
                assert(b@.skip(i as int)[0] == b@[i as int]);
            }
            return true;
        }
        if a[i] > b[i] {
            proof {
                lemma_bytes_le_skip(a@, b@, i as int);
                assert(a@.skip(i as int)[0] == a@[i as int]);
                assert(b@.skip(i as int)[0] == b@[i as int]);
            }
            return false;
        }
        i = i + 1;
    }
    proof {
        lemma_bytes_le_skip(a@, b@, n as int);
    }
    a.len() <= b.len()
}

/// Compares two keys for equality.
fn key_eq(a: &RecordKey, b: &RecordKey) -> (r: bool)
    ensures
        r == (a@ == b@),
{
    let r = a.class == b.class && a.rtype == b.rtype && bytes_eq(&a.owner, &b.owner) && bytes_eq(
        &a.data,
        &b.data,
    );
    proof {
        if r {
            assert(a@ =~= b@);
        }
    }
    r
}

/// Compares two keys in their natural order.
fn key_le_exec(a: &RecordKey, b: &RecordKey) -> (r: bool)
    ensures
        r == key_le(a@, b@),
{
    if !bytes_eq(&a.owner, &b.owner) {
        bytes_le_exec(&a.owner, &b.owner)
    } else if a.class != b.class {
        a.class < b.class
    } else if a.rtype != b.rtype {
        a.rtype < b.rtype
    } else {
        bytes_le_exec(&a.data, &b.data)
    }
}

/// Compares two keys strictly.
fn key_lt_exec(a: &RecordKey, b: &RecordKey) -> (r: bool)
    ensures
        r == key_lt(a@, b@),
{
    key_le_exec(a, b) && !key_eq(a, b)
}

/// Builds the comparison key of one record.
fn key_of_record(rec: &RecordRepr) -> (k: RecordKey)
    ensures
        k@ == key_of(rec@),
{
    let k = RecordKey {
        owner: lower_bytes(&rec.owner),
        class: rec.class,
        rtype: rec.rtype,
        data: copy_bytes(&rec.data),
    };
    proof {
        assert(k@ =~= key_of(rec@));
    }
    k
}

//------------ Diff rows -----------------------------------------------------

/// One classified row of a diff.
#[derive(Clone, Debug)]
pub struct DiffItem {
    pub action: Action,
    pub key: RecordKey,
}

/// The mathematical value of a [`DiffItem`].
#[verifier::ext_equal]
pub struct DiffItemView {
    pub action: Action,
    pub key: KeyView,
}

impl View for DiffItem {
    type V = DiffItemView;

    open spec fn view(&self) -> DiffItemView {
        DiffItemView { action: self.action, key: self.key@ }
    }
}

/// Rows stand in strictly ascending key order; in particular no key
/// appears twice.
pub open spec fn spec_sorted(items: Seq<DiffItem>) -> bool {
    forall|j1: int, j2: int|
        0 <= j1 < j2 < items.len() ==> key_lt(
            (#[trigger] items[j1])@.key,
            (#[trigger] items[j2])@.key,
        )
}

/// How a key present on either side is classified.
pub open spec fn spec_action(k: KeyView, l: Set<KeyView>, r: Set<KeyView>) -> Action {
    if l.contains(k) && r.contains(k) {
        Action::Unchanged
    } else if l.contains(k) {
        Action::Removed
    } else {
        Action::Added
    }
}

/// A row is sound for the two key sets: its key occurs on some side
/// and its action classifies the key.
pub open spec fn item_ok(it: DiffItem, l: Set<KeyView>, r: Set<KeyView>) -> bool {
    (l.contains(it@.key) || r.contains(it@.key)) && it@.action == spec_action(it@.key, l, r)
}

/// What a finished diff means for the two key sets: no difference
/// exactly when the sets coincide; otherwise a sorted row for every
/// key of either side, each classified.
pub open spec fn spec_diff_post(
    res: Option<Vec<DiffItem>>,
    l: Set<KeyView>,
    r: Set<KeyView>,
) -> bool {
    match res {
        None => l =~= r,
        Some(items) => {
            &&& !(l =~= r)
            &&& spec_sorted(items@)
            &&& forall|j: int| 0 <= j < items@.len() ==> item_ok(#[trigger] items@[j], l, r)
            &&& forall|k: KeyView|
                l.contains(k) || r.contains(k) ==> exists|j: int|
                    0 <= j < items@.len() && (#[trigger] items@[j])@.key == k
        },
    }
}

/// Inserts a row with a fresh key at its place in a sorted row list.
fn insert_sorted(items: &mut Vec<DiffItem>, it: DiffItem) -> (p: usize)
    requires
        spec_sorted(old(items)@),
        forall|j: int| 0 <= j < old(items)@.len() ==> (#[trigger] old(items)@[j])@.key != it@.key,
    ensures
        spec_sorted(final(items)@),
        0 <= p <= old(items)@.len(),
        final(items)@ == old(items)@.insert(p as int, it),
{
    let ghost orig = items@;
    let n = items.len();
    let mut p: usize = 0;
    while p < n && key_lt_exec(&items[p].key, &it.key)
        invariant
            0 <= p <= n,
            n == items@.len(),
            items@ == orig,
            forall|j: int| 0 <= j < p ==> key_lt((#[trigger] orig[j])@.key, it@.key),
        decreases n - p,
    {
        p = p + 1;
    }
    proof {
        if p < n {
            lemma_key_le_total(it@.key, orig[p as int]@.key);
        }
        assert forall|j: int| p <= j < n implies key_lt(it@.key, (#[trigger] orig[j])@.key) by {
            if j != p {
                lemma_key_lt_trans(it@.key, orig[p as int]@.key, orig[j]@.key);
            }
        }
    }
    items.insert(p, it);
    proof {
        orig.insert_ensures(p as int, it);
        let now = items@;
        assert(now == orig.insert(p as int, it));
        assert forall|j1: int, j2: int|
            0 <= j1 < j2 < now.len() implies key_lt(
            (#[trigger] now[j1])@.key,
            (#[trigger] now[j2])@.key,
        ) by {
            if j1 < p && j2 < p {
            } else if j1 == p && j2 > p {
                assert(now[j2] == orig[j2 - 1]);
            } else if j2 == p && j1 < p {
            } else if j1 < p && j2 > p {
                assert(now[j2] == orig[j2 - 1]);
            } else if j1 > p {
                assert(now[j1] == orig[j1 - 1]);
                assert(now[j2] == orig[j2 - 1]);
            }
        }
    }
    p
}

/// Copies a key.
fn clone_key(k: &RecordKey) -> (r: RecordKey)
    ensures
        r@ == k@,
{
    let r = RecordKey {
        owner: copy_bytes(&k.owner),
        class: k.class,
        rtype: k.rtype,
        data: copy_bytes(&k.data),
    };
    proof {
        assert(r@ =~= k@);
    }
    r
}

/// Whether a key list holds this key.
fn keys_contain(keys: &Vec<RecordKey>, k: &RecordKey) -> (r: bool)
    ensures
        r == exists|j: int| 0 <= j < keys@.len() && (#[trigger] keys@[j])@ == k@,
{
    let mut i: usize = 0;
    while i < keys.len()
        invariant
            0 <= i <= keys@.len(),
            forall|j: int| 0 <= j < i ==> (#[trigger] keys@[j])@ != k@,
        decreases keys@.len() - i,
    {
        if key_eq(&keys[i], k) {
            return true;
        }
        i = i + 1;
    }
    false
}

/// The distinct comparison keys of a record list, first occurrence
/// first.
#[verifier::loop_isolation(false)]
fn keys_of_records(recs: &Vec<RecordRepr>) -> (r: Vec<RecordKey>)
    ensures
        forall|j1: int, j2: int|
            0 <= j1 < j2 < r@.len() ==> (#[trigger] r@[j1])@ != (#[trigger] r@[j2])@,
        forall|j: int|
            0 <= j < r@.len() ==> key_set(record_views(recs@)).contains((#[trigger] r@[j])@),
        forall|k: KeyView|
            key_set(record_views(recs@)).contains(k) ==> exists|j: int|
                0 <= j < r@.len() && (#[trigger] r@[j])@ == k,
{
    let mut r: Vec<RecordKey> = Vec::new();
    let mut i: usize = 0;
    while i < recs.len()
        invariant
            0 <= i <= recs@.len(),
            forall|j1: int, j2: int|
                0 <= j1 < j2 < r@.len() ==> (#[trigger] r@[j1])@ != (#[trigger] r@[j2])@,
            forall|j: int|
                0 <= j < r@.len() ==> exists|i0: int|
                    0 <= i0 < i && key_of(recs@[i0]@) == (#[trigger] r@[j])@,
            forall|i0: int|
                #![trigger recs@[i0]]
                0 <= i0 < i ==> exists|j: int|
                    0 <= j < r@.len() && (#[trigger] r@[j])@ == key_of(recs@[i0]@),
        decreases recs@.len() - i,
    {
        let ghost prevkeys = r@;
        let key = key_of_record(&recs[i]);
        let present = keys_contain(&r, &key);
        if !present {
            r.push(key);
        }
        i = i + 1;
        proof {
            assert forall|i0: int|
                #![trigger recs@[i0]]
                0 <= i0 < i implies exists|j: int|
                0 <= j < r@.len() && (#[trigger] r@[j])@ == key_of(recs@[i0]@) by {
                if i0 == i - 1 {
                    if present {
                        let j = choose|j: int|
                            0 <= j < prevkeys.len() && (#[trigger] prevkeys[j])@ == key@;
                        assert(r@[j]@ == key_of(recs@[i0]@));
                    } else {
                        assert(r@[r@.len() - 1]@ == key_of(recs@[i0]@));
                    }
                } else {
                    let j = choose|j: int|
                        0 <= j < prevkeys.len() && (#[trigger] prevkeys[j])@ == key_of(recs@[i0]@);
                    assert(r@[j]@ == key_of(recs@[i0]@));
                }
            }
        }
    }
    proof {
        assert forall|j: int|
            0 <= j < r@.len() implies key_set(record_views(recs@)).contains(
            (#[trigger] r@[j])@,
        ) by {
            let i0 = choose|i0: int| 0 <= i0 < recs@.len() && key_of(recs@[i0]@) == r@[j]@;
            assert(record_views(recs@)[i0] == recs@[i0]@);
            lemma_key_set_contains(record_views(recs@), r@[j]@);
        }
        assert forall|k: KeyView| key_set(record_views(recs@)).contains(k) implies exists|j: int|
            0 <= j < r@.len() && (#[trigger] r@[j])@ == k by {
            lemma_key_set_contains(record_views(recs@), k);
            let i0 = choose|i0: int|
                0 <= i0 < record_views(recs@).len() && key_of(record_views(recs@)[i0]) == k;
            assert(record_views(recs@)[i0] == recs@[i0]@);
            assert(key_of(recs@[i0]@) == k);
        }
    }
    r
}

//------------ The diff ------------------------------------------------------

/// Compares two answer sections, already reduced to record lists.
///
/// Returns `None` exactly when both sides hold the same set of
/// comparison keys; otherwise the classified rows, sorted by key.
/// The left pass of the diff: one row per left key, unchanged when
/// the key stands on the right too, removed otherwise.  Also reports
/// whether every left key stood on the right.
#[verifier::loop_isolation(false)]
#[verifier::rlimit(50)]
#[verifier::spinoff_prover]
fn classify_left(
    lk: &Vec<RecordKey>,
    rk: &Vec<RecordKey>,
    Ghost(lset): Ghost<Set<KeyView>>,
    Ghost(rset): Ghost<Set<KeyView>>,
) -> (r: (Vec<DiffItem>, bool))
    requires
        forall|j1: int, j2: int|
            0 <= j1 < j2 < lk@.len() ==> (#[trigger] lk@[j1])@ != (#[trigger] lk@[j2])@,
        forall|j: int| 0 <= j < lk@.len() ==> lset.contains((#[trigger] lk@[j])@),
        forall|j: int| 0 <= j < rk@.len() ==> rset.contains((#[trigger] rk@[j])@),
        forall|k: KeyView|
            rset.contains(k) ==> exists|j: int| 0 <= j < rk@.len() && (#[trigger] rk@[j])@ == k,
    ensures
        spec_sorted(r.0@),
        forall|j: int| 0 <= j < r.0@.len() ==> item_ok(#[trigger] r.0@[j], lset, rset),
        forall|j: int|
            0 <= j < r.0@.len() ==> exists|j0: int|
                0 <= j0 < lk@.len() && (#[trigger] r.0@[j])@.key == lk@[j0]@,
        forall|j0: int|
            0 <= j0 < lk@.len() ==> exists|j: int|
                0 <= j < r.0@.len() && r.0@[j]@.key == (#[trigger] lk@[j0])@,
        r.1 <==> (forall|j0: int| 0 <= j0 < lk@.len() ==> rset.contains((#[trigger] lk@[j0])@)),
{
    let mut items: Vec<DiffItem> = Vec::new();
    let mut all_in = true;
    let mut i: usize = 0;
    while i < lk.len()
        invariant
            0 <= i <= lk@.len(),
            spec_sorted(items@),
            forall|j: int| 0 <= j < items@.len() ==> item_ok(#[trigger] items@[j], lset, rset),
            forall|j: int|
                0 <= j < items@.len() ==> exists|j0: int|
                    0 <= j0 < i && (#[trigger] items@[j])@.key == lk@[j0]@,
            forall|j0: int|
                0 <= j0 < i ==> exists|j: int|
                    0 <= j < items@.len() && items@[j]@.key == (#[trigger] lk@[j0])@,
            all_in <==> (forall|j0: int| 0 <= j0 < i ==> rset.contains((#[trigger] lk@[j0])@)),
        decreases lk@.len() - i,
    {
        let ghost previtems = items@;
        let ghost k = lk@[i as int]@;
        proof {
            assert(lset.contains(k));
            assert forall|j: int| 0 <= j < items@.len() implies (#[trigger] items@[j])@.key
                != k by {
                let j0 = choose|j0: int| 0 <= j0 < i && items@[j]@.key == lk@[j0]@;
                assert(lk@[j0]@ != lk@[i as int]@);
            }
        }
        let inr = keys_contain(rk, &lk[i]);
        proof {
            if inr {
                let j = choose|j: int| 0 <= j < rk@.len() && (#[trigger] rk@[j])@ == k;
                assert(rset.contains(rk@[j]@));
            } else {
                if rset.contains(k) {
                    let j = choose|j: int| 0 <= j < rk@.len() && (#[trigger] rk@[j])@ == k;
                    assert(false);
                }
            }
            assert(inr == rset.contains(k));
        }
        let action = if inr {
            Action::Unchanged
        } else {
            all_in = false;
            Action::Removed
        };
        let it = DiffItem { action, key: clone_key(&lk[i]) };
        proof {
            assert(item_ok(it, lset, rset));
        }
        let p = insert_sorted(&mut items, it);
        i = i + 1;
        proof {
            previtems.insert_ensures(p as int, it);
            assert forall|j: int|
                0 <= j < items@.len() implies item_ok(#[trigger] items@[j], lset, rset) by {
                if j < p {
                    assert(items@[j] == previtems[j]);
                } else if j > p {
                    assert(items@[j] == previtems[j - 1]);
                } else {
                    assert(items@[j] == it);
                }
            }
            assert forall|j: int|
                0 <= j < items@.len() implies exists|j0: int|
                0 <= j0 < i && (#[trigger] items@[j])@.key == lk@[j0]@ by {
                if j < p {
                    assert(items@[j] == previtems[j]);
                    let j0 = choose|j0: int| 0 <= j0 < i - 1 && previtems[j]@.key == lk@[j0]@;
                    assert(items@[j]@.key == lk@[j0]@);
                } else if j > p {
                    assert(items@[j] == previtems[j - 1]);
                    let j0 = choose|j0: int| 0 <= j0 < i - 1 && previtems[j - 1]@.key == lk@[j0]@;
                    assert(items@[j]@.key == lk@[j0]@);
                } else {
                    assert(items@[j]@.key == lk@[i - 1]@);
                }
            }
            assert forall|j0: int|
                0 <= j0 < i implies exists|j: int|
                0 <= j < items@.len() && items@[j]@.key == (#[trigger] lk@[j0])@ by {
                if j0 == i - 1 {
                    assert(items@[p as int]@.key == lk@[j0]@);
                } else {
                    let jp = choose|jp: int|
                        0 <= jp < previtems.len() && previtems[jp]@.key == lk@[j0]@;
                    if jp < p {
                        assert(items@[jp]@.key == lk@[j0]@);
                    } else {
                        assert(items@[jp + 1] == previtems[jp]);
                        assert(items@[jp + 1]@.key == lk@[j0]@);
                    }
                }
            }
        }
    }
    (items, all_in)
}

/// The right pass of the diff: an added row for every right key that
/// the left side lacks.  Also reports whether every right key stood on
/// the left.
#[verifier::loop_isolation(false)]
#[verifier::rlimit(50)]
#[verifier::spinoff_prover]
fn add_right(
    items: &mut Vec<DiffItem>,
    lk: &Vec<RecordKey>,
    rk: &Vec<RecordKey>,
    Ghost(lset): Ghost<Set<KeyView>>,
    Ghost(rset): Ghost<Set<KeyView>>,
) -> (all_in: bool)
    requires
        forall|j1: int, j2: int|
            0 <= j1 < j2 < rk@.len() ==> (#[trigger] rk@[j1])@ != (#[trigger] rk@[j2])@,
        forall|j: int| 0 <= j < rk@.len() ==> rset.contains((#[trigger] rk@[j])@),
        forall|j: int| 0 <= j < lk@.len() ==> lset.contains((#[trigger] lk@[j])@),
        forall|k: KeyView|
            lset.contains(k) ==> exists|j: int| 0 <= j < lk@.len() && (#[trigger] lk@[j])@ == k,
        spec_sorted(old(items)@),
        forall|j: int| 0 <= j < old(items)@.len() ==> item_ok(#[trigger] old(items)@[j], lset, rset),
        forall|j: int|
            0 <= j < old(items)@.len() ==> lset.contains((#[trigger] old(items)@[j])@.key),
        forall|kk: KeyView|
            lset.contains(kk) ==> exists|j: int|
                0 <= j < old(items)@.len() && (#[trigger] old(items)@[j])@.key == kk,
    ensures
        spec_sorted(final(items)@),
        forall|j: int| 0 <= j < final(items)@.len() ==> item_ok(#[trigger] final(items)@[j], lset, rset),
        forall|kk: KeyView|
            lset.contains(kk) ==> exists|j: int|
                0 <= j < final(items)@.len() && (#[trigger] final(items)@[j])@.key == kk,
        forall|j0: int|
            0 <= j0 < rk@.len() ==> (lset.contains((#[trigger] rk@[j0])@) || exists|j: int|
                0 <= j < final(items)@.len() && final(items)@[j]@.key == rk@[j0]@),
        all_in <==> (forall|j0: int| 0 <= j0 < rk@.len() ==> lset.contains((#[trigger] rk@[j0])@)),
{
    let mut all_in = true;
    let mut i: usize = 0;
    while i < rk.len()
        invariant
            0 <= i <= rk@.len(),
            spec_sorted(items@),
            forall|j: int| 0 <= j < items@.len() ==> item_ok(#[trigger] items@[j], lset, rset),
            forall|j: int|
                0 <= j < items@.len() ==> (lset.contains((#[trigger] items@[j])@.key) || exists|
                    j0: int,
                |
                    0 <= j0 < i && items@[j]@.key == rk@[j0]@),
            forall|kk: KeyView|
                lset.contains(kk) ==> exists|j: int|
                    0 <= j < items@.len() && (#[trigger] items@[j])@.key == kk,
            forall|j0: int|
                0 <= j0 < i ==> (lset.contains((#[trigger] rk@[j0])@) || exists|j: int|
                    0 <= j < items@.len() && items@[j]@.key == rk@[j0]@),
            all_in <==> (forall|j0: int| 0 <= j0 < i ==> lset.contains((#[trigger] rk@[j0])@)),
        decreases rk@.len() - i,
    {
        let ghost previtems = items@;
        let ghost k = rk@[i as int]@;
        proof {
            assert(rset.contains(k));
        }
        let inl = keys_contain(lk, &rk[i]);
        proof {
            if inl {
                let j = choose|j: int| 0 <= j < lk@.len() && (#[trigger] lk@[j])@ == k;
                assert(lset.contains(lk@[j]@));
            } else {
                if lset.contains(k) {
                    let j = choose|j: int| 0 <= j < lk@.len() && (#[trigger] lk@[j])@ == k;
                    assert(false);
                }
            }
            assert(inl == lset.contains(k));
        }
        if !inl {
            all_in = false;
            proof {
                assert forall|j: int| 0 <= j < items@.len() implies (#[trigger] items@[j])@.key
                    != k by {
                    if lset.contains(items@[j]@.key) {
                    } else {
                        let j0 = choose|j0: int| 0 <= j0 < i && items@[j]@.key == rk@[j0]@;
                        assert(rk@[j0]@ != rk@[i as int]@);
                    }
                }
            }
            let it = DiffItem { action: Action::Added, key: clone_key(&rk[i]) };
            proof {
                assert(item_ok(it, lset, rset));
            }
            let p = insert_sorted(items, it);
            proof {
                previtems.insert_ensures(p as int, it);
                assert forall|j: int|
                    0 <= j < items@.len() implies item_ok(#[trigger] items@[j], lset, rset) by {
                    if j < p {
                        assert(items@[j] == previtems[j]);
                    } else if j > p {
                        assert(items@[j] == previtems[j - 1]);
                    } else {
                        assert(items@[j] == it);
                    }
                }
                assert forall|j: int|
                    0 <= j < items@.len() implies (lset.contains((#[trigger] items@[j])@.key)
                    || exists|j0: int| 0 <= j0 < i + 1 && items@[j]@.key == rk@[j0]@) by {
                    if j < p {
                        assert(items@[j] == previtems[j]);
                        if !lset.contains(previtems[j]@.key) {
                            let j0 = choose|j0: int|
                                0 <= j0 < i && previtems[j]@.key == rk@[j0]@;
                            assert(items@[j]@.key == rk@[j0]@);
                        }
                    } else if j > p {
                        assert(items@[j] == previtems[j - 1]);
                        if !lset.contains(previtems[j - 1]@.key) {
                            let j0 = choose|j0: int|
                                0 <= j0 < i && previtems[j - 1]@.key == rk@[j0]@;
                            assert(items@[j]@.key == rk@[j0]@);
                        }
                    } else {
                        assert(items@[j]@.key == rk@[i as int]@);
                    }
                }
                assert forall|kk: KeyView| lset.contains(kk) implies exists|j: int|
                    0 <= j < items@.len() && (#[trigger] items@[j])@.key == kk by {
                    let jp = choose|jp: int|
                        0 <= jp < previtems.len() && (#[trigger] previtems[jp])@.key == kk;
                    if jp < p {
                        assert(items@[jp]@.key == kk);
                    } else {
                        assert(items@[jp + 1] == previtems[jp]);
                        assert(items@[jp + 1]@.key == kk);
                    }
                }
                assert forall|j0: int|
                    0 <= j0 < i + 1 implies (lset.contains((#[trigger] rk@[j0])@) || exists|j: int|
                    0 <= j < items@.len() && items@[j]@.key == rk@[j0]@) by {
                    if j0 < i {
                        if !lset.contains(rk@[j0]@) {
                            let jp = choose|jp: int|
                                0 <= jp < previtems.len() && (#[trigger] previtems[jp])@.key
                                    == rk@[j0]@;
                            if jp < p {
                                assert(items@[jp]@.key == rk@[j0]@);
                            } else {
                                assert(items@[jp + 1] == previtems[jp]);
                                assert(items@[jp + 1]@.key == rk@[j0]@);
                            }
                        }
                    } else {
                        assert(items@[p as int]@.key == rk@[j0]@);
                    }
                }
            }
        }
        i = i + 1;
    }
    all_in
}

/// Compares two answer sections, already reduced to record lists.
///
/// Returns `None` exactly when both sides hold the same set of
/// comparison keys; otherwise the classified rows, sorted by key.
#[verifier::loop_isolation(false)]
pub fn diff_records(left: &Vec<RecordRepr>, right: &Vec<RecordRepr>) -> (res: Option<
    Vec<DiffItem>,
>)
    ensures
        spec_diff_post(res, key_set(record_views(left@)), key_set(record_views(right@))),
{
    let ghost lset = key_set(record_views(left@));
    let ghost rset = key_set(record_views(right@));
    let lk = keys_of_records(left);
    let rk = keys_of_records(right);
    let (mut items, all_left_in_right) = classify_left(&lk, &rk, Ghost(lset), Ghost(rset));
    proof {
        assert forall|j: int|
            0 <= j < items@.len() implies lset.contains((#[trigger] items@[j])@.key) by {
            let j0 = choose|j0: int| 0 <= j0 < lk@.len() && items@[j]@.key == (#[trigger] lk@[j0])@;
        }
        assert forall|kk: KeyView| lset.contains(kk) implies exists|j: int|
            0 <= j < items@.len() && (#[trigger] items@[j])@.key == kk by {
            let j0 = choose|j0: int| 0 <= j0 < lk@.len() && (#[trigger] lk@[j0])@ == kk;
            let j = choose|j: int| 0 <= j < items@.len() && items@[j]@.key == lk@[j0]@;
            assert(items@[j]@.key == kk);
        }
    }
    let all_right_in_left = add_right(&mut items, &lk, &rk, Ghost(lset), Ghost(rset));

    if all_left_in_right && all_right_in_left {
        proof {
            assert forall|kk: KeyView| lset.contains(kk) implies rset.contains(kk) by {
                let j0 = choose|j0: int| 0 <= j0 < lk@.len() && (#[trigger] lk@[j0])@ == kk;
                assert(rset.contains(lk@[j0]@));
            }
            assert forall|kk: KeyView| rset.contains(kk) implies lset.contains(kk) by {
                let j0 = choose|j0: int| 0 <= j0 < rk@.len() && (#[trigger] rk@[j0])@ == kk;
                assert(lset.contains(rk@[j0]@));
            }
            assert(lset =~= rset);
        }
        None
    } else {
        proof {
            if !all_left_in_right {
                let j0 = choose|j0: int|
                    0 <= j0 < lk@.len() && !rset.contains((#[trigger] lk@[j0])@);
                assert(lset.contains(lk@[j0]@));
                if lset =~= rset {
                    assert(rset.contains(lk@[j0]@));
                }
                assert(!(lset =~= rset));
            } else {
                let j0 = choose|j0: int|
                    0 <= j0 < rk@.len() && !lset.contains((#[trigger] rk@[j0])@);
                assert(rset.contains(rk@[j0]@));
                if lset =~= rset {
                    assert(lset.contains(rk@[j0]@));
                }
                assert(!(lset =~= rset));
            }
            assert forall|kk: KeyView| lset.contains(kk) || rset.contains(kk) implies exists|j: int|
                0 <= j < items@.len() && (#[trigger] items@[j])@.key == kk by {
                if lset.contains(kk) {
                } else {
                    let j0 = choose|j0: int| 0 <= j0 < rk@.len() && (#[trigger] rk@[j0])@ == kk;
                }
            }
        }
        Some(items)
    }
}

/// The records of one side: what parsed, or nothing at all.
pub open spec fn records_or_empty(o: Option<Seq<RecordView>>) -> Seq<RecordView> {
    match o {
        Some(s) => s,
        None => Seq::empty(),
    }
}

/// Compares the answer sections of two messages.
///
/// Each side is parsed into records; a side whose section cannot be
/// parsed at all counts as an empty set.  Returns `None` exactly when
/// both sides hold the same keys, the classified and sorted rows
/// otherwise.
pub fn diff_answers(left: &Vec<u8>, right: &Vec<u8>) -> (res: Option<Vec<DiffItem>>)
    ensures
        spec_diff_post(
            res,
            key_set(records_or_empty(answer_records(left@))),
            key_set(records_or_empty(answer_records(right@))),
        ),
{
    let lrecs = match parse_answer(left) {
        Some(v) => v,
        None => Vec::new(),
    };
    let rrecs = match parse_answer(right) {
        Some(v) => v,
        None => Vec::new(),
    };
    proof {
        assert(record_views(lrecs@) =~= records_or_empty(answer_records(left@)));
        assert(record_views(rrecs@) =~= records_or_empty(answer_records(right@)));
    }
    diff_records(&lrecs, &rrecs)
}

//------------ Laws of the diff ----------------------------------------------

/// Comparing a side with itself finds no difference: the key sets
/// coincide, so the contract forces the no-difference outcome.
pub proof fn lemma_diff_self_is_no_difference(res: Option<Vec<DiffItem>>, s: Set<KeyView>)
    requires
        spec_diff_post(res, s, s),
    ensures
        res is None,
{
    if res is Some {
        assert(s =~= s);
        assert(false);
    }
}

/// When the right side holds the left side's records plus one record
/// of a fresh key, the diff has exactly one added row, bearing that
/// key, and every other row unchanged — all in sorted key order.
pub proof fn lemma_one_extra_record_yields_one_added(
    res: Option<Vec<DiffItem>>,
    l: Set<KeyView>,
    r: Set<KeyView>,
    k: KeyView,
)
    requires
        spec_diff_post(res, l, r),
        r == l.insert(k),
        !l.contains(k),
    ensures
        res is Some,
        res matches Some(items) ==> {
            let s = items@;
            &&& spec_sorted(s)
            &&& exists|j: int|
                0 <= j < s.len() && (#[trigger] s[j])@.key == k && s[j]@.action == Action::Added
            &&& forall|j: int|
                0 <= j < s.len() && (#[trigger] s[j])@.key != k ==> s[j]@.action
                    == Action::Unchanged
            &&& forall|j1: int, j2: int|
                0 <= j1 < s.len() && 0 <= j2 < s.len() && (#[trigger] s[j1])@.key == k
                    && (#[trigger] s[j2])@.key == k ==> j1 == j2
        },
{
    assert(r.contains(k));
    if res is None {
        assert(l =~= r);
        assert(l.contains(k));
        assert(false);
    }
    let items = res->Some_0;
    let s = items@;
    assert(exists|j: int| 0 <= j < s.len() && (#[trigger] s[j])@.key == k);
    let j = choose|j: int| 0 <= j < s.len() && (#[trigger] s[j])@.key == k;
    assert(item_ok(s[j], l, r));
    assert(s[j]@.action == Action::Added);
    assert forall|j2: int|
        0 <= j2 < s.len() && (#[trigger] s[j2])@.key != k implies s[j2]@.action
        == Action::Unchanged by {
        assert(item_ok(s[j2], l, r));
        let kk = s[j2]@.key;
        if r.contains(kk) {
            assert(l.contains(kk));
        }
        assert(l.contains(kk));
        assert(r.contains(kk));
    }
    assert forall|j1: int, j2: int|
        0 <= j1 < s.len() && 0 <= j2 < s.len() && (#[trigger] s[j1])@.key == k
            && (#[trigger] s[j2])@.key == k implies j1 == j2 by {
        if j1 < j2 {
            assert(key_lt(s[j1]@.key, s[j2]@.key));
        }
        if j2 < j1 {
            assert(key_lt(s[j2]@.key, s[j1]@.key));
        }
    }
}

/// Two sides that agree record for record on everything but the TTL
/// produce no difference: the TTL has no part in the comparison key.
pub proof fn lemma_ttl_only_differences_vanish(
    res: Option<Vec<DiffItem>>,
    a: Seq<RecordView>,
    b: Seq<RecordView>,
)
    requires
        spec_diff_post(res, key_set(a), key_set(b)),
        a.len() == b.len(),
        forall|i: int|
            0 <= i < a.len() ==> ((#[trigger] a[i]).owner == b[i].owner && a[i].class == b[i].class
                && a[i].rtype == b[i].rtype && a[i].data == b[i].data),
    ensures
        res is None,
{
    let fa = a.map_values(|x: RecordView| key_of(x));
    let fb = b.map_values(|x: RecordView| key_of(x));
    assert forall|i: int| 0 <= i < a.len() implies #[trigger] fa[i] == fb[i] by {
        assert(key_of(a[i]) =~= key_of(b[i]));
    }
    assert(fa =~= fb);
    if res is Some {
        assert(key_set(a) =~= key_set(b));
        assert(false);
    }
}

} // verus!
