//! The mathematical model of a structural element's children: one ghost value
//! per owned field, the total order that fixes emission order, and the bytes
//! a child contributes to its parent's body.

use vstd::prelude::*;

use crate::io::{el_bin_bytes, el_date_bytes, el_f64_bytes, el_int_bytes, el_str_bytes,
    el_uint_bytes, header_bytes, uint_len};

verus! {

/// One child value of a structural element, as the contracts see it: its
/// element ID, its two ordering slots, and its payload.  A structural child
/// carries its own children, already in emission order.
pub enum FieldModel {
    UInt { id: u64, idx: Option<u64>, key: u64, v: u64 },
    SInt { id: u64, idx: Option<u64>, key: u64, v: i64 },
    Flt64 { id: u64, idx: Option<u64>, key: u64, bits: u64 },
    Text { id: u64, idx: Option<u64>, key: u64, s: Seq<char> },
    Bin { id: u64, idx: Option<u64>, key: u64, b: Seq<u8> },
    Date { id: u64, idx: Option<u64>, key: u64, ns: i64 },
    Node { id: u64, idx: Option<u64>, key: u64, children: Seq<FieldModel> },
}

impl FieldModel {
    /// The element ID this child carries on the wire.
    pub open spec fn eid(self) -> u64 {
        match self {
            FieldModel::UInt { id, .. } => id,
            FieldModel::SInt { id, .. } => id,
            FieldModel::Flt64 { id, .. } => id,
            FieldModel::Text { id, .. } => id,
            FieldModel::Bin { id, .. } => id,
            FieldModel::Date { id, .. } => id,
            FieldModel::Node { id, .. } => id,
        }
    }

    /// The producer-assigned position, if any.
    pub open spec fn idx(self) -> Option<u64> {
        match self {
            FieldModel::UInt { idx, .. } => idx,
            FieldModel::SInt { idx, .. } => idx,
            FieldModel::Flt64 { idx, .. } => idx,
            FieldModel::Text { idx, .. } => idx,
            FieldModel::Bin { idx, .. } => idx,
            FieldModel::Date { idx, .. } => idx,
            FieldModel::Node { idx, .. } => idx,
        }
    }

    /// The random secondary ordering key.
    pub open spec fn key(self) -> u64 {
        match self {
            FieldModel::UInt { key, .. } => key,
            FieldModel::SInt { key, .. } => key,
            FieldModel::Flt64 { key, .. } => key,
            FieldModel::Text { key, .. } => key,
            FieldModel::Bin { key, .. } => key,
            FieldModel::Date { key, .. } => key,
            FieldModel::Node { key, .. } => key,
        }
    }
}

/// The emission order: explicit positions compare first; otherwise, or on a
/// tie, the secondary keys compare.
pub open spec fn field_le(a: FieldModel, b: FieldModel) -> bool {
    if a.idx() is Some && b.idx() is Some && a.idx() != b.idx() {
        a.idx()->0 <= b.idx()->0
    } else {
        a.key() <= b.key()
    }
}

/// The order is total: any two fields compare one way or the other.
pub proof fn lemma_field_le_total(a: FieldModel, b: FieldModel)
    ensures
        field_le(a, b) || field_le(b, a),
{
}

/// The bytes one child contributes to its parent's body.
pub open spec fn el_bytes(m: FieldModel) -> Seq<u8>
    decreases m,
{
    match m {
        FieldModel::UInt { id, v, .. } => el_uint_bytes(id, v),
        FieldModel::SInt { id, v, .. } => el_int_bytes(id, v),
        FieldModel::Flt64 { id, bits, .. } => el_f64_bytes(id, bits),
        FieldModel::Text { id, s, .. } => el_str_bytes(id, s),
        FieldModel::Bin { id, b, .. } => el_bin_bytes(id, b),
        FieldModel::Date { id, ns, .. } => el_date_bytes(id, ns),
        FieldModel::Node { id, children, .. } => node_frame_bytes(id, cat_bytes(children)),
    }
}

/// The bytes of a body: each child's frame in order.
pub open spec fn cat_bytes(ms: Seq<FieldModel>) -> Seq<u8>
    decreases ms,
{
    if ms.len() == 0 {
        Seq::empty()
    } else {
        cat_bytes(ms.drop_last()) + el_bytes(ms.last())
    }
}

/// A structural element's whole frame: header with the body's length, then
/// the body.
pub open spec fn node_frame_bytes(id: u64, body: Seq<u8>) -> Seq<u8> {
    header_bytes(id, body.len() as u64) + body
}

/// Whether one child can be encoded: every variable-length payload, at every
/// nesting depth, fits a size VINT.
pub open spec fn el_ok(m: FieldModel) -> bool
    decreases m,
{
    match m {
        FieldModel::UInt { .. } => true,
        FieldModel::SInt { .. } => true,
        FieldModel::Flt64 { .. } => true,
        FieldModel::Text { s, .. } => vstd::utf8::encode_utf8(s).len() < 0xFFFFFFFFFFFFFF,
        FieldModel::Bin { b, .. } => b.len() < 0xFFFFFFFFFFFFFF,
        FieldModel::Date { .. } => true,
        FieldModel::Node { children, .. } => body_ok_rec(children) && cat_bytes(children).len()
            < 0xFFFFFFFFFFFFFF,
    }
}

/// Whether every child of a body can be encoded.
pub open spec fn body_ok_rec(ms: Seq<FieldModel>) -> bool
    decreases ms,
{
    if ms.len() == 0 {
        true
    } else {
        body_ok_rec(ms.drop_last()) && el_ok(ms.last())
    }
}

/// The recursive body check is a check of each child.
pub proof fn lemma_body_ok_forall(ms: Seq<FieldModel>)
    ensures
        body_ok_rec(ms) <==> (forall|i: int| 0 <= i < ms.len() ==> el_ok(#[trigger] ms[i])),
    decreases ms.len(),
{
    if ms.len() > 0 {
        lemma_body_ok_forall(ms.drop_last());
        if body_ok_rec(ms.drop_last()) && el_ok(ms.last()) {
            assert forall|i: int| 0 <= i < ms.len() implies el_ok(#[trigger] ms[i]) by {
                if i < ms.len() - 1 {
                    assert(ms.drop_last()[i] == ms[i]);
                }
            }
        }
        if !body_ok_rec(ms.drop_last()) {
            let i = choose|i: int|
                0 <= i < ms.drop_last().len() && !el_ok(#[trigger] ms.drop_last()[i]);
            assert(ms[i] == ms.drop_last()[i]);
        }
    }
}

/// A body extended by one child appends that child's frame.
pub proof fn lemma_cat_snoc(ms: Seq<FieldModel>, m: FieldModel)
    ensures
        cat_bytes(ms.push(m)) == cat_bytes(ms) + el_bytes(m),
        body_ok_rec(ms.push(m)) == (body_ok_rec(ms) && el_ok(m)),
{
    assert(ms.push(m).drop_last() =~= ms);
    assert(ms.push(m).last() == m);
}

/// Insert a field into a run already in emission order, scanning from the
/// rear.
pub open spec fn insert_sorted(m: FieldModel, s: Seq<FieldModel>) -> Seq<FieldModel>
    decreases s.len(),
{
    if s.len() == 0 {
        seq![m]
    } else if field_le(s.last(), m) {
        s.push(m)
    } else {
        insert_sorted(m, s.drop_last()).push(s.last())
    }
}

/// The emission order of a run of fields: each inserted in turn.
pub open spec fn sort_fields_spec(s: Seq<FieldModel>) -> Seq<FieldModel>
    decreases s.len(),
{
    if s.len() == 0 {
        Seq::empty()
    } else {
        insert_sorted(s.last(), sort_fields_spec(s.drop_last()))
    }
}

/// Where the rear scan stops, the insertion splits the run there.
pub proof fn lemma_insert_sorted_at(m: FieldModel, s: Seq<FieldModel>, p: int)
    requires
        0 <= p <= s.len(),
        p > 0 ==> field_le(s[p - 1], m),
        forall|k: int| p <= k < s.len() ==> !field_le(#[trigger] s[k], m),
    ensures
        insert_sorted(m, s) == s.take(p) + seq![m] + s.skip(p),
    decreases s.len(),
{
    if s.len() == 0 {
        assert(insert_sorted(m, s) =~= s.take(0) + seq![m] + s.skip(0));
    } else if p == s.len() {
        assert(field_le(s.last(), m));
        assert(s.push(m) =~= s.take(p) + seq![m] + s.skip(p));
    } else {
        assert(!field_le(s[s.len() - 1], m));
        let t = s.drop_last();
        assert(forall|k: int|
            p <= k < t.len() ==> !field_le(#[trigger] t[k], m) && t[k] == s[k]);
        if p > 0 {
            assert(t[p - 1] == s[p - 1]);
        }
        lemma_insert_sorted_at(m, t, p);
        assert(insert_sorted(m, s) == (t.take(p) + seq![m] + t.skip(p)).push(s.last()));
        assert((t.take(p) + seq![m] + t.skip(p)).push(s.last()) =~= s.take(p) + seq![m] + s.skip(
            p,
        ));
    }
}

/// What the insertion preserves: contents, and the adjacent order of a run
/// that was already ordered.
pub proof fn lemma_insert_sorted_props(m: FieldModel, s: Seq<FieldModel>)
    requires
        adjacent_ordered(s),
    ensures
        adjacent_ordered(insert_sorted(m, s)),
        insert_sorted(m, s).to_multiset() == s.push(m).to_multiset(),
    decreases s.len(),
{
    vstd::seq_lib::lemma_multiset_commutative(s, seq![m]);
    if s.len() == 0 {
        assert(s.push(m) =~= seq![m]);
    } else if field_le(s.last(), m) {
    } else {
        let t = s.drop_last();
        assert(adjacent_ordered(t)) by {
            assert(forall|i: int|
                0 <= i < t.len() - 1 ==> field_le(#[trigger] t[i], t[i + 1]) && t[i] == s[i] && t[i
                    + 1] == s[i + 1]);
        }
        lemma_insert_sorted_props(m, t);
        let u = insert_sorted(m, t);
        let r = u.push(s.last());
        assert(u.len() == t.len() + 1) by {
            vstd::seq_lib::lemma_multiset_commutative(t, seq![m]);
            assert(u.to_multiset().len() == t.push(m).to_multiset().len());
            u.to_multiset_ensures();
            t.push(m).to_multiset_ensures();
        }
        assert(u.last() == m || (t.len() > 0 && u.last() == t.last())) by {
            if t.len() > 0 {
                lemma_insert_sorted_last(m, t);
            } else {
                assert(u =~= seq![m]);
            }
        }
        lemma_field_le_total(s.last(), m);
        assert(adjacent_ordered(r)) by {
            assert(forall|i: int| 0 <= i < u.len() - 1 ==> field_le(#[trigger] r[i], r[i + 1]));
        }
        assert(r.to_multiset() == s.push(m).to_multiset()) by {
            assert(u.to_multiset() == t.push(m).to_multiset());
            u.to_multiset_ensures();
            t.push(m).to_multiset_ensures();
            assert(r.to_multiset() == u.to_multiset().insert(s.last()));
            assert(s.push(m).to_multiset() == t.push(m).to_multiset().insert(s.last())) by {
                lemma_push_twice_multiset(t, m, s);
            }
        }
    }
}

/// The last element after an insertion is the new field or the old last.
proof fn lemma_insert_sorted_last(m: FieldModel, s: Seq<FieldModel>)
    requires
        s.len() > 0,
    ensures
        insert_sorted(m, s).last() == m || insert_sorted(m, s).last() == s.last(),
        field_le(s.last(), insert_sorted(m, s).last()) || field_le(m, insert_sorted(m, s).last()),
{
    lemma_field_le_total(s.last(), m);
}

/// Pushing the same element on two content-equal runs keeps them
/// content-equal.
proof fn lemma_push_twice_multiset(t: Seq<FieldModel>, m: FieldModel, s: Seq<FieldModel>)
    requires
        s.len() > 0,
        s.drop_last() == t,
    ensures
        s.push(m).to_multiset() == t.push(m).to_multiset().insert(s.last()),
{
    let x = s.last();
    assert(s =~= t.push(x));
    vstd::seq_lib::lemma_multiset_commutative(t, seq![x, m]);
    vstd::seq_lib::lemma_multiset_commutative(t, seq![m, x]);
    assert(t + seq![x, m] =~= t.push(x).push(m));
    assert(t + seq![m, x] =~= t.push(m).push(x));
    assert(seq![x, m].to_multiset() == seq![m, x].to_multiset()) by {
        lemma_two_multiset(x, m);
    }
    t.push(m).to_multiset_ensures();
}

/// Two-element runs have the same contents in either order.
proof fn lemma_two_multiset(a: FieldModel, b: FieldModel)
    ensures
        seq![a, b].to_multiset() == seq![b, a].to_multiset(),
{
    let s1 = seq![a, b];
    let s2 = seq![b, a];
    assert(s1 =~= seq![a].push(b));
    assert(s2 =~= seq![b].push(a));
    assert(seq![a] =~= Seq::<FieldModel>::empty().push(a));
    assert(seq![b] =~= Seq::<FieldModel>::empty().push(b));
    seq![a].to_multiset_ensures();
    seq![b].to_multiset_ensures();
    Seq::<FieldModel>::empty().to_multiset_ensures();
    vstd::multiset::Multiset::<FieldModel>::empty().insert(a);
    assert(Seq::<FieldModel>::empty().to_multiset() =~= vstd::multiset::Multiset::empty());
    assert(s1.to_multiset() =~= s2.to_multiset());
}

/// Whether each adjacent pair of a run is in emission order.
pub open spec fn adjacent_ordered(s: Seq<FieldModel>) -> bool {
    forall|i: int| 0 <= i < s.len() - 1 ==> field_le(#[trigger] s[i], s[i + 1])
}

/// What the emission order guarantees: the sorted run has the same contents,
/// and each adjacent pair is ordered.
pub proof fn lemma_sort_fields_spec_props(s: Seq<FieldModel>)
    ensures
        adjacent_ordered(sort_fields_spec(s)),
        sort_fields_spec(s).to_multiset() == s.to_multiset(),
        sort_fields_spec(s).len() == s.len(),
    decreases s.len(),
{
    s.to_multiset_ensures();
    sort_fields_spec(s).to_multiset_ensures();
    if s.len() == 0 {
    } else {
        let t = s.drop_last();
        lemma_sort_fields_spec_props(t);
        lemma_insert_sorted_props(s.last(), sort_fields_spec(t));
        t.to_multiset_ensures();
        sort_fields_spec(t).to_multiset_ensures();
        assert(sort_fields_spec(t).push(s.last()).to_multiset() == sort_fields_spec(
            t,
        ).to_multiset().insert(s.last()));
        assert(s =~= t.push(s.last()));
        assert(t.push(s.last()).to_multiset() == t.to_multiset().insert(s.last()));
    }
}

/// The models of a run of owned children, in the run's order.
pub open spec fn models_of<F: EbmlField>(s: Seq<F>) -> Seq<FieldModel> {
    s.map_values(|f: F| f.model())
}

/// What each owned child of a structural element offers the generic
/// machinery: its model, and the ordering key read back from the value.
pub trait EbmlField: Sized {
    /// The child's model.
    spec fn model(&self) -> FieldModel;

    /// The ordering slots: the explicit position and the secondary key.
    fn sort_key(&self) -> (r: (Option<u64>, u64))
        ensures
            r.0 == self.model().idx(),
            r.1 == self.model().key(),
    ;
}

/// Whether `a` comes no later than `b` in emission order.
fn field_le_exec<F: EbmlField>(a: &F, b: &F) -> (r: bool)
    ensures
        r == field_le(a.model(), b.model()),
{
    let ka = a.sort_key();
    let kb = b.sort_key();
    match (ka.0, kb.0) {
        (Some(ia), Some(ib)) => {
            if ia != ib {
                ia <= ib
            } else {
                ka.1 <= kb.1
            }
        },
        _ => ka.1 <= kb.1,
    }
}

/// Insert one field into a vector already in emission order, scanning from
/// the rear.
#[verifier::loop_isolation(false)]
fn insert_field<F: EbmlField>(out: &mut Vec<F>, x: F)
    ensures
        models_of(final(out)@) == insert_sorted(x.model(), models_of(old(out)@)),
{
    let ghost s = models_of(out@);
    let mut j: usize = out.len();
    while j > 0
        invariant
            j <= out.len(),
            forall|k: int| j <= k < s.len() ==> !field_le(#[trigger] s[k], x.model()),
        decreases j,
    {
        if field_le_exec(&out[j - 1], &x) {
            break ;
        }
        proof {
            assert(s[j - 1] == out@[j - 1].model());
        }
        j = j - 1;
    }
    proof {
        if j > 0 {
            assert(s[j - 1] == out@[j - 1].model());
        }
        lemma_insert_sorted_at(x.model(), s, j as int);
    }
    let ghost xm = x.model();
    out.insert(j, x);
    proof {
        let t = models_of(out@);
        assert(t =~= s.take(j as int) + seq![xm] + s.skip(j as int));
    }
}

/// Arrange a run of fields in emission order.
#[verifier::loop_isolation(false)]
pub fn sort_fields<F: EbmlField>(v: Vec<F>) -> (r: Vec<F>)
    ensures
        models_of(r@) == sort_fields_spec(models_of(v@)),
{
    let ghost orig = models_of(v@);
    let mut input = v;
    let mut out: Vec<F> = Vec::new();
    let ghost mut done: int = 0;
    while input.len() > 0
        invariant
            0 <= done <= orig.len(),
            models_of(input@) == orig.skip(done),
            models_of(out@) == sort_fields_spec(orig.take(done)),
        decreases input@.len(),
    {
        let ghost prev = input@;
        let x = input.remove(0);
        proof {
            let rest = orig.skip(done);
            assert(models_of(prev)[0] == x.model());
            assert(x.model() == rest[0]);
            assert(prev.remove(0) =~= prev.skip(1));
            assert(models_of(input@) =~= models_of(prev).skip(1));
            assert(models_of(prev).skip(1) =~= orig.skip(done + 1));
            assert(orig.take(done + 1).drop_last() =~= orig.take(done));
            assert(orig.take(done + 1).last() == orig[done]);
            assert(orig[done] == rest[0]);
        }
        insert_field(&mut out, x);
        proof {
            done = done + 1;
        }
    }
    proof {
        assert(orig.take(orig.len() as int) =~= orig);
        assert(models_of(input@).len() == 0);
        assert(orig.skip(done).len() == orig.len() - done);
    }
    out
}

} // verus!
