//! The library's general guarantees, each proved once and for all inputs:
//! the round trips of the primitive codecs and the width boundaries of the
//! variable-size integer encoding.

use vstd::prelude::*;

use crate::bytes::{be_bytes, be_val, lemma_be_bytes_len, lemma_be_val_be_bytes, lemma_pow256_pos,
    lemma_pow256_values, pow256};
use crate::io::{eid_ok, eid_val, int_bytes, int_len, lemma_be_bytes_first, lemma_div_bounds,
    lemma_int_round_trip, lemma_marker_split, lemma_sign_split, lemma_uint_round_trip,
    lemma_vint_round_trip, min_vint_width, raw_reserved, sign_bound, sint_from_be, twos_val,
    uint_bytes, uint_len, vint_bytes, vint_len, vint_marker, vint_ok, vint_raw, width_marker};

verus! {

/// Reading back the shortest VINT encoding of any encodable value yields the
/// value, consuming exactly the minimal width.  This is the promise that
/// `read_vint` after `gen_vint` recovers `(v, min_width_in_bytes(v))`.
pub proof fn vint_round_trip(v: u64)
    requires
        v < 0xFFFFFFFFFFFFFF,
    ensures
        vint_bytes(v).len() == min_vint_width(v),
        vint_ok(vint_bytes(v), 0),
        vint_len(vint_bytes(v), 0) == min_vint_width(v),
        vint_raw(vint_bytes(v), 0) == v,
{
    lemma_vint_round_trip(v);
}

/// A value whose payload bits are all ones at one width takes the next width
/// up, and the largest width has nowhere to go: the eight-byte all-ones value
/// is not encodable at all.
pub proof fn vint_boundary_widths(k: int)
    requires
        1 <= k < 8,
    ensures
        min_vint_width((vint_marker(k) - 1) as u64) == k + 1,
        min_vint_width((vint_marker(8) - 1) as u64) == 9,
{
}

/// Whether a numeric element ID is a canonically encoded VINT: its minimal
/// big-endian bytes carry the marker bit in the right position, and its
/// payload bits are neither all zeros nor all ones at any width.
pub open spec fn canonical_id(id: u64) -> bool {
    let w = uint_len(id);
    &&& 1 <= w <= 8
    &&& vint_marker(w) < id
    &&& id < 2 * vint_marker(w) - 1
    &&& !raw_reserved((id - vint_marker(w)) as nat)
}

/// Reading back the canonical encoding of an element ID yields the ID and its
/// byte length.  This is the promise that `read_element_id` after
/// `gen_element_id_size` recovers `(id, id_len)` for the schema's IDs.
pub proof fn element_id_round_trip(id: u64)
    requires
        canonical_id(id),
    ensures
        uint_bytes(id).len() == uint_len(id),
        eid_ok(uint_bytes(id), 0),
        vint_len(uint_bytes(id), 0) == uint_len(id),
        eid_val(uint_bytes(id), 0) == id,
{
    let w = uint_len(id);
    lemma_uint_round_trip(id);
    lemma_pow256_values();
    let s = uint_bytes(id);
    lemma_be_bytes_first(id as nat, w as nat);
    let p = pow256((w - 1) as nat);
    let wm = width_marker(w) as nat;
    lemma_marker_split(w);
    lemma_pow256_pos((w - 1) as nat);
    assert((2 * wm) * p == 2 * (wm * p)) by (nonlinear_arith);
    assert(wm * p <= id && id < (2 * wm) * p);
    lemma_div_bounds(id as nat, p, wm, 2 * wm);
    assert((id as nat / p) % 256 == id as nat / p) by {
        vstd::arithmetic::div_mod::lemma_small_mod(id as nat / p, 256);
    }
    assert(s[0] == id as nat / p);
    assert(vint_len(s, 0) == w);
    assert(s.subrange(0, w) =~= s);
    assert(vint_raw(s, 0) == id - vint_marker(w));
}

/// Reading back the minimal unsigned encoding yields the value; in
/// particular, zero encodes to the empty payload and a zero-length payload
/// decodes to zero.
pub proof fn uint_round_trip(v: u64)
    ensures
        uint_bytes(v).len() == uint_len(v),
        be_val(uint_bytes(v)) == v,
        v == 0 ==> uint_bytes(v).len() == 0,
        be_val(Seq::<u8>::empty()) == 0,
{
    lemma_uint_round_trip(v);
}

/// Reading back the minimal signed encoding, sign-extended from the top bit,
/// yields the value.
pub proof fn int_round_trip(v: i64)
    ensures
        int_bytes(v).len() == int_len(v),
        sint_from_be(int_bytes(v)) == v,
        sint_from_be(Seq::<u8>::empty()) == 0,
{
    lemma_int_round_trip(v);
}

/// Reading back a float payload yields the written bit pattern exactly, for
/// both widths.
pub proof fn float_bits_round_trip(bits32: u32, bits64: u64)
    ensures
        be_bytes(bits32 as nat, 4).len() == 4,
        be_val(be_bytes(bits32 as nat, 4)) == bits32,
        be_bytes(bits64 as nat, 8).len() == 8,
        be_val(be_bytes(bits64 as nat, 8)) == bits64,
{
    lemma_pow256_values();
    lemma_be_bytes_len(bits32 as nat, 4);
    lemma_be_val_be_bytes(bits32 as nat, 4);
    vstd::arithmetic::div_mod::lemma_small_mod(bits32 as nat, pow256(4));
    lemma_be_bytes_len(bits64 as nat, 8);
    lemma_be_val_be_bytes(bits64 as nat, 8);
    vstd::arithmetic::div_mod::lemma_small_mod(bits64 as nat, pow256(8));
}

/// Reading back the fixed eight-byte date payload yields the written
/// nanosecond offset exactly, for every instant.
pub proof fn date_round_trip(ns: i64)
    ensures
        be_bytes(twos_val(ns, 8), 8).len() == 8,
        sint_from_be(be_bytes(twos_val(ns, 8), 8)) == ns,
{
    let t = twos_val(ns, 8);
    lemma_pow256_values();
    lemma_sign_split(8);
    assert(t < pow256(8));
    lemma_be_bytes_len(t, 8);
    lemma_be_val_be_bytes(t, 8);
    vstd::arithmetic::div_mod::lemma_small_mod(t, pow256(8));
    let s = be_bytes(t, 8);
    assert(be_val(s) == t);
    lemma_be_bytes_first(t, 8);
    let p = pow256(7);
    lemma_pow256_pos(7);
    if ns >= 0 {
        assert(t < (0x80 as nat) * p);
        lemma_div_bounds(t, p, 0, 0x80);
        vstd::arithmetic::div_mod::lemma_small_mod(t / p, 256);
        assert(s[0] < 0x80);
    } else {
        assert((0x80 as nat) * p <= t && t < (0x100 as nat) * p) by (nonlinear_arith)
            requires
                sign_bound(8) <= t < pow256(8),
                sign_bound(8) == (0x80 as nat) * p,
                pow256(8) == 2 * sign_bound(8),
        ;
        lemma_div_bounds(t, p, 0x80, 0x100);
        vstd::arithmetic::div_mod::lemma_small_mod(t / p, 256);
        assert(s[0] >= 0x80);
    }
}

/// Reading back the UTF-8 encoding of any text yields the text: what
/// `read_utf8` returns after `write_el_utf8`, and `read_string` after
/// `write_el_string`.
pub proof fn text_round_trip(s: Seq<char>)
    ensures
        vstd::utf8::valid_utf8(vstd::utf8::encode_utf8(s)),
        vstd::utf8::decode_utf8(vstd::utf8::encode_utf8(s)) == s,
{
    vstd::utf8::encode_utf8_valid_utf8(s);
    vstd::utf8::encode_utf8_decode_utf8(s);
}

/// Every element ID the schema carries is a canonically encoded VINT, so
/// each one survives the write-then-read round trip -- with one exception:
/// the ID whose payload bits are all zeros, which the reader rejects at any
/// width by the reserved-pattern rule.
#[verifier::rlimit(100)]
#[verifier::spinoff_prover]
pub proof fn schema_ids_are_canonical(k: crate::ids::EbmlId)
    requires
        k != crate::ids::EbmlId::ChapterDisplay,
    ensures
        canonical_id(k.spec_u64()),
{
}

/// Two structural values with the same children write byte-for-byte the same
/// body: in particular, a value and its `duplicate` serialise identically.
pub proof fn equal_models_write_equal_bytes(a: Seq<crate::model::FieldModel>, b: Seq<
    crate::model::FieldModel,
>)
    requires
        a == b,
    ensures
        crate::model::cat_bytes(crate::model::sort_fields_spec(a)) == crate::model::cat_bytes(
            crate::model::sort_fields_spec(b),
        ),
{
}

} // verus!
