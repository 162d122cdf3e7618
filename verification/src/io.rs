//! The primitive EBML codec: variable-size integers (VINTs), element IDs and
//! sizes, and the typed payload codecs, over in-memory byte buffers.

use vstd::prelude::*;

use crate::bytes::{be_bytes, be_bytes_exec, be_val, lemma_be_bytes_len, lemma_be_val_be_bytes,
    lemma_be_val_bound, lemma_pow256_increases, lemma_pow256_pos, lemma_pow256_unfold,
    lemma_pow256_values, pow256};
use crate::errors::MatroskaError;
use crate::ids::EbmlId;
use crate::{ElementSize, FloatValue, MkvDate};

verus! {

/// The one-byte reserved size pattern that denotes an unknown extent.
pub const SIZE_UNKNOWN: u64 = 0x7F;

/// The largest value a VINT can encode: seven payload bytes, all bits set.
pub const VINT_MAX: u64 = 0xFFFFFFFFFFFFFF;

/// The marker-bit contribution of a `w`-byte VINT to its big-endian value:
/// `2^(7w)`.
pub open spec fn vint_marker(w: int) -> nat {
    if w == 1 {
        0x80
    } else if w == 2 {
        0x4000
    } else if w == 3 {
        0x200000
    } else if w == 4 {
        0x10000000
    } else if w == 5 {
        0x800000000
    } else if w == 6 {
        0x40000000000
    } else if w == 7 {
        0x2000000000000
    } else if w == 8 {
        0x100000000000000
    } else {
        0
    }
}

/// The marker bit as it appears in the first byte of a `w`-byte VINT.
pub open spec fn width_marker(w: int) -> u8 {
    if w == 1 {
        0x80
    } else if w == 2 {
        0x40
    } else if w == 3 {
        0x20
    } else if w == 4 {
        0x10
    } else if w == 5 {
        0x08
    } else if w == 6 {
        0x04
    } else if w == 7 {
        0x02
    } else if w == 8 {
        0x01
    } else {
        0
    }
}

/// The width, in bytes, that a VINT's first byte announces; 0 for the invalid
/// all-zero first byte.
pub open spec fn first_byte_width(b: u8) -> int {
    if b >= 0x80 {
        1
    } else if b >= 0x40 {
        2
    } else if b >= 0x20 {
        3
    } else if b >= 0x10 {
        4
    } else if b >= 0x08 {
        5
    } else if b >= 0x04 {
        6
    } else if b >= 0x02 {
        7
    } else if b >= 0x01 {
        8
    } else {
        0
    }
}

/// Whether a whole VINT can be read from `s` at `pos`.
pub open spec fn vint_ok(s: Seq<u8>, pos: int) -> bool {
    &&& 0 <= pos < s.len()
    &&& s[pos] != 0
    &&& pos + first_byte_width(s[pos]) <= s.len()
}

/// The byte length of the VINT at `pos`.
pub open spec fn vint_len(s: Seq<u8>, pos: int) -> int {
    first_byte_width(s[pos])
}

/// The payload value of the VINT at `pos`: its big-endian value with the
/// marker bit removed.
pub open spec fn vint_raw(s: Seq<u8>, pos: int) -> nat {
    (be_val(s.subrange(pos, pos + vint_len(s, pos))) - vint_marker(vint_len(s, pos))) as nat
}

/// The smallest width whose payload bits can hold `v` without being all ones;
/// 9 if no width can.
pub open spec fn min_vint_width(v: u64) -> int {
    if v < 0x7F {
        1
    } else if v < 0x3FFF {
        2
    } else if v < 0x1FFFFF {
        3
    } else if v < 0xFFFFFFF {
        4
    } else if v < 0x7FFFFFFFF {
        5
    } else if v < 0x3FFFFFFFFFF {
        6
    } else if v < 0x1FFFFFFFFFFFF {
        7
    } else if v < 0xFFFFFFFFFFFFFF {
        8
    } else {
        9
    }
}

/// The shortest legal VINT encoding of `v`.
pub open spec fn vint_bytes(v: u64) -> Seq<u8> {
    be_bytes((v + vint_marker(min_vint_width(v))) as nat, min_vint_width(v) as nat)
}

/// The two marker tables agree: the first-byte marker times the positional
/// weight of the first byte is the marker's contribution to the value.
pub proof fn lemma_marker_split(w: int)
    requires
        1 <= w <= 8,
    ensures
        (width_marker(w) as nat) * pow256((w - 1) as nat) == vint_marker(w),
        2 * vint_marker(w) <= pow256(w as nat),
{
    lemma_pow256_values();
    if w == 1 {
        assert((0x80 as nat) * pow256(0) == 0x80);
    } else if w == 2 {
        assert((0x40 as nat) * pow256(1) == 0x4000);
    } else if w == 3 {
        assert((0x20 as nat) * pow256(2) == 0x200000);
    } else if w == 4 {
        assert((0x10 as nat) * pow256(3) == 0x10000000);
    } else if w == 5 {
        assert((0x08 as nat) * pow256(4) == 0x800000000);
    } else if w == 6 {
        assert((0x04 as nat) * pow256(5) == 0x40000000000);
    } else if w == 7 {
        assert((0x02 as nat) * pow256(6) == 0x2000000000000);
    } else {
        assert((0x01 as nat) * pow256(7) == 0x100000000000000);
    }
}

/// Bounds on a quotient from bounds on the dividend.
pub proof fn lemma_div_bounds(u: nat, p: nat, lo: nat, hi: nat)
    requires
        p >= 1,
        lo * p <= u,
        u < hi * p,
    ensures
        lo <= u / p < hi,
{
    assert(lo <= u / p < hi) by (nonlinear_arith)
        requires
            p >= 1,
            lo * p <= u,
            u < hi * p,
    ;
}

/// The first byte of a big-endian byte string is the high-order quotient.
pub proof fn lemma_be_bytes_first(v: nat, n: nat)
    requires
        n >= 1,
    ensures
        be_bytes(v, n)[0] == ((v / pow256((n - 1) as nat)) % 256) as u8,
    decreases n,
{
    lemma_be_bytes_len(v, n);
    if n == 1 {
        assert(pow256(0) == 1);
        assert(v / 1 == v) by (nonlinear_arith);
    } else {
        let m = (n - 1) as nat;
        lemma_be_bytes_first(v / 256, m);
        lemma_be_bytes_len(v / 256, m);
        assert(be_bytes(v, n)[0] == be_bytes(v / 256, m)[0]);
        lemma_pow256_pos((m - 1) as nat);
        vstd::arithmetic::div_mod::lemma_div_denominator(
            v as int,
            256,
            pow256((m - 1) as nat) as int,
        );
        assert(256 * pow256((m - 1) as nat) == pow256(m));
    }
}

/// The exact shape of the shortest VINT encoding: its length, its first byte's
/// announced width, and the payload value it decodes to.
pub proof fn lemma_vint_round_trip(v: u64)
    requires
        v < 0xFFFFFFFFFFFFFF,
    ensures
        vint_bytes(v).len() == min_vint_width(v),
        vint_ok(vint_bytes(v), 0),
        vint_len(vint_bytes(v), 0) == min_vint_width(v),
        vint_raw(vint_bytes(v), 0) == v,
{
    let w = min_vint_width(v);
    let u = (v + vint_marker(w)) as nat;
    lemma_pow256_values();
    lemma_be_bytes_len(u, w as nat);
    lemma_be_val_be_bytes(u, w as nat);
    assert(u < pow256(w as nat));
    assert(u % pow256(w as nat) == u) by {
        vstd::arithmetic::div_mod::lemma_small_mod(u, pow256(w as nat));
    }
    let s = vint_bytes(v);
    assert(be_val(s) == u);
    lemma_be_bytes_first(u, w as nat);
    let p = pow256((w - 1) as nat);
    let wm = width_marker(w) as nat;
    lemma_marker_split(w);
    assert((2 * wm) * p == 2 * (wm * p)) by (nonlinear_arith);
    assert(wm * p <= u && u < (2 * wm) * p);
    lemma_div_bounds(u, p, wm, 2 * wm);
    assert((u / p) % 256 == u / p) by {
        vstd::arithmetic::div_mod::lemma_small_mod(u / p, 256);
    }
    assert(s[0] == u / p);
    assert(first_byte_width(s[0]) == w);
    assert(s.subrange(0, w) =~= s);
}

/// Read one variable-size integer.  Returns its payload value (marker bit
/// excluded) and the number of bytes consumed.
pub fn read_vint(bytes: &[u8], pos: usize) -> (r: Result<(u64, u64), MatroskaError>)
    ensures
        r is Ok <==> vint_ok(bytes@, pos as int),
        r is Ok ==> r->Ok_0.0 == vint_raw(bytes@, pos as int) && r->Ok_0.1 == vint_len(
            bytes@,
            pos as int,
        ),
        pos < bytes@.len() && bytes@[pos as int] == 0 ==> r == Err::<(u64, u64), MatroskaError>(
            MatroskaError::InvalidVarInt,
        ),
        r is Err && !(pos < bytes@.len() && bytes@[pos as int] == 0) ==> r == Err::<
            (u64, u64),
            MatroskaError,
        >(MatroskaError::Io),
{
    if pos >= bytes.len() {
        return Err(MatroskaError::Io);
    }
    let first = bytes[pos];
    let width: usize = if first >= 0x80 {
        1
    } else if first >= 0x40 {
        2
    } else if first >= 0x20 {
        3
    } else if first >= 0x10 {
        4
    } else if first >= 0x08 {
        5
    } else if first >= 0x04 {
        6
    } else if first >= 0x02 {
        7
    } else if first >= 0x01 {
        8
    } else {
        return Err(MatroskaError::InvalidVarInt);
    };
    let blen = bytes.len();
    if blen - pos < width {
        return Err(MatroskaError::Io);
    }
    proof {
        lemma_pow256_values();
        reveal_with_fuel(be_val, 2);
        let sub1 = bytes@.subrange(pos as int, pos + 1);
        assert(sub1.len() == 1);
        assert(sub1.drop_last() =~= Seq::<u8>::empty());
        assert(sub1.last() == first);
        assert(be_val(sub1) == first);
    }
    let mut val: u64 = first as u64;
    let mut i: usize = 1;
    while i < width
        invariant
            1 <= i <= width <= 8,
            pos + width <= blen,
            blen == bytes@.len(),
            width == first_byte_width(first),
            first == bytes@[pos as int],
            val == be_val(bytes@.subrange(pos as int, pos + i)),
            val >= (first as nat) * pow256((i - 1) as nat),
            val < pow256(i as nat),
        decreases width - i,
    {
        let b = bytes[pos + i];
        proof {
            lemma_pow256_values();
            let sub = bytes@.subrange(pos as int, pos + i);
            let sub2 = bytes@.subrange(pos as int, pos + i + 1);
            assert(sub2.drop_last() =~= sub);
            assert(sub2.last() == b);
            assert((first as nat) * pow256(i as nat) == ((first as nat) * pow256(
                (i - 1) as nat,
            )) * 256) by (nonlinear_arith)
                requires
                    pow256(i as nat) == 256 * pow256((i - 1) as nat),
            ;
        }
        val = val * 256 + (b as u64);
        i += 1;
    }
    proof {
        lemma_pow256_values();
        let sub = bytes@.subrange(pos as int, pos + width);
        assert(val == be_val(sub));
        assert((first as nat) * pow256((width - 1) as nat) >= (width_marker(width as int) as nat)
            * pow256((width - 1) as nat)) by (nonlinear_arith)
            requires
                first >= width_marker(width as int),
                pow256((width - 1) as nat) >= 0,
        ;
        assert(val >= vint_marker(width as int));
    }
    let marker: u64 = match width {
        1 => 0x80,
        2 => 0x4000,
        3 => 0x200000,
        4 => 0x10000000,
        5 => 0x800000000,
        6 => 0x40000000000,
        7 => 0x2000000000000,
        _ => 0x100000000000000,
    };
    Ok((val - marker, width as u64))
}

/// Write the shortest legal VINT for `v`: the width is the smallest whose
/// payload bits hold `v` without being all ones; values above `VINT_MAX - 1`
/// are rejected.
pub fn gen_vint(val: u64) -> (r: Result<Vec<u8>, MatroskaError>)
    ensures
        r is Ok <==> val < 0xFFFFFFFFFFFFFF,
        r is Ok ==> r->Ok_0@ == vint_bytes(val) && r->Ok_0@.len() == min_vint_width(val),
        r is Err ==> r == Err::<Vec<u8>, MatroskaError>(
            MatroskaError::InvalidVarIntMoreThanVintMax(val),
        ),
{
    let (width, marker): (usize, u64) = if val < 0x7F {
        (1, 0x80)
    } else if val < 0x3FFF {
        (2, 0x4000)
    } else if val < 0x1FFFFF {
        (3, 0x200000)
    } else if val < 0xFFFFFFF {
        (4, 0x10000000)
    } else if val < 0x7FFFFFFFF {
        (5, 0x800000000)
    } else if val < 0x3FFFFFFFFFF {
        (6, 0x40000000000)
    } else if val < 0x1FFFFFFFFFFFF {
        (7, 0x2000000000000)
    } else if val < 0xFFFFFFFFFFFFFF {
        (8, 0x100000000000000)
    } else {
        return Err(MatroskaError::InvalidVarIntMoreThanVintMax(val));
    };
    let r = be_bytes_exec(val + marker, width);
    Ok(r)
}


/// Exec table for [`vint_marker`].
fn vint_marker_exec(w: usize) -> (r: u64)
    requires
        1 <= w <= 8,
    ensures
        r == vint_marker(w as int),
{
    match w {
        1 => 0x80,
        2 => 0x4000,
        3 => 0x200000,
        4 => 0x10000000,
        5 => 0x800000000,
        6 => 0x40000000000,
        7 => 0x2000000000000,
        _ => 0x100000000000000,
    }
}

/// Whether a raw VINT payload matches one of the eight reserved all-ones
/// patterns, at any width.
pub open spec fn raw_reserved(v: nat) -> bool {
    ||| v == 0x7F
    ||| v == 0x3FFF
    ||| v == 0x1FFFFF
    ||| v == 0xFFFFFFF
    ||| v == 0x7FFFFFFFF
    ||| v == 0x3FFFFFFFFFF
    ||| v == 0x1FFFFFFFFFFFF
    ||| v == 0xFFFFFFFFFFFFFF
}

/// Whether a well-formed element ID starts at `pos`: a VINT whose payload
/// bits are neither all zeros nor all ones.
pub open spec fn eid_ok(s: Seq<u8>, pos: int) -> bool {
    &&& vint_ok(s, pos)
    &&& vint_raw(s, pos) != 0
    &&& !raw_reserved(vint_raw(s, pos))
}

/// The element ID at `pos`, marker bit included: the full big-endian value of
/// its encoded bytes.
pub open spec fn eid_val(s: Seq<u8>, pos: int) -> u64 {
    (vint_raw(s, pos) + vint_marker(vint_len(s, pos))) as u64
}

/// The element size at `pos`: `Unknown` exactly when the payload bits are all
/// ones at the VINT's own width.
pub open spec fn esize_val(s: Seq<u8>, pos: int) -> ElementSize {
    if vint_raw(s, pos) + 1 == vint_marker(vint_len(s, pos)) {
        ElementSize::Unknown(vint_raw(s, pos) as u64)
    } else {
        ElementSize::Sized(vint_raw(s, pos) as u64)
    }
}

/// The raw payload of a VINT is below its marker contribution, so the full
/// value fits in 64 bits.
proof fn lemma_vint_raw_bound(s: Seq<u8>, pos: int)
    requires
        vint_ok(s, pos),
    ensures
        vint_raw(s, pos) + vint_marker(vint_len(s, pos)) == be_val(
            s.subrange(pos, pos + vint_len(s, pos)),
        ),
        vint_raw(s, pos) + vint_marker(vint_len(s, pos)) < 0x10000000000000000,
{
    let w = vint_len(s, pos);
    let sub = s.subrange(pos, pos + w);
    lemma_be_val_bound(sub);
    lemma_pow256_values();
    lemma_pow256_increases(sub.len() as nat, 8);
    assert(be_val(sub) < pow256(8));
    let first = s[pos];
    assert(sub[0] == first);
    lemma_be_val_split_first(sub);
    assert((first as nat) * pow256((w - 1) as nat) >= (width_marker(w) as nat) * pow256(
        (w - 1) as nat,
    )) by (nonlinear_arith)
        requires
            first >= width_marker(w),
            pow256((w - 1) as nat) >= 0,
    ;
    lemma_marker_split(w);
}

/// A big-endian value splits on its first byte.
proof fn lemma_be_val_split_first(s: Seq<u8>)
    requires
        s.len() >= 1,
    ensures
        be_val(s) == (s[0] as nat) * pow256((s.len() - 1) as nat) + be_val(s.drop_first()),
        be_val(s.drop_first()) < pow256((s.len() - 1) as nat),
    decreases s.len(),
{
    lemma_be_val_bound(s.drop_first());
    if s.len() == 1 {
        assert(s.drop_first() =~= Seq::<u8>::empty());
        reveal_with_fuel(be_val, 2);
        assert(s.drop_last() =~= Seq::<u8>::empty());
        assert(be_val(s) == s[0]);
        assert(pow256(0) == 1);
        assert((s[0] as nat) * 1 == s[0]);
        assert(be_val(s.drop_first()) == 0);
    } else {
        let t = s.drop_last();
        lemma_be_val_split_first(t);
        assert(t[0] == s[0]);
        assert(t.drop_first() =~= s.drop_first().drop_last());
        assert(s.drop_first().last() == s.last());
        let n = s.len();
        lemma_pow256_unfold((n - 1) as nat);
        assert(be_val(s) == be_val(t) * 256 + s.last());
        assert(be_val(t) * 256 == ((s[0] as nat) * pow256((n - 2) as nat) + be_val(t.drop_first()))
            * 256);
        assert(((s[0] as nat) * pow256((n - 2) as nat) + be_val(t.drop_first())) * 256 == (
        s[0] as nat) * (256 * pow256((n - 2) as nat)) + be_val(t.drop_first()) * 256)
            by (nonlinear_arith);
        assert(be_val(s.drop_first()) == be_val(t.drop_first()) * 256 + s.last());
        assert(be_val(s) == (s[0] as nat) * pow256((n - 1) as nat) + be_val(s.drop_first()));
    }
}

/// Read one element ID.  The returned value re-inserts the marker bit, so IDs
/// carry their canonical encoded form; the all-zero and all-ones payload
/// patterns are rejected at every width.
pub fn read_element_id(bytes: &[u8], pos: usize) -> (r: Result<(u64, u64), MatroskaError>)
    ensures
        r is Ok <==> eid_ok(bytes@, pos as int),
        r is Ok ==> r->Ok_0.0 == eid_val(bytes@, pos as int) && r->Ok_0.1 == vint_len(
            bytes@,
            pos as int,
        ),
        pos < bytes@.len() && bytes@[pos as int] == 0 ==> r == Err::<(u64, u64), MatroskaError>(
            MatroskaError::InvalidVarInt,
        ),
        !vint_ok(bytes@, pos as int) && !(pos < bytes@.len() && bytes@[pos as int] == 0) ==> r
            == Err::<(u64, u64), MatroskaError>(MatroskaError::Io),
        vint_ok(bytes@, pos as int) && (vint_raw(bytes@, pos as int) == 0 || raw_reserved(
            vint_raw(bytes@, pos as int),
        )) ==> r == Err::<(u64, u64), MatroskaError>(
            MatroskaError::InvalidID(vint_raw(bytes@, pos as int) as u64),
        ),
{
    let (raw, len) = match read_vint(bytes, pos) {
        Ok(v) => v,
        Err(e) => {
            return Err(e);
        },
    };
    if raw == 0 || raw == 0x7F || raw == 0x3FFF || raw == 0x1FFFFF || raw == 0xFFFFFFF || raw
        == 0x7FFFFFFFF || raw == 0x3FFFFFFFFFF || raw == 0x1FFFFFFFFFFFF || raw
        == 0xFFFFFFFFFFFFFF {
        return Err(MatroskaError::InvalidID(raw));
    }
    proof {
        lemma_vint_raw_bound(bytes@, pos as int);
    }
    let id = raw + vint_marker_exec(len as usize);
    Ok((id, len))
}

/// Read one element size.  The eight reserved all-ones patterns decode to
/// `Unknown`; everything else is `Sized`.
pub fn read_element_size(bytes: &[u8], pos: usize) -> (r: Result<
    (ElementSize, u64),
    MatroskaError,
>)
    ensures
        r is Ok <==> vint_ok(bytes@, pos as int),
        r is Ok ==> r->Ok_0.0 == esize_val(bytes@, pos as int) && r->Ok_0.1 == vint_len(
            bytes@,
            pos as int,
        ),
        pos < bytes@.len() && bytes@[pos as int] == 0 ==> r == Err::<
            (ElementSize, u64),
            MatroskaError,
        >(MatroskaError::InvalidVarInt),
        r is Err && !(pos < bytes@.len() && bytes@[pos as int] == 0) ==> r == Err::<
            (ElementSize, u64),
            MatroskaError,
        >(MatroskaError::Io),
{
    let (raw, len) = match read_vint(bytes, pos) {
        Ok(v) => v,
        Err(e) => {
            return Err(e);
        },
    };
    proof {
        lemma_vint_raw_bound(bytes@, pos as int);
    }
    let marker = vint_marker_exec(len as usize);
    if raw == marker - 1 {
        Ok((ElementSize::Unknown(raw), len))
    } else {
        Ok((ElementSize::Sized(raw), len))
    }
}

/// Whether a whole element header (ID then size) can be read at `pos`: both
/// VINTs are well formed, the ID is in the schema, and an unknown size is
/// carried only by an element the schema allows it for.
pub open spec fn header_ok(s: Seq<u8>, pos: int) -> bool {
    &&& eid_ok(s, pos)
    &&& EbmlId::spec_from_u64(eid_val(s, pos)) is Some
    &&& vint_ok(s, pos + vint_len(s, pos))
    &&& (esize_val(s, pos + vint_len(s, pos)) is Unknown ==> EbmlId::spec_from_u64(
        eid_val(s, pos),
    )->0.spec_unknown_size_allowed())
}

/// The element the header at `pos` names.
pub open spec fn header_id(s: Seq<u8>, pos: int) -> EbmlId {
    EbmlId::spec_from_u64(eid_val(s, pos))->0
}

/// The size the header at `pos` declares.
pub open spec fn header_size(s: Seq<u8>, pos: int) -> ElementSize {
    esize_val(s, pos + vint_len(s, pos))
}

/// The byte length of the header at `pos`.
pub open spec fn header_len(s: Seq<u8>, pos: int) -> int {
    vint_len(s, pos) + vint_len(s, pos + vint_len(s, pos))
}

/// The exact error a failed header read reports.
pub open spec fn header_err(s: Seq<u8>, pos: int) -> MatroskaError {
    if !vint_ok(s, pos) {
        if 0 <= pos < s.len() && s[pos] == 0 {
            MatroskaError::InvalidVarInt
        } else {
            MatroskaError::Io
        }
    } else if vint_raw(s, pos) == 0 || raw_reserved(vint_raw(s, pos)) {
        MatroskaError::InvalidID(vint_raw(s, pos) as u64)
    } else if EbmlId::spec_from_u64(eid_val(s, pos)) is None {
        MatroskaError::InvalidID(eid_val(s, pos))
    } else if !vint_ok(s, pos + vint_len(s, pos)) {
        if 0 <= pos + vint_len(s, pos) < s.len() && s[pos + vint_len(s, pos)] == 0 {
            MatroskaError::InvalidVarInt
        } else {
            MatroskaError::Io
        }
    } else {
        MatroskaError::InvalidSize(header_id(s, pos), header_size(s, pos))
    }
}

/// Read one element header: ID, size, and the bytes both together consumed.
/// An unknown size is an error unless the schema allows it for this ID.
pub fn read_element_id_size(bytes: &[u8], pos: usize) -> (r: Result<
    (EbmlId, ElementSize, u64),
    MatroskaError,
>)
    ensures
        r is Ok <==> header_ok(bytes@, pos as int),
        r is Err ==> r->Err_0 == header_err(bytes@, pos as int),
        r is Ok ==> r->Ok_0.0 == header_id(bytes@, pos as int) && r->Ok_0.1 == header_size(
            bytes@,
            pos as int,
        ) && r->Ok_0.2 == header_len(bytes@, pos as int),
        eid_ok(bytes@, pos as int) && EbmlId::spec_from_u64(eid_val(bytes@, pos as int)) is None
            ==> r == Err::<(EbmlId, ElementSize, u64), MatroskaError>(
            MatroskaError::InvalidID(eid_val(bytes@, pos as int)),
        ),
        eid_ok(bytes@, pos as int) && EbmlId::spec_from_u64(eid_val(bytes@, pos as int)) is Some
            && vint_ok(bytes@, pos + vint_len(bytes@, pos as int)) && header_size(
            bytes@,
            pos as int,
        ) is Unknown && !header_id(bytes@, pos as int).spec_unknown_size_allowed() ==> r == Err::<
            (EbmlId, ElementSize, u64),
            MatroskaError,
        >(
            MatroskaError::InvalidSize(
                header_id(bytes@, pos as int),
                header_size(bytes@, pos as int),
            ),
        ),
{
    let (idv, id_len) = match read_element_id(bytes, pos) {
        Ok(v) => v,
        Err(e) => {
            return Err(e);
        },
    };
    let id = match EbmlId::from_u64(idv) {
        Ok(id) => id,
        Err(e) => {
            return Err(e);
        },
    };
    let blen = bytes.len();
    proof {
        assert(pos + id_len <= blen);
    }
    let (size, size_len) = match read_element_size(bytes, pos + (id_len as usize)) {
        Ok(v) => v,
        Err(e) => {
            return Err(e);
        },
    };
    match size {
        ElementSize::Sized(_) => Ok((id, size, id_len + size_len)),
        ElementSize::Unknown(_) => {
            if id.unknown_size_allowed() {
                Ok((id, size, id_len + size_len))
            } else {
                Err(MatroskaError::InvalidSize(id, size))
            }
        },
    }
}


/// Accumulate `n` big-endian bytes starting at `pos`.
fn read_be(bytes: &[u8], pos: usize, n: usize) -> (r: u64)
    requires
        n <= 8,
        pos + n <= bytes@.len(),
    ensures
        r == be_val(bytes@.subrange(pos as int, pos + n)),
{
    proof {
        lemma_pow256_values();
        assert(bytes@.subrange(pos as int, pos as int) =~= Seq::<u8>::empty());
    }
    let blen = bytes.len();
    let mut val: u64 = 0;
    let mut i: usize = 0;
    while i < n
        invariant
            i <= n <= 8,
            pos + n <= blen,
            blen == bytes@.len(),
            val == be_val(bytes@.subrange(pos as int, pos + i)),
            val < pow256(i as nat),
        decreases n - i,
    {
        let b = bytes[pos + i];
        proof {
            lemma_pow256_values();
            let sub = bytes@.subrange(pos as int, pos + i);
            let sub2 = bytes@.subrange(pos as int, pos + i + 1);
            assert(sub2.drop_last() =~= sub);
            assert(sub2.last() == b);
        }
        val = val * 256 + (b as u64);
        i += 1;
    }
    val
}

/// Read an unsigned integer payload of `size` bytes, big-endian.  A
/// zero-length payload decodes to 0.
pub fn read_uint(bytes: &[u8], pos: usize, size: u64) -> (r: Result<u64, MatroskaError>)
    ensures
        r is Ok <==> size <= 8 && pos + size <= bytes@.len(),
        r is Ok ==> r->Ok_0 == be_val(bytes@.subrange(pos as int, pos + size as int)),
        size > 8 ==> r == Err::<u64, MatroskaError>(MatroskaError::InvalidUint),
        size <= 8 && pos + size > bytes@.len() ==> r == Err::<u64, MatroskaError>(
            MatroskaError::Io,
        ),
{
    if size > 8 {
        return Err(MatroskaError::InvalidUint);
    }
    let n = size as usize;
    let blen = bytes.len();
    if n > blen || pos > blen - n {
        return Err(MatroskaError::Io);
    }
    Ok(read_be(bytes, pos, n))
}

/// The value of a signed integer payload: big-endian two's complement,
/// sign-extended from the most significant bit of the first byte.
pub open spec fn sint_from_be(s: Seq<u8>) -> int {
    if s.len() == 0 {
        0
    } else if s[0] < 0x80 {
        be_val(s) as int
    } else {
        be_val(s) - pow256(s.len() as nat)
    }
}

/// The two's-complement sign threshold of an `n`-byte payload: `2^(8n-1)`.
pub open spec fn sign_bound(n: int) -> nat {
    if n == 1 {
        0x80
    } else if n == 2 {
        0x8000
    } else if n == 3 {
        0x800000
    } else if n == 4 {
        0x80000000
    } else if n == 5 {
        0x8000000000
    } else if n == 6 {
        0x800000000000
    } else if n == 7 {
        0x80000000000000
    } else if n == 8 {
        0x8000000000000000
    } else {
        0
    }
}

/// The sign threshold is the top byte's sign bit times its positional weight.
pub proof fn lemma_sign_split(n: int)
    requires
        1 <= n <= 8,
    ensures
        (0x80 as nat) * pow256((n - 1) as nat) == sign_bound(n),
        2 * sign_bound(n) == pow256(n as nat),
{
    lemma_pow256_values();
    if n == 1 {
        assert((0x80 as nat) * pow256(0) == 0x80);
    } else if n == 2 {
        assert((0x80 as nat) * pow256(1) == 0x8000);
    } else if n == 3 {
        assert((0x80 as nat) * pow256(2) == 0x800000);
    } else if n == 4 {
        assert((0x80 as nat) * pow256(3) == 0x80000000);
    } else if n == 5 {
        assert((0x80 as nat) * pow256(4) == 0x8000000000);
    } else if n == 6 {
        assert((0x80 as nat) * pow256(5) == 0x800000000000);
    } else if n == 7 {
        assert((0x80 as nat) * pow256(6) == 0x80000000000000);
    } else {
        assert((0x80 as nat) * pow256(7) == 0x8000000000000000);
    }
}

/// Exec table for `pow256` up to seven bytes.
fn pow256_exec(n: usize) -> (r: u64)
    requires
        1 <= n <= 7,
    ensures
        r == pow256(n as nat),
{
    proof {
        lemma_pow256_values();
    }
    match n {
        1 => 0x100,
        2 => 0x10000,
        3 => 0x1000000,
        4 => 0x100000000,
        5 => 0x10000000000,
        6 => 0x1000000000000,
        _ => 0x100000000000000,
    }
}

/// Read a signed integer payload of `size` bytes, big-endian two's
/// complement.  A zero-length payload decodes to 0.
pub fn read_int(bytes: &[u8], pos: usize, size: u64) -> (r: Result<i64, MatroskaError>)
    ensures
        r is Ok <==> size <= 8 && pos + size <= bytes@.len(),
        r is Ok ==> r->Ok_0 as int == sint_from_be(bytes@.subrange(pos as int, pos + size as int)),
        size > 8 ==> r == Err::<i64, MatroskaError>(MatroskaError::InvalidUint),
        size <= 8 && pos + size > bytes@.len() ==> r == Err::<i64, MatroskaError>(
            MatroskaError::Io,
        ),
{
    if size > 8 {
        return Err(MatroskaError::InvalidUint);
    }
    let n = size as usize;
    let blen = bytes.len();
    if n > blen || pos > blen - n {
        return Err(MatroskaError::Io);
    }
    if n == 0 {
        proof {
            assert(bytes@.subrange(pos as int, pos as int).len() == 0);
        }
        return Ok(0);
    }
    let u = read_be(bytes, pos, n);
    let b0 = bytes[pos];
    let ghost sub = bytes@.subrange(pos as int, pos + n);
    proof {
        assert(sub[0] == b0);
        lemma_be_val_split_first(sub);
        lemma_be_val_bound(sub);
        lemma_pow256_values();
        lemma_sign_split(n as int);
        assert((b0 as nat) * pow256((n - 1) as nat) <= u < ((b0 as nat) + 1) * pow256(
            (n - 1) as nat,
        )) by (nonlinear_arith)
            requires
                u == (b0 as nat) * pow256((n - 1) as nat) + be_val(sub.drop_first()),
                be_val(sub.drop_first()) < pow256((n - 1) as nat),
        ;
        if b0 < 0x80 {
            assert(((b0 as nat) + 1) * pow256((n - 1) as nat) <= (0x80 as nat) * pow256(
                (n - 1) as nat,
            )) by (nonlinear_arith)
                requires
                    (b0 as nat) + 1 <= 0x80,
                    pow256((n - 1) as nat) >= 0,
            ;
        } else {
            assert((b0 as nat) * pow256((n - 1) as nat) >= (0x80 as nat) * pow256(
                (n - 1) as nat,
            )) by (nonlinear_arith)
                requires
                    b0 >= 0x80,
                    pow256((n - 1) as nat) >= 0,
            ;
        }
    }
    if b0 < 0x80 {
        Ok(u as i64)
    } else if n < 8 {
        let m = pow256_exec(n);
        Ok((u as i64) - (m as i64))
    } else {
        Ok(i64::MIN + ((u - 0x8000000000000000) as i64))
    }
}

/// Read a float payload: exactly four or eight bytes, IEEE-754 big-endian,
/// returned as the raw bit pattern.
pub fn read_float(bytes: &[u8], pos: usize, size: u64) -> (r: Result<FloatValue, MatroskaError>)
    ensures
        r is Ok <==> (size == 4 || size == 8) && pos + size <= bytes@.len(),
        size == 4 && r is Ok ==> r->Ok_0 == FloatValue::F32(
            be_val(bytes@.subrange(pos as int, pos + 4)) as u32,
        ),
        size == 8 && r is Ok ==> r->Ok_0 == FloatValue::F64(
            be_val(bytes@.subrange(pos as int, pos + 8)) as u64,
        ),
        size != 4 && size != 8 ==> r == Err::<FloatValue, MatroskaError>(
            MatroskaError::InvalidFloat,
        ),
        (size == 4 || size == 8) && pos + size > bytes@.len() ==> r == Err::<
            FloatValue,
            MatroskaError,
        >(MatroskaError::Io),
{
    let blen = bytes.len();
    if size == 4 {
        if 4 > blen || pos > blen - 4 {
            return Err(MatroskaError::Io);
        }
        let u = read_be(bytes, pos, 4);
        proof {
            lemma_be_val_bound(bytes@.subrange(pos as int, pos + 4));
            lemma_pow256_values();
        }
        Ok(FloatValue::F32(u as u32))
    } else if size == 8 {
        if 8 > blen || pos > blen - 8 {
            return Err(MatroskaError::Io);
        }
        let u = read_be(bytes, pos, 8);
        Ok(FloatValue::F64(u))
    } else {
        Err(MatroskaError::InvalidFloat)
    }
}

/// Read a date payload: exactly eight bytes, a signed big-endian nanosecond
/// offset from the Matroska epoch.
pub fn read_date(bytes: &[u8], pos: usize, size: u64) -> (r: Result<MkvDate, MatroskaError>)
    ensures
        r is Ok <==> size == 8 && pos + 8 <= bytes@.len(),
        r is Ok ==> r->Ok_0.ns as int == sint_from_be(bytes@.subrange(pos as int, pos + 8)),
        size != 8 ==> r == Err::<MkvDate, MatroskaError>(MatroskaError::InvalidDate),
        size == 8 && pos + 8 > bytes@.len() ==> r == Err::<MkvDate, MatroskaError>(
            MatroskaError::Io,
        ),
{
    if size != 8 {
        return Err(MatroskaError::InvalidDate);
    }
    match read_int(bytes, pos, 8) {
        Ok(ns) => Ok(MkvDate { ns }),
        Err(e) => Err(e),
    }
}

/// Read a raw binary payload of `size` bytes.
pub fn read_bin(bytes: &[u8], pos: usize, size: u64) -> (r: Result<Vec<u8>, MatroskaError>)
    ensures
        r is Ok <==> size <= usize::MAX && pos + size <= bytes@.len(),
        r is Ok ==> r->Ok_0@ == bytes@.subrange(pos as int, pos + size as int),
        r is Err ==> r == Err::<Vec<u8>, MatroskaError>(MatroskaError::Io),
{
    if size > usize::MAX as u64 {
        return Err(MatroskaError::Io);
    }
    let n = size as usize;
    let blen = bytes.len();
    if n > blen || pos > blen - n {
        return Err(MatroskaError::Io);
    }
    let mut out: Vec<u8> = Vec::new();
    let mut i: usize = 0;
    while i < n
        invariant
            i <= n,
            pos + n <= blen,
            blen == bytes@.len(),
            out@ == bytes@.subrange(pos as int, pos + i),
        decreases n - i,
    {
        let b = bytes[pos + i];
        out.push(b);
        proof {
            assert(out@ =~= bytes@.subrange(pos as int, pos + i + 1));
        }
        i += 1;
    }
    Ok(out)
}

/// Relies on `String::from_utf8`: it succeeds exactly on valid UTF-8 and
/// returns the decoded characters.
#[verifier::external_body]
fn bytes_to_utf8(b: Vec<u8>) -> (r: Result<String, MatroskaError>)
    ensures
        r is Ok == vstd::utf8::valid_utf8(b@),
        r is Ok ==> r->Ok_0@ == vstd::utf8::decode_utf8(b@),
        r is Err ==> r->Err_0 == MatroskaError::UTF8,
{
    match String::from_utf8(b) {
        Ok(s) => Ok(s),
        Err(_) => Err(MatroskaError::UTF8),
    }
}

/// Read a text payload of `size` bytes and validate it as UTF-8.
pub fn read_string(bytes: &[u8], pos: usize, size: u64) -> (r: Result<String, MatroskaError>)
    ensures
        r is Ok <==> size <= usize::MAX && pos + size <= bytes@.len() && vstd::utf8::valid_utf8(
            bytes@.subrange(pos as int, pos + size as int),
        ),
        r is Ok ==> r->Ok_0@ == vstd::utf8::decode_utf8(
            bytes@.subrange(pos as int, pos + size as int),
        ),
        !(size <= usize::MAX && pos + size <= bytes@.len()) ==> r == Err::<String, MatroskaError>(
            MatroskaError::Io,
        ),
        size <= usize::MAX && pos + size <= bytes@.len() && !vstd::utf8::valid_utf8(
            bytes@.subrange(pos as int, pos + size as int),
        ) ==> r == Err::<String, MatroskaError>(MatroskaError::UTF8),
{
    let b = match read_bin(bytes, pos, size) {
        Ok(b) => b,
        Err(e) => {
            return Err(e);
        },
    };
    bytes_to_utf8(b)
}

/// Read a UTF-8 text payload of `size` bytes.
pub fn read_utf8(bytes: &[u8], pos: usize, size: u64) -> (r: Result<String, MatroskaError>)
    ensures
        r is Ok <==> size <= usize::MAX && pos + size <= bytes@.len() && vstd::utf8::valid_utf8(
            bytes@.subrange(pos as int, pos + size as int),
        ),
        r is Ok ==> r->Ok_0@ == vstd::utf8::decode_utf8(
            bytes@.subrange(pos as int, pos + size as int),
        ),
        !(size <= usize::MAX && pos + size <= bytes@.len()) ==> r == Err::<String, MatroskaError>(
            MatroskaError::Io,
        ),
        size <= usize::MAX && pos + size <= bytes@.len() && !vstd::utf8::valid_utf8(
            bytes@.subrange(pos as int, pos + size as int),
        ) ==> r == Err::<String, MatroskaError>(MatroskaError::UTF8),
{
    let b = match read_bin(bytes, pos, size) {
        Ok(b) => b,
        Err(e) => {
            return Err(e);
        },
    };
    bytes_to_utf8(b)
}


/// The minimal byte length of an unsigned payload; zero encodes to no bytes.
pub open spec fn uint_len(x: u64) -> int {
    if x == 0 {
        0
    } else if x < 0x100 {
        1
    } else if x < 0x10000 {
        2
    } else if x < 0x1000000 {
        3
    } else if x < 0x100000000 {
        4
    } else if x < 0x10000000000 {
        5
    } else if x < 0x1000000000000 {
        6
    } else if x < 0x100000000000000 {
        7
    } else {
        8
    }
}

/// The minimal big-endian encoding of an unsigned payload.
pub open spec fn uint_bytes(x: u64) -> Seq<u8> {
    be_bytes(x as nat, uint_len(x) as nat)
}

/// Reading back the minimal unsigned encoding yields the value.
pub proof fn lemma_uint_round_trip(x: u64)
    ensures
        uint_bytes(x).len() == uint_len(x),
        be_val(uint_bytes(x)) == x,
{
    lemma_pow256_values();
    lemma_be_bytes_len(x as nat, uint_len(x) as nat);
    lemma_be_val_be_bytes(x as nat, uint_len(x) as nat);
    vstd::arithmetic::div_mod::lemma_small_mod(x as nat, pow256(uint_len(x) as nat));
}

/// Write an unsigned payload in its minimal big-endian form.
pub fn gen_uint(x: u64) -> (r: Vec<u8>)
    ensures
        r@ == uint_bytes(x),
        r@.len() == uint_len(x),
{
    let n: usize = if x == 0 {
        0
    } else if x < 0x100 {
        1
    } else if x < 0x10000 {
        2
    } else if x < 0x1000000 {
        3
    } else if x < 0x100000000 {
        4
    } else if x < 0x10000000000 {
        5
    } else if x < 0x1000000000000 {
        6
    } else if x < 0x100000000000000 {
        7
    } else {
        8
    };
    be_bytes_exec(x, n)
}

/// The minimal byte length of a signed payload, at least one byte.
pub open spec fn int_len(x: i64) -> int {
    if -0x80 <= x < 0x80 {
        1
    } else if -0x8000 <= x < 0x8000 {
        2
    } else if -0x800000 <= x < 0x800000 {
        3
    } else if -0x80000000 <= x < 0x80000000 {
        4
    } else if -0x8000000000 <= x < 0x8000000000 {
        5
    } else if -0x800000000000 <= x < 0x800000000000 {
        6
    } else if -0x80000000000000 <= x < 0x80000000000000 {
        7
    } else {
        8
    }
}

/// The `n`-byte two's-complement representative of `x`.
pub open spec fn twos_val(x: i64, n: int) -> nat {
    if x >= 0 {
        x as nat
    } else {
        (x + pow256(n as nat)) as nat
    }
}

/// The minimal big-endian two's-complement encoding of a signed payload.
pub open spec fn int_bytes(x: i64) -> Seq<u8> {
    be_bytes(twos_val(x, int_len(x)), int_len(x) as nat)
}

/// Two values that agree modulo `256^n` have the same low `n` bytes.
proof fn lemma_be_bytes_mod(v1: nat, v2: nat, n: nat)
    requires
        v1 % pow256(n) == v2 % pow256(n),
    ensures
        be_bytes(v1, n) == be_bytes(v2, n),
    decreases n,
{
    if n > 0 {
        let m = (n - 1) as nat;
        lemma_pow256_pos(m);
        vstd::arithmetic::div_mod::lemma_mod_breakdown(v1 as int, 256, pow256(m) as int);
        vstd::arithmetic::div_mod::lemma_mod_breakdown(v2 as int, 256, pow256(m) as int);
        assert(256 * ((v1 as int / 256) % (pow256(m) as int)) + v1 % 256 == 256 * ((v2 as int
            / 256) % (pow256(m) as int)) + v2 % 256);
        assert((v1 as int / 256) % (pow256(m) as int) == (v2 as int / 256) % (pow256(m) as int)
            && v1 % 256 == v2 % 256) by (nonlinear_arith)
            requires
                256 * ((v1 as int / 256) % (pow256(m) as int)) + v1 % 256 == 256 * ((v2 as int
                    / 256) % (pow256(m) as int)) + v2 % 256,
                0 <= v1 % 256 < 256,
                0 <= v2 % 256 < 256,
        ;
        lemma_be_bytes_mod(v1 / 256, v2 / 256, m);
        assert(be_bytes(v1, n) =~= be_bytes(v2, n));
    } else {
        assert(be_bytes(v1, 0) =~= be_bytes(v2, 0));
    }
}

/// Write a signed payload in its minimal big-endian two's-complement form.
pub fn gen_int(x: i64) -> (r: Vec<u8>)
    ensures
        r@ == int_bytes(x),
        r@.len() == int_len(x),
{
    let n: usize = if -0x80 <= x && x < 0x80 {
        1
    } else if -0x8000 <= x && x < 0x8000 {
        2
    } else if -0x800000 <= x && x < 0x800000 {
        3
    } else if -0x80000000 <= x && x < 0x80000000 {
        4
    } else if -0x8000000000 <= x && x < 0x8000000000 {
        5
    } else if -0x800000000000 <= x && x < 0x800000000000 {
        6
    } else if -0x80000000000000 <= x && x < 0x80000000000000 {
        7
    } else {
        8
    };
    let u: u64 = if x >= 0 {
        x as u64
    } else {
        u64::MAX - ((-(x + 1)) as u64)
    };
    proof {
        lemma_pow256_values();
        lemma_twos_rep(u as nat, x, n as int);
    }
    be_bytes_exec(u, n)
}

/// The 64-bit two's-complement representative agrees with the `n`-byte one
/// modulo `256^n`.
proof fn lemma_twos_rep(v1: nat, x: i64, n: int)
    requires
        1 <= n <= 8,
        x >= 0 ==> v1 == x,
        x < 0 ==> v1 == x + 0x10000000000000000 && x + pow256(n as nat) >= 0,
    ensures
        be_bytes(v1, n as nat) == be_bytes(twos_val(x, n), n as nat),
{
    lemma_pow256_values();
    if x >= 0 {
        assert(v1 == twos_val(x, n));
    } else {
        let v2 = twos_val(x, n);
        assert(v1 == x + pow256(8));
        crate::bytes::lemma_pow256_split(n as nat, (8 - n) as nat);
        let p = pow256(n as nat);
        let k = (pow256((8 - n) as nat) - 1) as int;
        assert(pow256(8) - p == p * k) by (nonlinear_arith)
            requires
                pow256(8) == p * pow256((8 - n) as nat),
                k == pow256((8 - n) as nat) - 1,
        ;
        assert(v1 == v2 + p * k);
        lemma_pow256_pos(n as nat);
        vstd::arithmetic::div_mod::lemma_mod_multiples_vanish(k, v2 as int, p as int);
        assert(((v2 + p * k) as int) % (p as int) == (v2 as int) % (p as int));
        lemma_be_bytes_mod(v1, v2, n as nat);
    }
}

/// Reading back the minimal signed encoding, sign-extended, yields the value.
pub proof fn lemma_int_round_trip(x: i64)
    ensures
        int_bytes(x).len() == int_len(x),
        sint_from_be(int_bytes(x)) == x,
{
    let n = int_len(x);
    let t = twos_val(x, n);
    lemma_pow256_values();
    lemma_sign_split(n);
    assert(t < pow256(n as nat));
    lemma_be_bytes_len(t, n as nat);
    lemma_be_val_be_bytes(t, n as nat);
    vstd::arithmetic::div_mod::lemma_small_mod(t, pow256(n as nat));
    let s = int_bytes(x);
    assert(be_val(s) == t);
    lemma_be_bytes_first(t, n as nat);
    let p = pow256((n - 1) as nat);
    lemma_pow256_pos((n - 1) as nat);
    if x >= 0 {
        assert(t < (0x80 as nat) * p);
        lemma_div_bounds(t, p, 0, 0x80);
        vstd::arithmetic::div_mod::lemma_small_mod(t / p, 256);
        assert(s[0] < 0x80);
    } else {
        assert((0x80 as nat) * p <= t && t < (0x100 as nat) * p) by (nonlinear_arith)
            requires
                sign_bound(n) <= t < pow256(n as nat),
                sign_bound(n) == (0x80 as nat) * p,
                pow256(n as nat) == 2 * sign_bound(n),
        ;
        lemma_div_bounds(t, p, 0x80, 0x100);
        vstd::arithmetic::div_mod::lemma_small_mod(t / p, 256);
        assert(s[0] >= 0x80);
        assert(sint_from_be(s) == t - pow256(n as nat));
    }
}

/// Whether `gen_ebml_number` can encode a size: any value the smallest-width
/// rule covers, or the explicit unknown-size sentinel.
pub open spec fn size_encodable(v: u64) -> bool {
    v < 0xFFFFFFFFFFFFFF || v == 0xFFFFFFFFFFFFFFFF
}

/// The encoding of a size field: the all-ones sentinel becomes the one-byte
/// unknown-size pattern, every other value its shortest VINT.
pub open spec fn ebml_size_bytes(v: u64) -> Seq<u8> {
    if v == 0xFFFFFFFFFFFFFFFF {
        seq![0xFFu8]
    } else {
        vint_bytes(v)
    }
}

/// The encoded element header: the ID in its canonical form, then the size.
pub open spec fn header_bytes(id: u64, size: u64) -> Seq<u8> {
    uint_bytes(id) + ebml_size_bytes(size)
}

/// Encode one EBML number.  An identifier keeps its canonical form (marker
/// bit included); anything else is a size and gets the shortest VINT, with
/// `u64::MAX` standing for the unknown-size pattern.
pub fn gen_ebml_number(x: u64, identifier: bool) -> (r: Vec<u8>)
    requires
        identifier || size_encodable(x),
    ensures
        identifier ==> r@ == uint_bytes(x),
        !identifier ==> r@ == ebml_size_bytes(x),
{
    if identifier {
        gen_uint(x)
    } else if x == 0xFFFFFFFFFFFFFFFF {
        let mut r: Vec<u8> = Vec::new();
        r.push(0xFF);
        proof {
            assert(r@ =~= seq![0xFFu8]);
        }
        r
    } else {
        match gen_vint(x) {
            Ok(r) => r,
            Err(e) => Vec::new(),
        }
    }
}

/// Encode an element header: ID then size.
pub fn gen_element_id_size(id: u64, size: u64) -> (r: Vec<u8>)
    requires
        size_encodable(size),
    ensures
        r@ == header_bytes(id, size),
{
    let mut buf = gen_ebml_number(id, true);
    let mut tail = gen_ebml_number(size, false);
    buf.append(&mut tail);
    buf
}

/// Append a byte slice to a buffer.
fn append_slice(w: &mut Vec<u8>, s: &[u8])
    ensures
        final(w)@ == old(w)@ + s@,
{
    let n = s.len();
    let mut i: usize = 0;
    while i < n
        invariant
            i <= n,
            n == s@.len(),
            w@ == old(w)@ + s@.subrange(0, i as int),
        decreases n - i,
    {
        w.push(s[i]);
        proof {
            assert(old(w)@ + s@.subrange(0, i + 1) =~= (old(w)@ + s@.subrange(0, i as int)).push(
                s@[i as int],
            ));
        }
        i += 1;
    }
    proof {
        assert(s@.subrange(0, n as int) =~= s@);
    }
}

/// Write an element header, rejecting a size no VINT can carry.
pub fn write_element_id_size(w: &mut Vec<u8>, id: u64, size: u64) -> (r: Result<
    usize,
    MatroskaError,
>)
    ensures
        r is Ok <==> size_encodable(size),
        r is Ok ==> final(w)@ == old(w)@ + header_bytes(id, size) && r->Ok_0 == header_bytes(
            id,
            size,
        ).len(),
        r is Err ==> final(w)@ == old(w)@ && r == Err::<usize, MatroskaError>(
            MatroskaError::InvalidVarIntMoreThanVintMax(size),
        ),
{
    if size >= 0xFFFFFFFFFFFFFF && size != 0xFFFFFFFFFFFFFFFF {
        return Err(MatroskaError::InvalidVarIntMoreThanVintMax(size));
    }
    let start = w.len();
    let mut buf = gen_element_id_size(id, size);
    let n = buf.len();
    w.append(&mut buf);
    Ok(n)
}


/// The encoded frame of an unsigned-integer element.
pub open spec fn el_uint_bytes(id: u64, v: u64) -> Seq<u8> {
    header_bytes(id, uint_len(v) as u64) + uint_bytes(v)
}

/// The encoded frame of a signed-integer element.
pub open spec fn el_int_bytes(id: u64, v: i64) -> Seq<u8> {
    header_bytes(id, int_len(v) as u64) + int_bytes(v)
}

/// The encoded frame of a four-byte float element.
pub open spec fn el_f32_bytes(id: u64, bits: u32) -> Seq<u8> {
    header_bytes(id, 4) + be_bytes(bits as nat, 4)
}

/// The encoded frame of an eight-byte float element.
pub open spec fn el_f64_bytes(id: u64, bits: u64) -> Seq<u8> {
    header_bytes(id, 8) + be_bytes(bits as nat, 8)
}

/// The encoded frame of a binary element.
pub open spec fn el_bin_bytes(id: u64, b: Seq<u8>) -> Seq<u8> {
    header_bytes(id, b.len() as u64) + b
}

/// The encoded frame of a text element: the UTF-8 bytes of its characters.
pub open spec fn el_str_bytes(id: u64, s: Seq<char>) -> Seq<u8> {
    el_bin_bytes(id, vstd::utf8::encode_utf8(s))
}

/// The encoded frame of a date element: always an eight-byte payload.
pub open spec fn el_date_bytes(id: u64, ns: i64) -> Seq<u8> {
    header_bytes(id, 8) + be_bytes(twos_val(ns, 8), 8)
}

/// Write one unsigned-integer element, with the minimal payload length.
pub fn write_el_uint(w: &mut Vec<u8>, id: u64, val: &u64) -> (r: Result<usize, MatroskaError>)
    ensures
        r is Ok,
        final(w)@ == old(w)@ + el_uint_bytes(id, *val),
        r->Ok_0 == el_uint_bytes(id, *val).len(),
{
    let start = w.len();
    let mut buf = gen_uint(*val);
    let blen = buf.len();
    let hn = match write_element_id_size(w, id, blen as u64) {
        Ok(n) => n,
        Err(e) => {
            return Err(e);
        },
    };
    w.append(&mut buf);
    Ok(w.len() - start)
}

/// Write one signed-integer element, with the minimal payload length.
pub fn write_el_int(w: &mut Vec<u8>, id: u64, val: &i64) -> (r: Result<usize, MatroskaError>)
    ensures
        r is Ok,
        final(w)@ == old(w)@ + el_int_bytes(id, *val),
        r->Ok_0 == el_int_bytes(id, *val).len(),
{
    let start = w.len();
    let mut buf = gen_int(*val);
    let blen = buf.len();
    let hn = match write_element_id_size(w, id, blen as u64) {
        Ok(n) => n,
        Err(e) => {
            return Err(e);
        },
    };
    w.append(&mut buf);
    Ok(w.len() - start)
}

/// Write one float element with a four-byte payload, from its bit pattern.
pub fn write_el_float32(w: &mut Vec<u8>, id: u64, bits: u32) -> (r: Result<usize, MatroskaError>)
    ensures
        r is Ok,
        final(w)@ == old(w)@ + el_f32_bytes(id, bits),
        r->Ok_0 == el_f32_bytes(id, bits).len(),
{
    let start = w.len();
    let mut buf = be_bytes_exec(bits as u64, 4);
    let hn = match write_element_id_size(w, id, 4) {
        Ok(n) => n,
        Err(e) => {
            return Err(e);
        },
    };
    proof {
        assert(be_bytes((bits as u64) as nat, 4) == be_bytes(bits as nat, 4));
    }
    w.append(&mut buf);
    Ok(w.len() - start)
}

/// Write one float element with an eight-byte payload, from its bit pattern.
pub fn write_el_float64(w: &mut Vec<u8>, id: u64, bits: u64) -> (r: Result<usize, MatroskaError>)
    ensures
        r is Ok,
        final(w)@ == old(w)@ + el_f64_bytes(id, bits),
        r->Ok_0 == el_f64_bytes(id, bits).len(),
{
    let start = w.len();
    let mut buf = be_bytes_exec(bits, 8);
    let hn = match write_element_id_size(w, id, 8) {
        Ok(n) => n,
        Err(e) => {
            return Err(e);
        },
    };
    w.append(&mut buf);
    Ok(w.len() - start)
}

/// Write one binary element; the payload is the bytes as given.
pub fn write_el_bin(w: &mut Vec<u8>, id: u64, buf: &[u8]) -> (r: Result<usize, MatroskaError>)
    ensures
        r is Ok <==> buf@.len() < 0xFFFFFFFFFFFFFF,
        r is Ok ==> final(w)@ == old(w)@ + el_bin_bytes(id, buf@) && r->Ok_0 == el_bin_bytes(
            id,
            buf@,
        ).len(),
        r is Err ==> final(w)@ == old(w)@ && r == Err::<usize, MatroskaError>(
            MatroskaError::InvalidVarIntMoreThanVintMax(buf@.len() as u64),
        ),
{
    let start = w.len();
    let blen = buf.len();
    let hn = match write_element_id_size(w, id, blen as u64) {
        Ok(n) => n,
        Err(e) => {
            return Err(e);
        },
    };
    append_slice(w, buf);
    Ok(w.len() - start)
}

/// Write one text element; the payload is the string's UTF-8 bytes.
pub fn write_el_string(w: &mut Vec<u8>, id: u64, text: &str) -> (r: Result<usize, MatroskaError>)
    ensures
        r is Ok <==> vstd::utf8::encode_utf8(text@).len() < 0xFFFFFFFFFFFFFF,
        r is Ok ==> final(w)@ == old(w)@ + el_str_bytes(id, text@) && r->Ok_0 == el_str_bytes(
            id,
            text@,
        ).len(),
        r is Err ==> final(w)@ == old(w)@ && r == Err::<usize, MatroskaError>(
            MatroskaError::InvalidVarIntMoreThanVintMax(
                vstd::utf8::encode_utf8(text@).len() as u64,
            ),
        ),
{
    write_el_bin(w, id, text.as_bytes())
}

/// Write one UTF-8 text element; the payload is the string's UTF-8 bytes.
pub fn write_el_utf8(w: &mut Vec<u8>, id: u64, text: &str) -> (r: Result<usize, MatroskaError>)
    ensures
        r is Ok <==> vstd::utf8::encode_utf8(text@).len() < 0xFFFFFFFFFFFFFF,
        r is Ok ==> final(w)@ == old(w)@ + el_str_bytes(id, text@) && r->Ok_0 == el_str_bytes(
            id,
            text@,
        ).len(),
        r is Err ==> final(w)@ == old(w)@ && r == Err::<usize, MatroskaError>(
            MatroskaError::InvalidVarIntMoreThanVintMax(
                vstd::utf8::encode_utf8(text@).len() as u64,
            ),
        ),
{
    write_el_bin(w, id, text.as_bytes())
}

/// Write one date element: a fixed eight-byte two's-complement nanosecond
/// offset from the Matroska epoch, so that reading it back recovers the
/// instant exactly.
pub fn write_el_date(w: &mut Vec<u8>, id: u64, val: &MkvDate) -> (r: Result<usize, MatroskaError>)
    ensures
        r is Ok,
        final(w)@ == old(w)@ + el_date_bytes(id, val.ns),
        r->Ok_0 == el_date_bytes(id, val.ns).len(),
{
    let start = w.len();
    let x = val.ns;
    let u: u64 = if x >= 0 {
        x as u64
    } else {
        u64::MAX - ((-(x + 1)) as u64)
    };
    proof {
        lemma_pow256_values();
        lemma_twos_rep(u as nat, x, 8);
    }
    let mut buf = be_bytes_exec(u, 8);
    let hn = match write_element_id_size(w, id, 8) {
        Ok(n) => n,
        Err(e) => {
            return Err(e);
        },
    };
    w.append(&mut buf);
    Ok(w.len() - start)
}

} // verus!
