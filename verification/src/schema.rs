//! The schema model: the element catalogue as plain records, the
//! normalisation pipeline that turns the declarative catalogue into a
//! resolved model (paths split, the recurring markers stripped, the root
//! renamed, cardinalities derived, each structural element's children
//! collected), and the fixed records the on-disk format requires but the
//! catalogue omits.

use vstd::prelude::*;

use vstd::string::{StrSliceExecFns, StringExecFns, StringSliceAdditionalSpecFns};

use crate::ElementType;

verus! {

/// A fault found while normalising the element catalogue.
#[derive(Debug, Clone, Copy, PartialEq, Eq, Structural)]
pub enum SchemaError {
    /// Two input elements share one name.
    DuplicateName,
    /// A path's last segment does not name its own element.
    PathMismatch,
    /// A path names an ancestor that is not an element of the input.
    UnresolvedSegment,
    /// A path that is not plain ASCII text.
    InvalidPath,
    /// A wire-type word that names none of the eight types.
    InvalidType,
}

/// Whether two pieces of text hold the same bytes.
fn bytes_eq(a: &[u8], b: &[u8]) -> (r: bool)
    ensures
        r == (a@ == b@),
{
    if a.len() != b.len() {
        proof {
            assert(a@.len() != b@.len());
        }
        return false;
    }
    let n = a.len();
    let mut i: usize = 0;
    while i < n
        invariant
            i <= n,
            n == a@.len() == b@.len(),
            forall|j: int| 0 <= j < i as int ==> a@[j] == b@[j],
        decreases n - i,
    {
        if a[i] != b[i] {
            return false;
        }
        i += 1;
    }
    proof {
        assert(a@ =~= b@);
    }
    true
}

/// Whether two pieces of text hold the same characters.
pub fn str_eq(a: &str, b: &str) -> (r: bool)
    ensures
        r == (a@ == b@),
{
    let r = bytes_eq(a.as_bytes(), b.as_bytes());
    proof {
        if a.spec_bytes() == b.spec_bytes() {
            vstd::utf8::encode_utf8_decode_utf8(a@);
            vstd::utf8::encode_utf8_decode_utf8(b@);
        }
    }
    r
}

/// The position of the end of the path segment starting at `pos`: the first
/// separator at or after it, or the end of the text.
pub open spec fn seg_end(s: Seq<char>, pos: int) -> int
    decreases s.len() - pos,
{
    if pos < 0 || pos >= s.len() || s[pos] == '\\' {
        pos
    } else {
        seg_end(s, pos + 1)
    }
}

pub proof fn lemma_seg_end_bounds(s: Seq<char>, pos: int)
    requires
        0 <= pos <= s.len(),
    ensures
        pos <= seg_end(s, pos) <= s.len(),
        pos < s.len() && s[pos] != '\\' ==> pos < seg_end(s, pos),
        seg_end(s, pos) < s.len() ==> s[seg_end(s, pos)] == '\\',
        forall|k: int| pos <= k < seg_end(s, pos) ==> s[k] != '\\',
    decreases s.len() - pos,
{
    if pos < s.len() && s[pos] != '\\' {
        lemma_seg_end_bounds(s, pos + 1);
    }
}

/// The path segments at and after `pos`: the runs of characters between
/// separators, empty runs dropped.
pub open spec fn segments_from(s: Seq<char>, pos: int) -> Seq<Seq<char>>
    decreases s.len() - pos,
    when 0 <= pos <= s.len()
    via segments_from_dec
{
    if pos >= s.len() {
        Seq::empty()
    } else if s[pos] == '\\' {
        segments_from(s, pos + 1)
    } else {
        seq![s.subrange(pos, seg_end(s, pos))] + segments_from(s, seg_end(s, pos))
    }
}

#[via_fn]
proof fn segments_from_dec(s: Seq<char>, pos: int) {
    if pos < s.len() && s[pos] != '\\' {
        lemma_seg_end_bounds(s, pos);
    }
}

/// A segment with its leading recurring markers removed.
pub open spec fn strip_plus(s: Seq<char>) -> Seq<char>
    decreases s.len(),
{
    if s.len() > 0 && s[0] == '+' {
        strip_plus(s.drop_first())
    } else {
        s
    }
}

/// A segment as an ancestor name: markers stripped, the root's spec name
/// mapped to the library's.
pub open spec fn seg_name(s: Seq<char>) -> Seq<char> {
    if strip_plus(s) == "EBML"@ {
        "EbmlHeader"@
    } else {
        strip_plus(s)
    }
}

/// The ancestor names a path declares, in order, the element's own name
/// last.
pub open spec fn path_names(s: Seq<char>) -> Seq<Seq<char>> {
    segments_from(s, 0).map_values(|seg: Seq<char>| seg_name(seg))
}

/// The character runs of a list of names.
pub open spec fn names_of(v: Seq<String>) -> Seq<Seq<char>> {
    v.map_values(|x: String| x@)
}

/// A list of indices as mathematical integers.
pub open spec fn ints_of(v: Seq<usize>) -> Seq<int> {
    v.map_values(|u: usize| u as int)
}

/// The first index at or after `pos` that is not a recurring marker.
spec fn plus_end(s: Seq<char>, pos: int, end: int) -> int
    decreases end - pos,
{
    if pos < 0 || pos >= end || s[pos] != '+' {
        pos
    } else {
        plus_end(s, pos + 1, end)
    }
}

proof fn lemma_plus_end(s: Seq<char>, pos: int, end: int)
    requires
        0 <= pos <= end <= s.len(),
    ensures
        pos <= plus_end(s, pos, end) <= end,
        strip_plus(s.subrange(pos, end)) == s.subrange(plus_end(s, pos, end), end),
    decreases end - pos,
{
    if pos < end && s[pos] == '+' {
        lemma_plus_end(s, pos + 1, end);
        assert(s.subrange(pos, end).drop_first() =~= s.subrange(pos + 1, end));
    }
}

/// Split a path on its separators and return each segment as an ancestor
/// name: recurring markers stripped and the root renamed.  The path must be
/// plain ASCII text, as every catalogue path is.
#[verifier::loop_isolation(false)]
pub fn parse_path(path: &str) -> (r: Result<Vec<String>, SchemaError>)
    ensures
        r is Ok <==> vstd::string::is_ascii(path),
        r is Ok ==> names_of(r->Ok_0@) == path_names(path@),
        r is Err ==> r == Err::<Vec<String>, SchemaError>(SchemaError::InvalidPath),
{
    if !path.is_ascii() {
        return Err(SchemaError::InvalidPath);
    }
    let n = path.unicode_len();
    let mut out: Vec<String> = Vec::new();
    let mut pos: usize = 0;
    while pos < n
        invariant
            pos <= n,
            n == path@.len(),
            path.is_ascii(),
            names_of(out@) + segments_from(path@, pos as int).map_values(
                |seg: Seq<char>| seg_name(seg),
            ) == path_names(path@),
        decreases n - pos,
    {
        let c = path.get_ascii(pos);
        if c == 0x5C {
            proof {
                assert(path@[pos as int] == '\\');
            }
            pos += 1;
        } else {
            proof {
                assert(path@[pos as int] != '\\');
                lemma_seg_end_bounds(path@, pos as int);
            }
            // find the end of this segment
            let mut e: usize = pos;
            while e < n && path.get_ascii(e) != 0x5C
                invariant
                    pos <= e <= n,
                    forall|k: int| pos <= k < e as int ==> path@[k] != '\\',
                decreases n - e,
            {
                proof {
                    assert(path@[e as int] != '\\');
                }
                e += 1;
            }
            proof {
                assert(e < n ==> path@[e as int] == '\\');
                lemma_seg_end_eq(path@, pos as int, e as int);
            }
            // skip the recurring markers at its front
            let mut a: usize = pos;
            while a < e && path.get_ascii(a) == 0x2B
                invariant
                    pos <= a <= e,
                    forall|k: int| pos <= k < a as int ==> path@[k] == '+',
                decreases e - a,
            {
                proof {
                    assert(path@[a as int] == '+');
                }
                a += 1;
            }
            proof {
                assert(a < e ==> path@[a as int] != '+');
                lemma_plus_end_eq(path@, pos as int, a as int, e as int);
                lemma_plus_end(path@, pos as int, e as int);
            }
            let seg = path.substring_ascii(a, e);
            let name = if str_eq(seg, "EBML") {
                proof {
                    reveal_strlit("EBML");
                    reveal_strlit("EbmlHeader");
                }
                String::from_str("EbmlHeader")
            } else {
                seg.to_owned()
            };
            let ghost prev = out@;
            out.push(name);
            proof {
                let whole = path@.subrange(pos as int, e as int);
                assert(strip_plus(whole) == path@.subrange(a as int, e as int));
                assert(names_of(out@) =~= names_of(prev).push(
                    seg_name(whole),
                ));
                assert(segments_from(path@, pos as int) =~= seq![whole] + segments_from(
                    path@,
                    e as int,
                ));
                assert(names_of(prev).push(seg_name(whole)) + segments_from(
                    path@,
                    e as int,
                ).map_values(|seg: Seq<char>| seg_name(seg)) =~= names_of(prev)
                    + segments_from(path@, pos as int).map_values(|seg: Seq<char>| seg_name(seg)));
            }
            pos = e;
        }
    }
    proof {
        assert(segments_from(path@, pos as int) =~= Seq::<Seq<char>>::empty());
        assert(names_of(out@) + Seq::<Seq<char>>::empty().map_values(
            |seg: Seq<char>| seg_name(seg),
        ) =~= names_of(out@));
    }
    Ok(out)
}

/// The scanned end of a segment is the specified one.
proof fn lemma_seg_end_eq(s: Seq<char>, pos: int, e: int)
    requires
        0 <= pos <= e <= s.len(),
        forall|k: int| pos <= k < e ==> s[k] != '\\',
        e < s.len() ==> s[e] == '\\',
    ensures
        seg_end(s, pos) == e,
    decreases e - pos,
{
    if pos < e {
        lemma_seg_end_eq(s, pos + 1, e);
    }
}

/// The scanned end of a marker run is the specified one.
proof fn lemma_plus_end_eq(s: Seq<char>, pos: int, a: int, e: int)
    requires
        0 <= pos <= a <= e <= s.len(),
        forall|k: int| pos <= k < a ==> s[k] == '+',
        a < e ==> s[a] != '+',
    ensures
        plus_end(s, pos, e) == a,
    decreases a - pos,
{
    if pos < a {
        lemma_plus_end_eq(s, pos + 1, a, e);
    }
}


/// One element of the declarative catalogue, as plain values: the XML
/// attributes after decoding, before normalisation.
#[derive(Debug)]
pub struct RawElement {
    pub name: String,
    /// The ancestry as written: segments joined by `\`, a `+` marking a
    /// recurring segment.
    pub path: String,
    pub id: u64,
    pub type_: ElementType,
    pub min_occurs: Option<u32>,
    pub max_occurs: Option<u32>,
    pub recurring: bool,
    pub unknown_size_allowed: bool,
    pub recursive: bool,
    pub default: Option<String>,
    pub minver: Option<u32>,
    pub maxver: Option<u32>,
}

/// The cardinality a schema element's occurrence bounds imply.
#[derive(Debug, Clone, Copy, PartialEq, Eq, Structural)]
pub enum TypeAttr {
    Required,
    Optional,
    Repeated,
}

/// A normalised element: its path resolved into an ancestor list, its
/// cardinality derived, the root renamed.
#[derive(Debug)]
pub struct SchemaElement {
    pub name: String,
    /// The ancestor names, outermost first; the element's own name is not
    /// among them.
    pub path: Vec<String>,
    pub id: u64,
    pub type_: ElementType,
    pub attr: TypeAttr,
    pub min_occurs: u32,
    pub max_occurs: Option<u32>,
    pub recurring: bool,
    pub unknown_size_allowed: bool,
    pub recursive: bool,
    pub default: Option<String>,
    pub minver: Option<u32>,
    pub maxver: Option<u32>,
}

/// One structural element with the indices of its children, in declaration
/// order.
#[derive(Debug)]
pub struct SchemaStruct {
    pub name: String,
    pub children: Vec<usize>,
}

/// The normalised catalogue: every element, and every structural element
/// with its children.
#[derive(Debug)]
pub struct Schema {
    pub elements: Vec<SchemaElement>,
    pub structs: Vec<SchemaStruct>,
}

/// The declared minimum occurrence count; absent means zero.
pub open spec fn min_of(min_occurs: Option<u32>) -> u32 {
    match min_occurs {
        Option::Some(k) => k,
        Option::None => 0,
    }
}

/// The cardinality the occurrence bounds imply: more than one (or an
/// unbounded count) is repeated; otherwise required exactly when at least
/// one is demanded.
pub open spec fn spec_attr(min_occurs: Option<u32>, max_occurs: Option<u32>) -> TypeAttr {
    match max_occurs {
        Option::Some(m) => if m > 1 {
            TypeAttr::Repeated
        } else if min_of(min_occurs) >= 1 {
            TypeAttr::Required
        } else {
            TypeAttr::Optional
        },
        Option::None => TypeAttr::Repeated,
    }
}

/// Derive an element's cardinality from its occurrence bounds.
pub fn derive_attr(min_occurs: Option<u32>, max_occurs: Option<u32>) -> (r: TypeAttr)
    ensures
        r == spec_attr(min_occurs, max_occurs),
{
    match max_occurs {
        Some(m) => {
            if m > 1 {
                TypeAttr::Repeated
            } else {
                let min = match min_occurs {
                    Some(k) => k,
                    None => 0,
                };
                if min >= 1 {
                    TypeAttr::Required
                } else {
                    TypeAttr::Optional
                }
            }
        },
        None => TypeAttr::Repeated,
    }
}

/// The wire type a catalogue type word names, if any; the catalogue's
/// structural keyword maps to the library's `Struct`.
pub open spec fn spec_type_of_word(s: Seq<char>) -> Option<ElementType> {
    if s == "uinteger"@ {
        Some(ElementType::UInteger)
    } else if s == "integer"@ {
        Some(ElementType::Integer)
    } else if s == "float"@ {
        Some(ElementType::Float)
    } else if s == "string"@ {
        Some(ElementType::String)
    } else if s == "utf-8"@ {
        Some(ElementType::Utf8)
    } else if s == "binary"@ {
        Some(ElementType::Binary)
    } else if s == "date"@ {
        Some(ElementType::Date)
    } else if s == "master"@ {
        Some(ElementType::Struct)
    } else {
        None
    }
}

/// Map a catalogue type word to a wire type; an unknown word is a schema
/// deviation and aborts.
pub fn element_type_from_xml(s: &str) -> (r: Result<ElementType, SchemaError>)
    ensures
        r is Ok <==> spec_type_of_word(s@) is Some,
        r is Ok ==> Some(r->Ok_0) == spec_type_of_word(s@),
        r is Err ==> r == Err::<ElementType, SchemaError>(SchemaError::InvalidType),
{
    if str_eq(s, "uinteger") {
        Ok(ElementType::UInteger)
    } else if str_eq(s, "integer") {
        Ok(ElementType::Integer)
    } else if str_eq(s, "float") {
        Ok(ElementType::Float)
    } else if str_eq(s, "string") {
        Ok(ElementType::String)
    } else if str_eq(s, "utf-8") {
        Ok(ElementType::Utf8)
    } else if str_eq(s, "binary") {
        Ok(ElementType::Binary)
    } else if str_eq(s, "date") {
        Ok(ElementType::Date)
    } else if str_eq(s, "master") {
        Ok(ElementType::Struct)
    } else {
        Err(SchemaError::InvalidType)
    }
}

/// An element's name with the root's catalogue spelling mapped to the
/// library's.
pub open spec fn rename_name(s: Seq<char>) -> Seq<char> {
    if s == "EBML"@ {
        "EbmlHeader"@
    } else {
        s
    }
}

/// Whether one input element is well formed: an ASCII path whose last
/// segment names the element itself.
pub open spec fn raw_ok(w: RawElement) -> bool {
    &&& vstd::utf8::is_ascii_chars(w.path@)
    &&& path_names(w.path@).len() >= 1
    &&& path_names(w.path@).last() == rename_name(w.name@)
}

/// Whether every input element carries a distinct name.
pub open spec fn names_unique(ws: Seq<RawElement>) -> bool {
    forall|i: int, j: int|
        0 <= i < j < ws.len() ==> rename_name(#[trigger] ws[i].name@) != rename_name(
            #[trigger] ws[j].name@,
        )
}

/// Whether some input element carries this name.
pub open spec fn has_name(ws: Seq<RawElement>, n: Seq<char>) -> bool {
    exists|j: int| 0 <= j < ws.len() && rename_name(#[trigger] ws[j].name@) == n
}

/// Whether every ancestor a path declares names an input element.
pub open spec fn resolves(ws: Seq<RawElement>, w: RawElement) -> bool {
    forall|k: int|
        0 <= k < path_names(w.path@).len() - 1 ==> has_name(ws, #[trigger] path_names(w.path@)[k])
}

/// Whether the whole catalogue normalises.
pub open spec fn all_ok(ws: Seq<RawElement>) -> bool {
    &&& (forall|i: int| 0 <= i < ws.len() ==> raw_ok(#[trigger] ws[i]))
    &&& names_unique(ws)
    &&& (forall|i: int| 0 <= i < ws.len() ==> resolves(ws, #[trigger] ws[i]))
}

/// Whether a normalised element faithfully carries one input element.
pub open spec fn elem_matches(e: SchemaElement, w: RawElement) -> bool {
    &&& e.name@ == rename_name(w.name@)
    &&& names_of(e.path@) == path_names(w.path@).drop_last()
    &&& e.id == w.id
    &&& e.type_ == w.type_
    &&& e.attr == spec_attr(w.min_occurs, w.max_occurs)
    &&& e.min_occurs == min_of(w.min_occurs)
    &&& e.max_occurs == w.max_occurs
    &&& e.recurring == w.recurring
    &&& e.unknown_size_allowed == w.unknown_size_allowed
    &&& e.recursive == w.recursive
    &&& e.default == w.default
    &&& e.minver == w.minver
    &&& e.maxver == w.maxver
}

/// The indices of the elements whose declared parent is `name`, among the
/// first `n` input elements, in declaration order.
pub open spec fn children_upto(ws: Seq<RawElement>, name: Seq<char>, n: int) -> Seq<int>
    decreases n,
{
    if n <= 0 {
        Seq::empty()
    } else {
        let r = children_upto(ws, name, n - 1);
        if path_names(ws[n - 1].path@).len() >= 2 && path_names(ws[n - 1].path@)[path_names(
            ws[n - 1].path@,
        ).len() - 2] == name {
            r.push(n - 1)
        } else {
            r
        }
    }
}

/// The indices of the structural elements among the first `n` input
/// elements, in declaration order.
pub open spec fn structs_upto(ws: Seq<RawElement>, n: int) -> Seq<int>
    decreases n,
{
    if n <= 0 {
        Seq::empty()
    } else {
        let r = structs_upto(ws, n - 1);
        if ws[n - 1].type_ == ElementType::Struct {
            r.push(n - 1)
        } else {
            r
        }
    }
}



/// Whether the `k`-th collected structural entry is the `k`-th structural
/// element of the first `n` inputs, with exactly its children.
pub open spec fn struct_entry_ok(
    ss: Seq<SchemaStruct>,
    ws: Seq<RawElement>,
    k: int,
    n: int,
) -> bool {
    let si = structs_upto(ws, n)[k];
    &&& ss[k].name@ == rename_name(ws[si].name@)
    &&& ints_of(ss[k].children@) == children_upto(
        ws,
        rename_name(ws[si].name@),
        ws.len() as int,
    )
}

/// Normalise one catalogue element: split its path, check that the path
/// names the element itself, and refuse a name already taken.
#[verifier::loop_isolation(false)]
fn normalise_one(w: &RawElement, taken: &Vec<SchemaElement>) -> (r: Result<
    SchemaElement,
    SchemaError,
>)
    ensures
        r is Ok <==> raw_ok(*w) && (forall|t: int|
            0 <= t < taken@.len() ==> (#[trigger] taken@[t]).name@ != rename_name(w.name@)),
        r is Ok ==> elem_matches(r->Ok_0, *w),
        r is Err ==> (r->Err_0 == SchemaError::InvalidPath || r->Err_0 == SchemaError::PathMismatch
            || r->Err_0 == SchemaError::DuplicateName),
        r == Err::<SchemaElement, SchemaError>(SchemaError::InvalidPath) ==> !vstd::utf8::is_ascii_chars(w.path@),
        r == Err::<SchemaElement, SchemaError>(SchemaError::PathMismatch) ==> !raw_ok(*w),
        r == Err::<SchemaElement, SchemaError>(SchemaError::DuplicateName) ==> exists|t: int|
            0 <= t < taken@.len() && (#[trigger] taken@[t]).name@ == rename_name(w.name@),
{
    let mut names = match parse_path(w.path.as_str()) {
        Ok(v) => v,
        Err(_) => {
            return Err(SchemaError::InvalidPath);
        },
    };
    if names.len() == 0 {
        return Err(SchemaError::PathMismatch);
    }
    let ename: String = if str_eq(w.name.as_str(), "EBML") {
        String::from_str("EbmlHeader")
    } else {
        w.name.clone()
    };
    proof {
        assert(ename@ == rename_name(w.name@));
    }
    let nlen = names.len();
    if !str_eq(names[nlen - 1].as_str(), ename.as_str()) {
        proof {
            assert(names_of(names@)[nlen - 1] == path_names(w.path@).last());
        }
        return Err(SchemaError::PathMismatch);
    }
    proof {
        assert(names_of(names@)[nlen - 1] == path_names(w.path@).last());
        assert(raw_ok(*w));
    }
    let tn = taken.len();
    let mut j: usize = 0;
    while j < tn
        invariant
            j <= tn,
            forall|t: int| 0 <= t < j as int ==> (#[trigger] taken@[t]).name@ != ename@,
        decreases tn - j,
    {
        if str_eq(taken[j].name.as_str(), ename.as_str()) {
            return Err(SchemaError::DuplicateName);
        }
        j += 1;
    }
    let ghost full = names@;
    let _ = names.pop();
    let attr = derive_attr(w.min_occurs, w.max_occurs);
    let min = match w.min_occurs {
        Some(k) => k,
        None => 0,
    };
    let de: Option<String> = match &w.default {
        Some(s) => Some(s.clone()),
        None => None,
    };
    proof {
        assert(de == w.default);
    }
    let e = SchemaElement {
        name: ename,
        path: names,
        id: w.id,
        type_: w.type_,
        attr,
        min_occurs: min,
        max_occurs: w.max_occurs,
        recurring: w.recurring,
        unknown_size_allowed: w.unknown_size_allowed,
        recursive: w.recursive,
        default: de,
        minver: w.minver,
        maxver: w.maxver,
    };
    proof {
        assert(e.path@ == full.drop_last());
        assert(names_of(e.path@) =~= path_names(w.path@).drop_last());
        assert(elem_matches(e, *w));
    }
    Ok(e)
}

/// Check that every ancestor a path declares names an element of the input.
#[verifier::loop_isolation(false)]
fn resolve_all(elements: &Vec<RawElement>, out_elems: &Vec<SchemaElement>) -> (r: Result<
    (),
    SchemaError,
>)
    requires
        out_elems@.len() == elements@.len(),
        forall|j: int|
            0 <= j < elements@.len() ==> elem_matches(#[trigger] out_elems@[j], elements@[j])
                && raw_ok(elements@[j]),
    ensures
        r is Ok <==> (forall|i: int|
            0 <= i < elements@.len() ==> resolves(elements@, #[trigger] elements@[i])),
        r is Err ==> r == Err::<(), SchemaError>(SchemaError::UnresolvedSegment) && exists|i: int|
            0 <= i < elements@.len() && !resolves(elements@, #[trigger] elements@[i]),
{
    let n = elements.len();
    let mut i: usize = 0;
    while i < n
        invariant
            i <= n,
            forall|t: int| 0 <= t < i as int ==> resolves(elements@, #[trigger] elements@[t]),
        decreases n - i,
    {
        proof {
            assert(elem_matches(out_elems@[i as int], elements@[i as int]) && raw_ok(
                elements@[i as int],
            ));
        }
        let ghost pn = path_names(elements@[i as int].path@);
        let m = out_elems[i].path.len();
        proof {
            assert(names_of(out_elems@[i as int].path@).len() == out_elems@[i as int].path@.len());
            assert(m as int == pn.len() - 1);
        }
        let mut k: usize = 0;
        while k < m
            invariant
                k <= m,
                m == out_elems@[i as int].path@.len(),
                forall|t: int| 0 <= t < k as int ==> has_name(elements@, #[trigger] pn[t]),
            decreases m - k,
        {
            proof {
                assert(names_of(out_elems@[i as int].path@)[k as int] == pn.drop_last()[k as int]);
            }
            let mut found = false;
            let mut j: usize = 0;
            while j < n && !found
                invariant
                    j <= n,
                    !found ==> forall|t: int|
                        0 <= t < j as int ==> (#[trigger] out_elems@[t]).name@
                            != out_elems@[i as int].path@[k as int]@,
                    found ==> has_name(elements@, pn[k as int]),
                decreases n - j + (if found { 0int } else { 1int }),
            {
                if str_eq(out_elems[j].name.as_str(), out_elems[i].path[k].as_str()) {
                    found = true;
                    proof {
                        assert(elem_matches(out_elems@[j as int], elements@[j as int]));
                        assert(names_of(out_elems@[i as int].path@)[k as int] == pn.drop_last()[
                            k as int
                        ]);
                        assert(rename_name(elements@[j as int].name@) == pn[k as int]);
                    }
                } else {
                    j += 1;
                }
            }
            if !found {
                proof {
                    assert forall|t: int|
                        0 <= t < n as int implies rename_name(
                        #[trigger] elements@[t].name@,
                    ) != pn[k as int] by {
                        assert(out_elems@[t].name@ != out_elems@[i as int].path@[k as int]@);
                    }
                    assert(!has_name(elements@, pn[k as int]));
                    assert(!resolves(elements@, elements@[i as int]));
                }
                return Err(SchemaError::UnresolvedSegment);
            }
            k += 1;
        }
        proof {
            assert(resolves(elements@, elements@[i as int])) by {
                assert(forall|t: int| 0 <= t < pn.len() - 1 ==> has_name(elements@, #[trigger] pn[t]));
            }
        }
        i += 1;
    }
    Ok(())
}

/// Collect the children of one structural element, in declaration order.
#[verifier::loop_isolation(false)]
fn children_of(elements: &Vec<RawElement>, out_elems: &Vec<SchemaElement>, sname: &String) -> (r:
    Vec<usize>)
    requires
        out_elems@.len() == elements@.len(),
        forall|j: int|
            0 <= j < elements@.len() ==> elem_matches(#[trigger] out_elems@[j], elements@[j])
                && raw_ok(elements@[j]),
    ensures
        ints_of(r@) == children_upto(elements@, sname@, elements@.len() as int),
{
    let n = elements.len();
    let mut kids: Vec<usize> = Vec::new();
    let mut j: usize = 0;
    while j < n
        invariant
            j <= n,
            ints_of(kids@) == children_upto(elements@, sname@, j as int),
        decreases n - j,
    {
        proof {
            assert(elem_matches(out_elems@[j as int], elements@[j as int]) && raw_ok(
                elements@[j as int],
            ));
        }
        let ghost pn = path_names(elements@[j as int].path@);
        let pl = out_elems[j].path.len();
        proof {
            assert(names_of(out_elems@[j as int].path@).len() == out_elems@[j as int].path@.len());
            assert(pl as int == pn.len() - 1);
            if pl > 0 {
                assert(names_of(out_elems@[j as int].path@)[pl - 1] == pn.drop_last()[pl - 1]);
                assert(pn.drop_last()[pl - 1] == pn[pn.len() - 2]);
            }
        }
        let ghost prevk = kids@;
        if pl > 0 && str_eq(out_elems[j].path[pl - 1].as_str(), sname.as_str()) {
            kids.push(j);
            proof {
                assert(ints_of(kids@) =~= ints_of(prevk).push(j as int));
            }
        }
        proof {
            assert(ints_of(kids@) == children_upto(elements@, sname@, j + 1));
        }
        j += 1;
    }
    kids
}

/// Collect every structural element with its children, in declaration order.
#[verifier::loop_isolation(false)]
fn collect_structs(elements: &Vec<RawElement>, out_elems: &Vec<SchemaElement>) -> (r: Vec<
    SchemaStruct,
>)
    requires
        out_elems@.len() == elements@.len(),
        forall|j: int|
            0 <= j < elements@.len() ==> elem_matches(#[trigger] out_elems@[j], elements@[j])
                && raw_ok(elements@[j]),
    ensures
        r@.len() == structs_upto(elements@, elements@.len() as int).len(),
        forall|k: int|
            0 <= k < r@.len() ==> #[trigger] struct_entry_ok(
                r@,
                elements@,
                k,
                elements@.len() as int,
            ),
{
    let n = elements.len();
    let mut structs: Vec<SchemaStruct> = Vec::new();
    let mut i: usize = 0;
    while i < n
        invariant
            i <= n,
            structs@.len() == structs_upto(elements@, i as int).len(),
            forall|k: int|
                0 <= k < structs@.len() ==> #[trigger] struct_entry_ok(
                    structs@,
                    elements@,
                    k,
                    i as int,
                ),
        decreases n - i,
    {
        let ghost prevs = structs@;
        if matches!(elements[i].type_, ElementType::Struct) {
            proof {
                assert(elem_matches(out_elems@[i as int], elements@[i as int]));
            }
            let sname = out_elems[i].name.clone();
            let kids = children_of(elements, out_elems, &sname);
            structs.push(SchemaStruct { name: sname, children: kids });
            proof {
                assert(structs_upto(elements@, i + 1) =~= structs_upto(elements@, i as int).push(
                    i as int,
                ));
                assert forall|k: int|
                    0 <= k < structs@.len() implies #[trigger] struct_entry_ok(
                    structs@,
                    elements@,
                    k,
                    i + 1,
                ) by {
                    if k < prevs.len() {
                        assert(struct_entry_ok(prevs, elements@, k, i as int));
                        assert(structs@[k] == prevs[k]);
                    } else {
                        assert(structs_upto(elements@, i + 1)[k] == i as int);
                    }
                }
            }
        } else {
            proof {
                assert(structs_upto(elements@, i + 1) =~= structs_upto(elements@, i as int));
                assert forall|k: int|
                    0 <= k < structs@.len() implies #[trigger] struct_entry_ok(
                    structs@,
                    elements@,
                    k,
                    i + 1,
                ) by {
                    assert(struct_entry_ok(structs@, elements@, k, i as int));
                }
            }
        }
        i += 1;
    }
    structs
}

/// Normalise the element catalogue: split and resolve every path, rename the
/// root, derive each cardinality, and collect each structural element's
/// children in declaration order.  Fails exactly when a path is not ASCII,
/// a path's last segment does not name its element, two elements share a
/// name, or an ancestor resolves to no element.
#[verifier::loop_isolation(false)]
pub fn normalise(elements: Vec<RawElement>) -> (r: Result<Schema, SchemaError>)
    ensures
        r is Ok <==> all_ok(elements@),
        r is Ok ==> ({
            let out = r->Ok_0;
            &&& out.elements@.len() == elements@.len()
            &&& (forall|i: int|
                0 <= i < elements@.len() ==> elem_matches(
                    #[trigger] out.elements@[i],
                    elements@[i],
                ))
            &&& out.structs@.len() == structs_upto(elements@, elements@.len() as int).len()
            &&& (forall|k: int|
                0 <= k < out.structs@.len() ==> #[trigger] struct_entry_ok(
                    out.structs@,
                    elements@,
                    k,
                    elements@.len() as int,
                ))
        }),
        r == Err::<Schema, SchemaError>(SchemaError::InvalidPath) ==> exists|i: int|
            0 <= i < elements@.len() && !vstd::utf8::is_ascii_chars(
                (#[trigger] elements@[i]).path@,
            ),
        r == Err::<Schema, SchemaError>(SchemaError::PathMismatch) ==> exists|i: int|
            0 <= i < elements@.len() && !raw_ok(#[trigger] elements@[i]),
        r == Err::<Schema, SchemaError>(SchemaError::DuplicateName) ==> !names_unique(elements@),
        r == Err::<Schema, SchemaError>(SchemaError::UnresolvedSegment) ==> exists|i: int|
            0 <= i < elements@.len() && !resolves(elements@, #[trigger] elements@[i]),
        r is Err ==> (r->Err_0 == SchemaError::InvalidPath || r->Err_0 == SchemaError::PathMismatch
            || r->Err_0 == SchemaError::DuplicateName || r->Err_0
            == SchemaError::UnresolvedSegment),
{
    let n = elements.len();
    let mut out_elems: Vec<SchemaElement> = Vec::new();
    let mut i: usize = 0;
    while i < n
        invariant
            i <= n,
            out_elems@.len() == i as int,
            forall|j: int|
                0 <= j < i as int ==> elem_matches(#[trigger] out_elems@[j], elements@[j])
                    && raw_ok(elements@[j]),
            forall|a: int, b: int|
                0 <= a < b < i as int ==> rename_name(#[trigger] elements@[a].name@)
                    != rename_name(#[trigger] elements@[b].name@),
        decreases n - i,
    {
        let e = match normalise_one(&elements[i], &out_elems) {
            Ok(e) => e,
            Err(er) => {
                proof {
                    if er == SchemaError::DuplicateName {
                        let t = choose|t: int|
                            0 <= t < out_elems@.len() && (#[trigger] out_elems@[t]).name@
                                == rename_name(elements@[i as int].name@);
                        assert(rename_name(elements@[t].name@) == rename_name(
                            elements@[i as int].name@,
                        ));
                        assert(!names_unique(elements@));
                    }
                }
                return Err(er);
            },
        };
        out_elems.push(e);
        proof {
            assert forall|a: int, b: int|
                0 <= a < b < i + 1 implies rename_name(#[trigger] elements@[a].name@)
                != rename_name(#[trigger] elements@[b].name@) by {
                if b == i as int {
                    assert(out_elems@[a].name@ == rename_name(elements@[a].name@));
                }
            }
        }
        i += 1;
    }
    match resolve_all(&elements, &out_elems) {
        Ok(_) => {},
        Err(er) => {
            return Err(er);
        },
    }
    let structs = collect_structs(&elements, &out_elems);
    proof {
        assert forall|t: int| 0 <= t < elements@.len() implies raw_ok(#[trigger] elements@[t]) by {
            assert(elem_matches(out_elems@[t], elements@[t]) && raw_ok(elements@[t]));
        }
        assert(names_unique(elements@));
        assert(all_ok(elements@));
    }
    Ok(Schema { elements: out_elems, structs })
}


/// Build one catalogue record from plain values, the flags the injected
/// records never set left clear.
fn raw(
    name: &str,
    path: &str,
    id: u64,
    type_: ElementType,
    min_occurs: Option<u32>,
    max_occurs: Option<u32>,
) -> (r: RawElement)
    ensures
        r.name@ == name@,
        r.path@ == path@,
        r.id == id,
        r.type_ == type_,
        r.min_occurs == min_occurs,
        r.max_occurs == max_occurs,
        !r.recurring,
        !r.unknown_size_allowed,
        !r.recursive,
        r.default is None,
        r.minver is None,
        r.maxver is None,
{
    RawElement {
        name: name.to_owned(),
        path: path.to_owned(),
        id,
        type_,
        min_occurs,
        max_occurs,
        recurring: false,
        unknown_size_allowed: false,
        recursive: false,
        default: None,
        minver: None,
        maxver: None,
    }
}

/// Whether a record carries the given name, path, ID, type and occurrence
/// bounds, with every injected-record flag clear.
pub open spec fn fixed_raw(
    r: RawElement,
    name: Seq<char>,
    path: Seq<char>,
    id: u64,
    type_: ElementType,
    min_occurs: Option<u32>,
    max_occurs: Option<u32>,
) -> bool {
    &&& r.name@ == name
    &&& r.path@ == path
    &&& r.id == id
    &&& r.type_ == type_
    &&& r.min_occurs == min_occurs
    &&& r.max_occurs == max_occurs
    &&& !r.recurring
    &&& !r.unknown_size_allowed
    &&& !r.recursive
    &&& r.default is None
    &&& r.minver is None
    &&& r.maxver is None
}

/// The fixed header elements the on-disk format requires but the catalogue
/// omits: the EBML header container and its eight children, each required or
/// optional exactly once.
pub fn builtin_header_elements() -> (r: Vec<RawElement>)
    ensures
        r@.len() == 9,
        fixed_raw(
            r@[0],
            "EbmlHeader"@,
            "\\EbmlHeader"@,
            0x1A45DFA3,
            ElementType::Struct,
            Some(1u32),
            Some(1u32),
        ),
        fixed_raw(
            r@[1],
            "Version"@,
            "\\EbmlHeader\\Version"@,
            0x4286,
            ElementType::UInteger,
            Some(1u32),
            Some(1u32),
        ),
        fixed_raw(
            r@[2],
            "ReadVersion"@,
            "\\EbmlHeader\\ReadVersion"@,
            0x42F7,
            ElementType::UInteger,
            Some(1u32),
            Some(1u32),
        ),
        fixed_raw(
            r@[3],
            "DocType"@,
            "\\EbmlHeader\\DocType"@,
            0x4282,
            ElementType::Utf8,
            Some(1u32),
            Some(1u32),
        ),
        fixed_raw(
            r@[4],
            "DocTypeVersion"@,
            "\\EbmlHeader\\DocTypeVersion"@,
            0x4287,
            ElementType::UInteger,
            Some(1u32),
            Some(1u32),
        ),
        fixed_raw(
            r@[5],
            "DocTypeReadVersion"@,
            "\\EbmlHeader\\DocTypeReadVersion"@,
            0x4285,
            ElementType::UInteger,
            Some(1u32),
            Some(1u32),
        ),
        fixed_raw(
            r@[6],
            "DocTypeExtension"@,
            "\\EbmlHeader\\DocTypeExtension"@,
            0x4281,
            ElementType::Struct,
            Some(0u32),
            Some(1u32),
        ),
        fixed_raw(
            r@[7],
            "DocTypeExtensionName"@,
            "\\EbmlHeader\\DocTypeExtensionName"@,
            0x4283,
            ElementType::Utf8,
            Some(0u32),
            Some(1u32),
        ),
        fixed_raw(
            r@[8],
            "DocTypeExtensionVersion"@,
            "\\EbmlHeader\\DocTypeExtensionVersion"@,
            0x4284,
            ElementType::UInteger,
            Some(0u32),
            Some(1u32),
        ),
{
    let mut v: Vec<RawElement> = Vec::new();
    v.push(
        raw("EbmlHeader", "\\EbmlHeader", 0x1A45DFA3, ElementType::Struct, Some(1), Some(1)),
    );
    v.push(
        raw("Version", "\\EbmlHeader\\Version", 0x4286, ElementType::UInteger, Some(1), Some(1)),
    );
    v.push(
        raw(
            "ReadVersion",
            "\\EbmlHeader\\ReadVersion",
            0x42F7,
            ElementType::UInteger,
            Some(1),
            Some(1),
        ),
    );
    v.push(
        raw("DocType", "\\EbmlHeader\\DocType", 0x4282, ElementType::Utf8, Some(1), Some(1)),
    );
    v.push(
        raw(
            "DocTypeVersion",
            "\\EbmlHeader\\DocTypeVersion",
            0x4287,
            ElementType::UInteger,
            Some(1),
            Some(1),
        ),
    );
    v.push(
        raw(
            "DocTypeReadVersion",
            "\\EbmlHeader\\DocTypeReadVersion",
            0x4285,
            ElementType::UInteger,
            Some(1),
            Some(1),
        ),
    );
    v.push(
        raw(
            "DocTypeExtension",
            "\\EbmlHeader\\DocTypeExtension",
            0x4281,
            ElementType::Struct,
            Some(0),
            Some(1),
        ),
    );
    v.push(
        raw(
            "DocTypeExtensionName",
            "\\EbmlHeader\\DocTypeExtensionName",
            0x4283,
            ElementType::Utf8,
            Some(0),
            Some(1),
        ),
    );
    v.push(
        raw(
            "DocTypeExtensionVersion",
            "\\EbmlHeader\\DocTypeExtensionVersion",
            0x4284,
            ElementType::UInteger,
            Some(0),
            Some(1),
        ),
    );
    v
}

/// The two schema-less catch-all elements the on-disk format needs: padding
/// and checksum frames, both binary, attached under the Segment; padding may
/// repeat without bound, a checksum at most once.
pub fn builtin_void_crc32() -> (r: Vec<RawElement>)
    ensures
        r@.len() == 2,
        fixed_raw(
            r@[0],
            "Void"@,
            "\\Segment\\Void"@,
            0xEC,
            ElementType::Binary,
            Some(0u32),
            None::<u32>,
        ),
        fixed_raw(
            r@[1],
            "Crc32"@,
            "\\Segment\\Crc32"@,
            0xBF,
            ElementType::Binary,
            Some(0u32),
            Some(1u32),
        ),
        spec_attr(r@[0].min_occurs, r@[0].max_occurs) == TypeAttr::Repeated,
        spec_attr(r@[1].min_occurs, r@[1].max_occurs) == TypeAttr::Optional,
{
    let mut v: Vec<RawElement> = Vec::new();
    v.push(raw("Void", "\\Segment\\Void", 0xEC, ElementType::Binary, Some(0), None));
    v.push(raw("Crc32", "\\Segment\\Crc32", 0xBF, ElementType::Binary, Some(0), Some(1)));
    v
}

} // verus!
