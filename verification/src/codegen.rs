//! Emit the language artefacts the schema drives: the element-ID table as
//! source text.  The typed containers and their readers and writers are not
//! emitted as text: they stand in this crate itself, as the verified struct
//! runtime.  Each emitter's output is pinned exactly, as a function of the
//! normalised model.

use vstd::prelude::*;

use vstd::string::{StringExecFns, StrSliceExecFns};

use crate::schema::{Schema, SchemaElement};
use crate::ElementType;

verus! {

/// One uppercase hexadecimal digit.
pub open spec fn hex_digit_text(d: int) -> Seq<char> {
    if d == 0 {
        "0"@
    } else if d == 1 {
        "1"@
    } else if d == 2 {
        "2"@
    } else if d == 3 {
        "3"@
    } else if d == 4 {
        "4"@
    } else if d == 5 {
        "5"@
    } else if d == 6 {
        "6"@
    } else if d == 7 {
        "7"@
    } else if d == 8 {
        "8"@
    } else if d == 9 {
        "9"@
    } else if d == 10 {
        "A"@
    } else if d == 11 {
        "B"@
    } else if d == 12 {
        "C"@
    } else if d == 13 {
        "D"@
    } else if d == 14 {
        "E"@
    } else {
        "F"@
    }
}

/// The minimal uppercase hexadecimal text of a value.
pub open spec fn hex_text(v: u64) -> Seq<char>
    decreases v,
{
    if v < 16 {
        hex_digit_text(v as int)
    } else {
        hex_text(v / 16) + hex_digit_text((v % 16) as int)
    }
}

/// One uppercase hexadecimal digit, as text.
fn hex_digit_of(d: u64) -> (r: &'static str)
    requires
        d < 16,
    ensures
        r@ == hex_digit_text(d as int),
{
    match d {
        0 => "0",
        1 => "1",
        2 => "2",
        3 => "3",
        4 => "4",
        5 => "5",
        6 => "6",
        7 => "7",
        8 => "8",
        9 => "9",
        10 => "A",
        11 => "B",
        12 => "C",
        13 => "D",
        14 => "E",
        _ => "F",
    }
}

/// The minimal uppercase hexadecimal text of a value.
pub fn hex_of(v: u64) -> (r: String)
    ensures
        r@ == hex_text(v),
    decreases v,
{
    if v < 16 {
        String::from_str(hex_digit_of(v))
    } else {
        hex_of(v / 16).concat(hex_digit_of(v % 16))
    }
}

/// The emitted name of a wire type.
pub open spec fn type_word(t: ElementType) -> Seq<char> {
    match t {
        ElementType::UInteger => "UInteger"@,
        ElementType::Integer => "Integer"@,
        ElementType::Float => "Float"@,
        ElementType::String => "String"@,
        ElementType::Utf8 => "Utf8"@,
        ElementType::Binary => "Binary"@,
        ElementType::Date => "Date"@,
        ElementType::Struct => "Struct"@,
    }
}

/// The emitted name of a wire type, as text.
pub fn type_word_of(t: ElementType) -> (r: &'static str)
    ensures
        r@ == type_word(t),
{
    match t {
        ElementType::UInteger => "UInteger",
        ElementType::Integer => "Integer",
        ElementType::Float => "Float",
        ElementType::String => "String",
        ElementType::Utf8 => "Utf8",
        ElementType::Binary => "Binary",
        ElementType::Date => "Date",
        ElementType::Struct => "Struct",
    }
}

/// The emitted word for a flag.
pub open spec fn bool_word(b: bool) -> Seq<char> {
    if b {
        "true"@
    } else {
        "false"@
    }
}

/// One variant line of the ID enumeration.
pub open spec fn enum_line(e: SchemaElement) -> Seq<char> {
    "    "@ + e.name@ + ",\n"@
}

/// One arm of the lookup by numeric ID.
pub open spec fn from_line(e: SchemaElement) -> Seq<char> {
    "            0x"@ + hex_text(e.id) + " => Some(EbmlId::"@ + e.name@ + "),\n"@
}

/// One arm of the wire-type table.
pub open spec fn type_line(e: SchemaElement) -> Seq<char> {
    "            EbmlId::"@ + e.name@ + " => ElementType::"@ + type_word(e.type_) + ",\n"@
}

/// One arm of the unknown-size table.
pub open spec fn unknown_line(e: SchemaElement) -> Seq<char> {
    "            EbmlId::"@ + e.name@ + " => "@ + bool_word(e.unknown_size_allowed) + ",\n"@
}

/// The first `n` elements' lines, under one of the four line shapes.
pub open spec fn lines_upto(
    es: Seq<SchemaElement>,
    n: int,
    shape: spec_fn(SchemaElement) -> Seq<char>,
) -> Seq<char>
    decreases n,
{
    if n <= 0 {
        Seq::empty()
    } else {
        lines_upto(es, n - 1, shape) + shape(es[n - 1])
    }
}

/// The whole emitted ID table: the enumeration, the lookup by number, the
/// wire-type table, and the unknown-size table.
pub open spec fn ids_source(es: Seq<SchemaElement>) -> Seq<char> {
    "pub enum EbmlId {\n"@ + lines_upto(es, es.len() as int, |e: SchemaElement| enum_line(e))
        + "}\n\nimpl EbmlId {\n    pub fn from_u64(id: u64) -> Option<EbmlId> {\n        match id {\n"@
        + lines_upto(es, es.len() as int, |e: SchemaElement| from_line(e))
        + "            _ => None,\n        }\n    }\n\n    pub fn type_(&self) -> ElementType {\n        match self {\n"@
        + lines_upto(es, es.len() as int, |e: SchemaElement| type_line(e))
        + "        }\n    }\n\n    pub fn unknown_size_allowed(&self) -> bool {\n        match self {\n"@
        + lines_upto(es, es.len() as int, |e: SchemaElement| unknown_line(e))
        + "        }\n    }\n}\n"@
}

/// Append each element's line under one line shape.
#[verifier::loop_isolation(false)]
fn emit_enum_lines(acc: String, es: &Vec<SchemaElement>) -> (r: String)
    ensures
        r@ == acc@ + lines_upto(es@, es@.len() as int, |e: SchemaElement| enum_line(e)),
{
    let ghost start = acc@;
    let n = es.len();
    let mut out = acc;
    let mut i: usize = 0;
    while i < n
        invariant
            i <= n,
            out@ == start + lines_upto(es@, i as int, |e: SchemaElement| enum_line(e)),
        decreases n - i,
    {
        let e = &es[i];
        out = out.concat("    ").concat(e.name.as_str()).concat(",\n");
        i += 1;
    }
    out
}

/// Append each element's line under one line shape.
#[verifier::loop_isolation(false)]
fn emit_from_lines(acc: String, es: &Vec<SchemaElement>) -> (r: String)
    ensures
        r@ == acc@ + lines_upto(es@, es@.len() as int, |e: SchemaElement| from_line(e)),
{
    let ghost start = acc@;
    let n = es.len();
    let mut out = acc;
    let mut i: usize = 0;
    while i < n
        invariant
            i <= n,
            out@ == start + lines_upto(es@, i as int, |e: SchemaElement| from_line(e)),
        decreases n - i,
    {
        let e = &es[i];
        let hex = hex_of(e.id);
        out = out.concat("            0x").concat(hex.as_str()).concat(
            " => Some(EbmlId::",
        ).concat(e.name.as_str()).concat("),\n");
        i += 1;
    }
    out
}

/// Append each element's line under one line shape.
#[verifier::loop_isolation(false)]
fn emit_type_lines(acc: String, es: &Vec<SchemaElement>) -> (r: String)
    ensures
        r@ == acc@ + lines_upto(es@, es@.len() as int, |e: SchemaElement| type_line(e)),
{
    let ghost start = acc@;
    let n = es.len();
    let mut out = acc;
    let mut i: usize = 0;
    while i < n
        invariant
            i <= n,
            out@ == start + lines_upto(es@, i as int, |e: SchemaElement| type_line(e)),
        decreases n - i,
    {
        let e = &es[i];
        out = out.concat("            EbmlId::").concat(e.name.as_str()).concat(
            " => ElementType::",
        ).concat(type_word_of(e.type_)).concat(",\n");
        i += 1;
    }
    out
}

/// Append each element's line under one line shape.
#[verifier::loop_isolation(false)]
fn emit_unknown_lines(acc: String, es: &Vec<SchemaElement>) -> (r: String)
    ensures
        r@ == acc@ + lines_upto(es@, es@.len() as int, |e: SchemaElement| unknown_line(e)),
{
    let ghost start = acc@;
    let n = es.len();
    let mut out = acc;
    let mut i: usize = 0;
    while i < n
        invariant
            i <= n,
            out@ == start + lines_upto(es@, i as int, |e: SchemaElement| unknown_line(e)),
        decreases n - i,
    {
        let e = &es[i];
        let word = if e.unknown_size_allowed {
            "true"
        } else {
            "false"
        };
        out = out.concat("            EbmlId::").concat(e.name.as_str()).concat(" => ").concat(
            word,
        ).concat(",\n");
        i += 1;
    }
    out
}

/// Emit the element-ID table for a normalised schema, as source text: one
/// enumeration variant per element, the lookup by numeric ID, the wire-type
/// table, and the unknown-size table, each in the schema's element order.
pub fn generate(schema: &Schema) -> (r: String)
    ensures
        r@ == ids_source(schema.elements@),
{
    let acc = String::from_str("pub enum EbmlId {\n");
    let acc = emit_enum_lines(acc, &schema.elements);
    let acc = acc.concat(
        "}\n\nimpl EbmlId {\n    pub fn from_u64(id: u64) -> Option<EbmlId> {\n        match id {\n",
    );
    let acc = emit_from_lines(acc, &schema.elements);
    let acc = acc.concat(
        "            _ => None,\n        }\n    }\n\n    pub fn type_(&self) -> ElementType {\n        match self {\n",
    );
    let acc = emit_type_lines(acc, &schema.elements);
    let acc = acc.concat(
        "        }\n    }\n\n    pub fn unknown_size_allowed(&self) -> bool {\n        match self {\n",
    );
    let acc = emit_unknown_lines(acc, &schema.elements);
    let acc = acc.concat("        }\n    }\n}\n");
    acc
}

/// The fixed scaffold of the generated module: the artefact files it
/// declares.
pub open spec fn mod_source() -> Seq<char> {
    "pub mod ids;\npub mod structs;\npub mod writer;\n\nuse super::*;\n"@
}

/// Emit the generated module's scaffold.
pub fn generate_mod() -> (r: String)
    ensures
        r@ == mod_source(),
{
    String::from_str("pub mod ids;\npub mod structs;\npub mod writer;\n\nuse super::*;\n")
}


/// The emitted Rust type of a child's payload; a structural child's payload
/// is the child's own record type.
pub open spec fn native_word(e: SchemaElement) -> Seq<char> {
    match e.type_ {
        ElementType::UInteger => "u64"@,
        ElementType::Integer => "i64"@,
        ElementType::Float => "f64"@,
        ElementType::String => "String"@,
        ElementType::Utf8 => "String"@,
        ElementType::Binary => "Vec<u8>"@,
        ElementType::Date => "MkvDate"@,
        ElementType::Struct => e.name@,
    }
}

/// One field line of a struct definition, its shape chosen by the child's
/// cardinality.
pub open spec fn field_line(e: SchemaElement) -> Seq<char> {
    match e.attr {
        crate::schema::TypeAttr::Required => "    pub "@ + e.name@ + ": Ebml<"@ + native_word(e)
            + ">,\n"@,
        crate::schema::TypeAttr::Optional => "    pub "@ + e.name@ + ": Option<Ebml<"@
            + native_word(e) + ">>,\n"@,
        crate::schema::TypeAttr::Repeated => "    pub "@ + e.name@ + ": Vec<Ebml<"@
            + native_word(e) + ">>,\n"@,
    }
}

/// The field lines of one struct's first `n` children.
pub open spec fn field_lines_upto(es: Seq<SchemaElement>, children: Seq<usize>, n: int) -> Seq<
    char,
>
    decreases n,
{
    if n <= 0 {
        Seq::empty()
    } else {
        field_lines_upto(es, children, n - 1) + field_line(es[children[n - 1] as int])
    }
}

/// One emitted struct definition: a size slot, then one field per child.
pub open spec fn struct_source(es: Seq<SchemaElement>, s: crate::schema::SchemaStruct) -> Seq<
    char,
> {
    "pub struct "@ + s.name@ + " {\n    pub size: u64,\n"@ + field_lines_upto(
        es,
        s.children@,
        s.children@.len() as int,
    ) + "}\n\n"@
}

/// The emitted definitions of the first `n` structural elements.
pub open spec fn structs_source_upto(
    es: Seq<SchemaElement>,
    ss: Seq<crate::schema::SchemaStruct>,
    n: int,
) -> Seq<char>
    decreases n,
{
    if n <= 0 {
        Seq::empty()
    } else {
        structs_source_upto(es, ss, n - 1) + struct_source(es, ss[n - 1])
    }
}

/// Whether every child index of every structural entry lies in range.
pub open spec fn schema_wf(s: Schema) -> bool {
    forall|k: int, j: int|
        0 <= k < s.structs@.len() && 0 <= j < s.structs@[k].children@.len()
            ==> (#[trigger] s.structs@[k].children@[j]) < s.elements@.len()
}

/// The Rust type word of one child's payload, as text.
fn native_word_of(e: &SchemaElement) -> (r: &str)
    ensures
        r@ == native_word(*e),
{
    match e.type_ {
        ElementType::UInteger => "u64",
        ElementType::Integer => "i64",
        ElementType::Float => "f64",
        ElementType::String => "String",
        ElementType::Utf8 => "String",
        ElementType::Binary => "Vec<u8>",
        ElementType::Date => "MkvDate",
        ElementType::Struct => e.name.as_str(),
    }
}

/// One field line of a struct definition, as text.
fn field_line_of(e: &SchemaElement) -> (r: String)
    ensures
        r@ == field_line(*e),
{
    match e.attr {
        crate::schema::TypeAttr::Required => String::from_str("    pub ").concat(
            e.name.as_str(),
        ).concat(": Ebml<").concat(native_word_of(e)).concat(">,\n"),
        crate::schema::TypeAttr::Optional => String::from_str("    pub ").concat(
            e.name.as_str(),
        ).concat(": Option<Ebml<").concat(native_word_of(e)).concat(">>,\n"),
        crate::schema::TypeAttr::Repeated => String::from_str("    pub ").concat(
            e.name.as_str(),
        ).concat(": Vec<Ebml<").concat(native_word_of(e)).concat(">>,\n"),
    }
}

/// Append the field lines of one struct's children.
#[verifier::loop_isolation(false)]
fn emit_field_lines(acc: String, es: &Vec<SchemaElement>, children: &Vec<usize>) -> (r: String)
    requires
        forall|j: int| 0 <= j < children@.len() ==> (#[trigger] children@[j]) < es@.len(),
    ensures
        r@ == acc@ + field_lines_upto(es@, children@, children@.len() as int),
{
    let ghost start = acc@;
    let n = children.len();
    let mut out = acc;
    let mut i: usize = 0;
    while i < n
        invariant
            i <= n,
            out@ == start + field_lines_upto(es@, children@, i as int),
        decreases n - i,
    {
        let line = field_line_of(&es[children[i]]);
        out = out.concat(line.as_str());
        i += 1;
    }
    out
}

/// Emit one record definition per structural element of the schema: a size
/// slot, then one field per child, its shape chosen by cardinality.
#[verifier::loop_isolation(false)]
pub fn define_structs(schema: &Schema) -> (r: String)
    requires
        schema_wf(*schema),
    ensures
        r@ == structs_source_upto(
            schema.elements@,
            schema.structs@,
            schema.structs@.len() as int,
        ),
{
    let n = schema.structs.len();
    let mut out = String::new();
    proof {
        assert(out@ =~= Seq::<char>::empty());
        assert(Seq::<char>::empty() =~= structs_source_upto(schema.elements@, schema.structs@, 0));
    }
    let mut i: usize = 0;
    while i < n
        invariant
            i <= n,
            out@ == structs_source_upto(schema.elements@, schema.structs@, i as int),
        decreases n - i,
    {
        let s = &schema.structs[i];
        let acc = out.concat("pub struct ").concat(s.name.as_str()).concat(
            " {\n    pub size: u64,\n",
        );
        let acc = emit_field_lines(acc, &schema.elements, &s.children);
        out = acc.concat("}\n\n");
        i += 1;
    }
    out
}

/// A normalised schema's child indices all lie in range, so its struct
/// definitions can be emitted.
pub proof fn lemma_normalised_schema_wf(s: Schema, ws: Seq<crate::schema::RawElement>)
    requires
        s.elements@.len() == ws.len(),
        forall|k: int|
            0 <= k < s.structs@.len() ==> #[trigger] crate::schema::struct_entry_ok(
                s.structs@,
                ws,
                k,
                ws.len() as int,
            ),
    ensures
        schema_wf(s),
{
    assert forall|k: int, j: int|
        0 <= k < s.structs@.len() && 0 <= j < s.structs@[k].children@.len() implies (
    #[trigger] s.structs@[k].children@[j]) < s.elements@.len() by {
        assert(crate::schema::struct_entry_ok(s.structs@, ws, k, ws.len() as int));
        let name = crate::schema::rename_name(
            ws[crate::schema::structs_upto(ws, ws.len() as int)[k]].name@,
        );
        lemma_children_upto_in_range(ws, name, ws.len() as int);
        let ch = s.structs@[k].children@;
        assert(crate::schema::ints_of(ch) == crate::schema::children_upto(
            ws,
            name,
            ws.len() as int,
        ));
        assert(crate::schema::ints_of(ch)[j] == ch[j] as int);
    }
}

/// Every index a child collection holds is in range.
proof fn lemma_children_upto_in_range(
    ws: Seq<crate::schema::RawElement>,
    name: Seq<char>,
    n: int,
)
    requires
        n <= ws.len(),
    ensures
        forall|j: int|
            0 <= j < crate::schema::children_upto(ws, name, n).len()
                ==> 0 <= #[trigger] crate::schema::children_upto(ws, name, n)[j] < n,
    decreases n,
{
    if n > 0 {
        lemma_children_upto_in_range(ws, name, n - 1);
        let prev = crate::schema::children_upto(ws, name, n - 1);
        let cur = crate::schema::children_upto(ws, name, n);
        assert forall|j: int| 0 <= j < cur.len() implies 0 <= #[trigger] cur[j] < n by {
            if j < prev.len() {
                assert(cur[j] == prev[j]);
            }
        }
    }
}

} // verus!
