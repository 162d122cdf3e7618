//! The schema pipeline on concrete catalogues: path splitting, cardinality
//! derivation, the type-word mapping, the injected records, and the
//! normalisation error cases.

use mkv::schema::{builtin_header_elements, builtin_void_crc32, derive_attr,
    element_type_from_xml, normalise, parse_path, RawElement, SchemaError, TypeAttr};
use mkv::ElementType;

fn raw(name: &str, path: &str, id: u64, type_: ElementType, min: Option<u32>, max: Option<u32>)
    -> RawElement {
    RawElement {
        name: String::from(name),
        path: String::from(path),
        id,
        type_,
        min_occurs: min,
        max_occurs: max,
        recurring: false,
        unknown_size_allowed: false,
        recursive: false,
        default: None,
        minver: None,
        maxver: None,
    }
}

#[test]
fn paths_split_strip_and_rename() {
    assert_eq!(
        parse_path("\\Segment\\Info\\TimestampScale").unwrap(),
        vec!["Segment", "Info", "TimestampScale"]
    );
    // the recurring marker is stripped, the root's spec name is renamed
    assert_eq!(
        parse_path("\\Segment\\Chapters\\EditionEntry\\+ChapterAtom").unwrap(),
        vec!["Segment", "Chapters", "EditionEntry", "ChapterAtom"]
    );
    assert_eq!(parse_path("\\EBML\\DocType").unwrap(), vec!["EbmlHeader", "DocType"]);
    assert_eq!(parse_path("").unwrap(), Vec::<String>::new());
    assert_eq!(parse_path("\\").unwrap(), Vec::<String>::new());
}

#[test]
fn cardinality_follows_the_bounds() {
    assert_eq!(derive_attr(Some(1), Some(1)), TypeAttr::Required);
    assert_eq!(derive_attr(None, Some(1)), TypeAttr::Optional);
    assert_eq!(derive_attr(Some(0), Some(1)), TypeAttr::Optional);
    assert_eq!(derive_attr(Some(1), Some(2)), TypeAttr::Repeated);
    assert_eq!(derive_attr(Some(0), None), TypeAttr::Repeated);
    assert_eq!(derive_attr(None, None), TypeAttr::Repeated);
}

#[test]
fn type_words_map_to_wire_types() {
    assert_eq!(element_type_from_xml("uinteger").unwrap(), ElementType::UInteger);
    assert_eq!(element_type_from_xml("integer").unwrap(), ElementType::Integer);
    assert_eq!(element_type_from_xml("float").unwrap(), ElementType::Float);
    assert_eq!(element_type_from_xml("string").unwrap(), ElementType::String);
    assert_eq!(element_type_from_xml("utf-8").unwrap(), ElementType::Utf8);
    assert_eq!(element_type_from_xml("binary").unwrap(), ElementType::Binary);
    assert_eq!(element_type_from_xml("date").unwrap(), ElementType::Date);
    // the catalogue's structural keyword maps to the library's name for it
    assert_eq!(element_type_from_xml("master").unwrap(), ElementType::Struct);
    assert_eq!(element_type_from_xml("Master").unwrap_err(), SchemaError::InvalidType);
}

#[test]
fn builtins_carry_the_fixed_records() {
    let hdr = builtin_header_elements();
    assert_eq!(hdr.len(), 9);
    assert_eq!(hdr[0].name, "EbmlHeader");
    assert_eq!(hdr[0].id, 0x1A45DFA3);
    assert_eq!(hdr[0].type_, ElementType::Struct);
    assert_eq!(hdr[3].name, "DocType");
    assert_eq!(hdr[3].id, 0x4282);
    assert_eq!(hdr[3].type_, ElementType::Utf8);

    let vc = builtin_void_crc32();
    assert_eq!(vc.len(), 2);
    assert_eq!((vc[0].name.as_str(), vc[0].id), ("Void", 0xEC));
    assert_eq!((vc[1].name.as_str(), vc[1].id), ("Crc32", 0xBF));
    assert_eq!(vc[0].type_, ElementType::Binary);
    assert_eq!(vc[1].type_, ElementType::Binary);
    assert_eq!(vc[0].path, "\\Segment\\Void");
}

#[test]
fn a_small_catalogue_normalises() {
    let mut raws = builtin_header_elements();
    raws.push(raw("Segment", "\\Segment", 0x18538067, ElementType::Struct, Some(1), Some(1)));
    raws.append(&mut builtin_void_crc32());
    raws.push(raw("Info", "\\Segment\\Info", 0x1549A966, ElementType::Struct, Some(1), Some(1)));
    raws.push(raw(
        "TimestampScale",
        "\\Segment\\Info\\TimestampScale",
        0x2AD7B1,
        ElementType::UInteger,
        Some(1),
        Some(1),
    ));
    raws.push(raw("Cluster", "\\Segment\\Cluster", 0x1F43B675, ElementType::Struct, Some(0), None));

    let schema = normalise(raws).unwrap();
    assert_eq!(schema.elements.len(), 15);
    // paths are resolved into ancestor lists
    let ts = schema.elements.iter().find(|e| e.name == "TimestampScale").unwrap();
    assert_eq!(ts.path, vec!["Segment", "Info"]);
    assert_eq!(ts.attr, TypeAttr::Required);
    // each structural element collects exactly its children, in order
    let seg = schema.structs.iter().find(|s| s.name == "Segment").unwrap();
    let kids: Vec<&str> =
        seg.children.iter().map(|&i| schema.elements[i].name.as_str()).collect();
    assert_eq!(kids, vec!["Void", "Crc32", "Info", "Cluster"]);
    let info = schema.structs.iter().find(|s| s.name == "Info").unwrap();
    let kids: Vec<&str> =
        info.children.iter().map(|&i| schema.elements[i].name.as_str()).collect();
    assert_eq!(kids, vec!["TimestampScale"]);
}

#[test]
fn duplicate_names_are_refused() {
    let raws = vec![
        raw("Segment", "\\Segment", 0x18538067, ElementType::Struct, Some(1), Some(1)),
        raw("Segment", "\\Segment", 0x18538067, ElementType::Struct, Some(1), Some(1)),
    ];
    assert_eq!(normalise(raws).unwrap_err(), SchemaError::DuplicateName);
}

#[test]
fn unresolved_ancestors_are_refused() {
    let raws = vec![raw(
        "Info",
        "\\Segment\\Info",
        0x1549A966,
        ElementType::Struct,
        Some(1),
        Some(1),
    )];
    assert_eq!(normalise(raws).unwrap_err(), SchemaError::UnresolvedSegment);
}

#[test]
fn a_path_must_name_its_element() {
    let raws = vec![raw(
        "Info",
        "\\Segment\\Tracks",
        0x1549A966,
        ElementType::Struct,
        Some(1),
        Some(1),
    )];
    assert_eq!(normalise(raws).unwrap_err(), SchemaError::PathMismatch);
}

#[test]
fn hex_rendering_is_minimal_uppercase() {
    assert_eq!(mkv::codegen::hex_of(0), "0");
    assert_eq!(mkv::codegen::hex_of(0xEC), "EC");
    assert_eq!(mkv::codegen::hex_of(0x1A45DFA3), "1A45DFA3");
    assert_eq!(mkv::codegen::hex_of(u64::MAX), "FFFFFFFFFFFFFFFF");
}

#[test]
fn the_id_table_emits_one_arm_per_element() {
    let raws = vec![
        raw("Segment", "\\Segment", 0x18538067, ElementType::Struct, Some(1), Some(1)),
        raw("Void", "\\Segment\\Void", 0xEC, ElementType::Binary, Some(0), None),
    ];
    let schema = normalise(raws).unwrap();
    let text = mkv::codegen::generate(&schema);
    let mut expected = String::new();
    for piece in [
        "pub enum EbmlId {\n",
        "    Segment,\n",
        "    Void,\n",
        "}\n\n",
        "impl EbmlId {\n",
        "    pub fn from_u64(id: u64) -> Option<EbmlId> {\n",
        "        match id {\n",
        "            0x18538067 => Some(EbmlId::Segment),\n",
        "            0xEC => Some(EbmlId::Void),\n",
        "            _ => None,\n",
        "        }\n",
        "    }\n\n",
        "    pub fn type_(&self) -> ElementType {\n",
        "        match self {\n",
        "            EbmlId::Segment => ElementType::Struct,\n",
        "            EbmlId::Void => ElementType::Binary,\n",
        "        }\n",
        "    }\n\n",
        "    pub fn unknown_size_allowed(&self) -> bool {\n",
        "        match self {\n",
        "            EbmlId::Segment => false,\n",
        "            EbmlId::Void => false,\n",
        "        }\n",
        "    }\n",
        "}\n",
    ] {
        expected.push_str(piece);
    }
    assert_eq!(text, expected);
    assert_eq!(
        mkv::codegen::generate_mod(),
        "pub mod ids;\npub mod structs;\npub mod writer;\n\nuse super::*;\n"
    );
}

#[test]
fn struct_definitions_emit_one_field_per_child() {
    let raws = vec![
        raw("Segment", "\\Segment", 0x18538067, ElementType::Struct, Some(1), Some(1)),
        raw("Info", "\\Segment\\Info", 0x1549A966, ElementType::Struct, Some(1), Some(1)),
        raw(
            "TimestampScale",
            "\\Segment\\Info\\TimestampScale",
            0x2AD7B1,
            ElementType::UInteger,
            Some(1),
            Some(1),
        ),
        raw("Title", "\\Segment\\Info\\Title", 0x7BA9, ElementType::Utf8, Some(0), Some(1)),
        raw("Void", "\\Segment\\Void", 0xEC, ElementType::Binary, Some(0), None),
    ];
    let schema = normalise(raws).unwrap();
    let text = mkv::codegen::define_structs(&schema);
    let mut expected = String::new();
    for piece in [
        "pub struct Segment {\n",
        "    pub size: u64,\n",
        "    pub Info: Ebml<Info>,\n",
        "    pub Void: Vec<Ebml<Vec<u8>>>,\n",
        "}\n\n",
        "pub struct Info {\n",
        "    pub size: u64,\n",
        "    pub TimestampScale: Ebml<u64>,\n",
        "    pub Title: Option<Ebml<String>>,\n",
        "}\n\n",
    ] {
        expected.push_str(piece);
    }
    assert_eq!(text, expected);
}
