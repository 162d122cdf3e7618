//! The element framing layer and the typed struct runtime: headers, flat
//! structural traversal, field ordering, and whole-element writes.

use mkv::element::{Element, ElementContent};
use mkv::errors::MatroskaError;
use mkv::ids::EbmlId;
use mkv::structs::{Seek, SeekHead};
use mkv::{Ebml, ElementSize, ElementType};

fn seek_fixture() -> Seek {
    Seek {
        size: 0,
        seek_id: Ebml::new_index(0, vec![0x1A, 0x45, 0xDF, 0xA3]),
        seek_position: Ebml::new_index(1, 64),
    }
}

#[test]
fn seek_writes_exact_bytes() {
    // indices pin the order: SeekID first, SeekPosition second
    let seek = seek_fixture();
    let mut w = Vec::new();
    let n = seek.write_blocking(&mut w).unwrap();
    assert_eq!(n, w.len());
    assert_eq!(
        w,
        vec![
            0x4D, 0xBB, 0x8B, // Seek, body of 11 bytes
            0x53, 0xAB, 0x84, 0x1A, 0x45, 0xDF, 0xA3, // SeekID, 4 payload bytes
            0x53, 0xAC, 0x81, 64, // SeekPosition, 1 payload byte
        ]
    );
}

#[test]
fn duplicate_writes_the_same_bytes() {
    let seek = seek_fixture();
    let copy = seek.duplicate();
    let mut w1 = Vec::new();
    let mut w2 = Vec::new();
    seek.write_blocking(&mut w1).unwrap();
    copy.write_blocking(&mut w2).unwrap();
    assert_eq!(w1, w2);
}

#[test]
fn explicit_indices_fix_the_order() {
    let seek = Seek {
        size: 0,
        seek_id: Ebml::new_index(7, vec![0x11]),
        seek_position: Ebml::new_index(2, 5),
    };
    let fields = seek.elements();
    assert_eq!(fields.len(), 2);
    let first = fields[0].index();
    let second = fields[1].index();
    assert_eq!(first.0, EbmlId::SeekPosition);
    assert_eq!(second.0, EbmlId::SeekId);
    assert!(first.1.unwrap() <= second.1.unwrap());
}

#[test]
fn secondary_keys_break_ties_ascending() {
    let head = SeekHead {
        size: 0,
        seek: vec![
            Ebml::new(seek_fixture()),
            Ebml::new(seek_fixture()),
            Ebml::new(seek_fixture()),
        ],
    };
    let fields = head.elements();
    assert_eq!(fields.len(), 3);
    let mut last_key = 0u64;
    for f in &fields {
        let (id, idx, key) = f.index();
        assert_eq!(id, EbmlId::Seek);
        assert!(idx.is_none());
        assert!(key >= last_key);
        last_key = key;
    }
}

#[test]
fn header_then_struct_traversal_recovers_the_children() {
    let seek = seek_fixture();
    let mut w = Vec::new();
    seek.write_blocking(&mut w).unwrap();

    let el = Element::read_header_blocking(&w, 0).unwrap();
    assert_eq!(el.id, EbmlId::Seek);
    assert_eq!(el.type_, ElementType::Struct);
    assert_eq!(el.header_len, 3);
    assert_eq!(el.size, ElementSize::Sized(11));

    let (content, consumed) = el.read_body_blocking(&w, el.header_len as usize).unwrap();
    // the byte count reported equals the declared size
    assert_eq!(consumed, 11);
    let children = match content {
        ElementContent::Struct(children) => children,
        other => panic!("expected a structural body, got {:?}", other),
    };
    assert_eq!(children.len(), 2);
    assert_eq!(children[0].id, EbmlId::SeekId);
    assert_eq!(children[0].size, ElementSize::Sized(4));
    assert_eq!(children[1].id, EbmlId::SeekPosition);
    assert_eq!(children[1].size, ElementSize::Sized(1));

    // descend into the leaves: the written values come back
    let mut pos = el.header_len as usize;
    pos += children[0].header_len as usize;
    let id_bytes = mkv::io::read_bin(&w, pos, 4).unwrap();
    assert_eq!(id_bytes, vec![0x1A, 0x45, 0xDF, 0xA3]);
    pos += 4 + children[1].header_len as usize;
    let position = mkv::io::read_uint(&w, pos, 1).unwrap();
    assert_eq!(position, 64);
}

#[test]
fn over_long_child_is_rejected() {
    // a region of declared size 10 holding a child that declares 20 bytes
    let mut region = Vec::new();
    mkv::io::write_element_id_size(&mut region, 0xEC, 20).unwrap();
    let res = Element::read_struct_blocking(&region, 0, ElementSize::Sized(10));
    assert_eq!(
        res.unwrap_err(),
        MatroskaError::InvalidSize(EbmlId::Void, ElementSize::Sized(20))
    );
}

#[test]
fn skip_advances_past_the_payload() {
    let el = Element {
        id: EbmlId::Void,
        type_: ElementType::Binary,
        header_len: 2,
        size: ElementSize::Sized(5),
    };
    let mut pos: usize = 2;
    el.skip_blocking(&mut pos).unwrap();
    assert_eq!(pos, 7);
    let unk = Element { size: ElementSize::Unknown(0x7F), ..el };
    assert!(unk.skip_blocking(&mut pos).is_err());
    assert_eq!(pos, 7);
}

#[test]
fn ebml_header_writes_and_reads_back() {
    let header = mkv::structs::EbmlHeader {
        size: 0,
        version: Ebml::new_index(0, 1),
        read_version: Ebml::new_index(1, 1),
        doc_type: Ebml::new_index(2, String::from("matroska")),
        doc_type_version: Ebml::new_index(3, 4),
        doc_type_read_version: Ebml::new_index(4, 2),
        doc_type_extension: None,
        doc_type_extension_name: None,
        doc_type_extension_version: None,
        ebml_max_id_length: Ebml::new_index(5, 4),
        ebml_max_size_length: Ebml::new_index(6, 8),
    };
    let mut w = Vec::new();
    header.write_blocking(&mut w).unwrap();

    let el = Element::read_header_blocking(&w, 0).unwrap();
    assert_eq!(el.id, EbmlId::EbmlHeader);
    let (children, consumed) =
        Element::read_struct_blocking(&w, el.header_len as usize, el.size).unwrap();
    assert_eq!(consumed, el.size.unwrap());
    let ids: Vec<EbmlId> = children.iter().map(|c| c.id).collect();
    assert_eq!(
        ids,
        vec![
            EbmlId::Version,
            EbmlId::ReadVersion,
            EbmlId::DocType,
            EbmlId::DocTypeVersion,
            EbmlId::DocTypeReadVersion,
            EbmlId::EbmlMaxIdLength,
            EbmlId::EbmlMaxSizeLength,
        ]
    );
    // the DocType payload reads back as written
    let mut pos = el.header_len as usize;
    pos += children[0].header_len as usize + children[0].size.unwrap() as usize;
    pos += children[1].header_len as usize + children[1].size.unwrap() as usize;
    pos += children[2].header_len as usize;
    let doc = mkv::io::read_utf8(&w, pos, children[2].size.unwrap()).unwrap();
    assert_eq!(doc, "matroska");
}

#[test]
fn element_size_helpers() {
    assert_eq!(ElementSize::Sized(5).unwrap(), 5);
    assert_eq!(ElementSize::Unknown(0x7F).unwrap(), 0x7F);
    assert_eq!(ElementSize::Sized(5).try_sized(EbmlId::Info).unwrap(), 5);
    assert_eq!(
        ElementSize::Unknown(0x7F).try_sized(EbmlId::Info).unwrap_err(),
        MatroskaError::InvalidSize(EbmlId::Info, ElementSize::Unknown(0x7F))
    );
    assert_eq!(ElementSize::default(), ElementSize::Unknown(mkv::io::SIZE_UNKNOWN));
}

#[test]
fn schema_table_is_consistent() {
    assert_eq!(EbmlId::from_u64(0x18538067).unwrap(), EbmlId::Segment);
    assert_eq!(EbmlId::Segment.to_u64(), 0x18538067);
    assert_eq!(EbmlId::Segment.type_(), ElementType::Struct);
    assert!(EbmlId::Segment.unknown_size_allowed());
    assert!(EbmlId::Cluster.unknown_size_allowed());
    assert!(!EbmlId::Info.unknown_size_allowed());
    assert_eq!(EbmlId::from_u64(0xDEAD).unwrap_err(), MatroskaError::InvalidID(0xDEAD));
    assert_eq!(EbmlId::TimestampScale.type_(), ElementType::UInteger);
    assert_eq!(EbmlId::Duration.type_(), ElementType::Float);
    assert_eq!(EbmlId::DateUtc.type_(), ElementType::Date);
    assert_eq!(EbmlId::DocType.type_(), ElementType::Utf8);
    assert_eq!(EbmlId::Void.type_(), ElementType::Binary);
}

#[test]
fn segment_write_orders_top_level_children() {
    let seg = mkv::structs::Segment {
        size: ElementSize::Sized(0),
        void: vec![],
        crc_32: None,
        seek_head: vec![Ebml::new_index(0, SeekHead { size: 0, seek: vec![Ebml::new(seek_fixture())] })],
        info: Ebml::new_index(1, mkv::structs::Info {
            size: 0,
            segment_uuid: None,
            segment_filename: None,
            prev_uuid: None,
            prev_filename: None,
            next_uuid: None,
            next_filename: None,
            segment_family: vec![],
            chapter_translate: vec![],
            timestamp_scale: Ebml::new_index(0, 1000000),
            duration: None,
            date_utc: None,
            title: None,
            muxing_app: Ebml::new_index(1, String::from("mkv")),
            writing_app: Ebml::new_index(2, String::from("mkv")),
        }),
        cluster: vec![],
        tracks: None,
        cues: None,
        attachments: None,
        chapters: None,
        tags: vec![],
    };
    let mut w = Vec::new();
    seg.write_blocking(&mut w).unwrap();
    let el = Element::read_header_blocking(&w, 0).unwrap();
    assert_eq!(el.id, EbmlId::Segment);
    let (children, _) = Element::read_struct_blocking(&w, el.header_len as usize, el.size).unwrap();
    let ids: Vec<EbmlId> = children.iter().map(|c| c.id).collect();
    assert_eq!(ids, vec![EbmlId::SeekHead, EbmlId::Info]);
}
