//! The primitive codec, exercised on concrete values: VINT widths and round
//! trips, element IDs and sizes, and the eight payload codecs.

use mkv::errors::MatroskaError;
use mkv::ids::EbmlId;
use mkv::io;
use mkv::{ElementSize, FloatValue};

use rand::Rng;

#[test]
fn parse_ebml_number_test_1() {
    {
        let identifier = true;
        let input = io::gen_ebml_number(0x1A45DFA3, identifier);
        assert_eq!(input.len(), 4);
        assert_eq!(input, [0x1A, 0x45, 0xDF, 0xA3]);
        let (val, size) = io::read_element_id(&input, 0).unwrap();
        assert_eq!(val, 0x1A45DFA3);
        assert_eq!(size, 4);
    }
    {
        let identifier = false;
        let input = io::gen_ebml_number(0x0A45DFA3, identifier);
        assert_eq!(input, [0x1A, 0x45, 0xDF, 0xA3]);
        let (val, size) = io::read_element_size(&input, 0).unwrap();
        assert_eq!(val.unwrap(), 0x0A45DFA3);
        assert_eq!(size, 4);
    }
    {
        let identifier = false;
        let input = io::gen_ebml_number(0x0A45, identifier);
        assert_eq!(input, [0x4A, 0x45]);
        let (val, size) = io::read_element_size(&input, 0).unwrap();
        assert_eq!(val.unwrap(), 0x0A45);
        assert_eq!(size, 2);

        let input = [0x4A, 0x45, 0xDF, 0xA3];
        let (val, size) = io::read_element_size(&input, 0).unwrap();
        assert_eq!(val.unwrap(), 0x0A45);
        assert_eq!(size, 2);
    }
    {
        let input = [0xFF, 0x7F];
        let res = io::read_element_size(&input, 0);
        assert_eq!(res.is_err(), false);
    }
    {
        let input = [0x7F, 0xFF];
        let res = io::read_element_size(&input, 0);
        assert_eq!(res.is_err(), false);
    }
    {
        let input = [0x00];
        let res = io::read_element_size(&input, 0);
        assert_eq!(res.is_err(), true);
    }
    {
        let input = [0x40];
        let res = io::read_element_size(&input, 0);
        assert_eq!(res.is_err(), true);
    }
    {
        let input: [u8; 0] = [];
        let res = io::read_element_id(&input, 0);
        assert_eq!(res.is_err(), true);
    }
}

// The all-ones payload at each width is reserved, so the encoder takes the
// next width up for it; the eight-byte all-ones value has nowhere to go.
#[test]
fn test_vint() {
    let vint_max: u64 = 0xFFFFFFFFFFFFFF;
    assert!(io::gen_vint(u64::MAX).is_err());
    assert!(io::gen_vint(vint_max + 1).is_err());
    assert!(io::gen_vint(vint_max).is_err());
    let res = io::gen_vint(vint_max - 1);
    assert!(res.is_ok());
    assert_eq!(res.unwrap().len(), 8);
    for i in 1..=8u32 {
        let width_max = 2u64.pow((8 - i) + 8 * (i - 1)) - 1;

        let res = io::gen_vint(width_max - 1);
        assert!(res.is_ok());
        assert_eq!(res.unwrap().len(), i as usize);

        let res = io::gen_vint(width_max);
        if i < 8 {
            assert!(res.is_ok());
            assert_eq!(res.unwrap().len(), i as usize + 1);
        } else {
            assert!(res.is_err());
        }

        for _ in 0..10000 {
            let val = rand::thread_rng().gen_range(0..width_max);
            let res = io::gen_vint(val);
            assert!(res.is_ok());
            let data = res.unwrap();
            let res = io::read_vint(&data, 0);
            assert!(res.is_ok());
            let (varint, len) = res.unwrap();
            assert_eq!(varint, val);
            assert_eq!(len, data.len() as u64);
        }
    }

    for _ in 0..10000 {
        let val = rand::thread_rng().gen_range(0..vint_max - 1);
        let res = io::gen_vint(val);
        assert!(res.is_ok());
        let data = res.unwrap();
        let (varint, len) = io::read_vint(&data, 0).unwrap();
        assert_eq!(varint, val);
        assert_eq!(len, data.len() as u64);
    }

    // fixed patterns: reads, and the shortest re-encoding of what was read
    let (v, l) = io::read_vint(&[0b_1111_1111], 0).unwrap();
    assert_eq!((v, l), (0b_111_1111, 1));
    assert_eq!(io::gen_vint(v).unwrap(), vec![0x40, 0x7F]);

    let (v, l) = io::read_vint(&[0b_1000_0000], 0).unwrap();
    assert_eq!((v, l), (0, 1));
    assert_eq!(io::gen_vint(v).unwrap(), vec![0x80]);

    assert!(io::read_vint(&[0b_0000_0000], 0).is_err());

    let (v, l) = io::read_vint(&[0x40, 0x00], 0).unwrap();
    assert_eq!((v, l), (0, 2));
    assert_eq!(io::gen_vint(v).unwrap(), vec![0x80]);

    let (v, l) = io::read_vint(&[0x01, 0x00, 0x00, 0x00, 0x00, 0x00, 0x00, 0x02], 0).unwrap();
    assert_eq!((v, l), (2, 8));
    assert_eq!(io::gen_vint(v).unwrap(), vec![0x82]);

    let (v, l) = io::read_vint(&[0x01, 0x00, 0xFF, 0xFF, 0xFF, 0xFF, 0xFF, 0xFF], 0).unwrap();
    assert_eq!((v, l), (0xFFFFFFFFFFFF, 8));
    assert_eq!(
        io::gen_vint(v).unwrap(),
        vec![0x02, 0xFF, 0xFF, 0xFF, 0xFF, 0xFF, 0xFF]
    );
}

#[test]
fn minimal_vint() {
    let (v, l) = io::read_vint(&[0x81], 0).unwrap();
    assert_eq!((v, l), (1, 1));
    assert_eq!(io::gen_vint(1).unwrap(), vec![0x81]);
}

#[test]
fn two_byte_vint_lower_bound() {
    assert_eq!(io::gen_vint(0x80).unwrap(), vec![0x40, 0x80]);
    let (v, l) = io::read_vint(&[0x40, 0x80], 0).unwrap();
    assert_eq!((v, l), (0x80, 2));
}

#[test]
fn element_id_round_trip_on_wire() {
    let buf = io::gen_element_id_size(0x1A45DFA3, 0);
    assert_eq!(&buf[..4], &[0x1A, 0x45, 0xDF, 0xA3]);
    let (id, len) = io::read_element_id(&buf, 0).unwrap();
    assert_eq!((id, len), (0x1A45DFA3, 4));
}

#[test]
fn unknown_size_acceptance() {
    let (size, len) = io::read_element_size(&[0xFF], 0).unwrap();
    assert_eq!(size, ElementSize::Unknown(0x7F));
    assert_eq!(len, 1);
}

#[test]
fn forbidden_unknown_size() {
    // a Cluster header may carry an unknown size; an Info header may not
    let mut cluster = io::gen_ebml_number(0x1F43B675, true);
    cluster.push(0xFF);
    let (id, size, hl) = io::read_element_id_size(&cluster, 0).unwrap();
    assert_eq!(id, EbmlId::Cluster);
    assert_eq!(size, ElementSize::Unknown(0x7F));
    assert_eq!(hl, 5);

    let mut info = io::gen_ebml_number(0x1549A966, true);
    info.push(0xFF);
    let res = io::read_element_id_size(&info, 0);
    assert_eq!(
        res.unwrap_err(),
        MatroskaError::InvalidSize(EbmlId::Info, ElementSize::Unknown(0x7F))
    );
}

#[test]
fn unknown_id_is_rejected() {
    // a structurally valid VINT that names no schema element
    let buf = [0x4F, 0x21, 0x81];
    let res = io::read_element_id_size(&buf, 0);
    assert_eq!(res.unwrap_err(), MatroskaError::InvalidID(0x4F21));
}

#[test]
fn uint_round_trip_and_zero_payload() {
    assert_eq!(io::gen_uint(0), Vec::<u8>::new());
    assert_eq!(io::gen_uint(0x0100), vec![0x01, 0x00]);
    for val in [0u64, 1, 0xFF, 0x100, 0xFFFF, 0x10000, u64::MAX] {
        let buf = io::gen_uint(val);
        assert_eq!(io::read_uint(&buf, 0, buf.len() as u64).unwrap(), val);
    }
    // a zero-length integer payload decodes to 0
    assert_eq!(io::read_uint(&[], 0, 0).unwrap(), 0);
    assert_eq!(io::read_int(&[], 0, 0).unwrap(), 0);
    assert_eq!(io::read_uint(&[0xAA], 0, 9).unwrap_err(), MatroskaError::InvalidUint);
}

#[test]
fn int_round_trip_sign_extends() {
    assert_eq!(io::gen_int(-1), vec![0xFF]);
    assert_eq!(io::read_int(&[0xFF], 0, 1).unwrap(), -1);
    for val in [0i64, 1, -1, 127, -128, 128, -129, 0x7FFF, -0x8000, i64::MIN, i64::MAX] {
        let buf = io::gen_int(val);
        assert_eq!(io::read_int(&buf, 0, buf.len() as u64).unwrap(), val);
    }
}

#[test]
fn float_payload_length_is_checked() {
    assert_eq!(
        io::read_float(&[0, 0, 0], 0, 3).unwrap_err(),
        MatroskaError::InvalidFloat
    );
    assert_eq!(
        io::read_float(&[0; 8], 0, 5).unwrap_err(),
        MatroskaError::InvalidFloat
    );
    let bits = 1.5f32.to_bits();
    let mut w = Vec::new();
    mkv::io::write_el_float32(&mut w, 0x4489, bits).unwrap();
    let (_, _, hl) = io::read_element_id_size(&w, 0).unwrap();
    match io::read_float(&w, hl as usize, 4).unwrap() {
        FloatValue::F32(b) => assert_eq!(f32::from_bits(b), 1.5),
        FloatValue::F64(_) => panic!("wrong width"),
    }
}

#[test]
fn float64_round_trip() {
    let bits = 3.14f64.to_bits();
    let mut w = Vec::new();
    let n = io::write_el_float64(&mut w, 0x4489, bits).unwrap();
    assert_eq!(n, w.len());
    let (id, size, hl) = io::read_element_id_size(&w, 0).unwrap();
    assert_eq!(id, EbmlId::Duration);
    assert_eq!(size, ElementSize::Sized(8));
    assert_eq!(w.len(), hl as usize + 8);
    match io::read_float(&w, hl as usize, 8).unwrap() {
        FloatValue::F64(b) => assert_eq!(f64::from_bits(b), 3.14),
        FloatValue::F32(_) => panic!("wrong width"),
    }
}

#[test]
fn date_payload_length_is_checked() {
    assert_eq!(
        io::read_date(&[0; 8], 0, 4).unwrap_err(),
        MatroskaError::InvalidDate
    );
}

#[test]
fn date_epoch_round_trip() {
    // eight zero bytes decode to the epoch instant itself
    let d = io::read_date(&[0; 8], 0, 8).unwrap();
    assert_eq!(d.ns, 0);
    // that instant is 2001-01-01T00:00:00Z
    let epoch = time::OffsetDateTime::from_unix_timestamp(978307200).unwrap();
    assert_eq!(epoch.year(), 2001);
    assert_eq!(epoch.month(), time::Month::January);
    assert_eq!(epoch.day(), 1);
    assert_eq!((epoch.hour(), epoch.minute(), epoch.second()), (0, 0, 0));
    // writing the instant back yields the same eight bytes
    let mut w = Vec::new();
    io::write_el_date(&mut w, 0x4461, &mkv::MkvDate { ns: 0 }).unwrap();
    let (id, size, hl) = io::read_element_id_size(&w, 0).unwrap();
    assert_eq!(id, EbmlId::DateUtc);
    assert_eq!(size, ElementSize::Sized(8));
    assert_eq!(&w[hl as usize..], &[0u8; 8]);
}

#[test]
fn text_round_trip_through_utf8() {
    let mut w = Vec::new();
    io::write_el_utf8(&mut w, 0x4282, "matroska").unwrap();
    let (id, size, hl) = io::read_element_id_size(&w, 0).unwrap();
    assert_eq!(id, EbmlId::DocType);
    assert_eq!(size, ElementSize::Sized(8));
    let s = io::read_utf8(&w, hl as usize, 8).unwrap();
    assert_eq!(s, "matroska");
    // invalid UTF-8 is rejected with the dedicated error
    assert_eq!(
        io::read_utf8(&[0xFF, 0xFE], 0, 2).unwrap_err(),
        MatroskaError::UTF8
    );
    let t = io::read_string(&w, hl as usize, 8).unwrap();
    assert_eq!(t, "matroska");
}

#[test]
fn bin_round_trip() {
    let payload = vec![1u8, 2, 3, 4, 5];
    let mut w = Vec::new();
    io::write_el_bin(&mut w, 0xEC, &payload).unwrap();
    let (id, size, hl) = io::read_element_id_size(&w, 0).unwrap();
    assert_eq!(id, EbmlId::Void);
    assert_eq!(size, ElementSize::Sized(5));
    assert_eq!(io::read_bin(&w, hl as usize, 5).unwrap(), payload);
}

#[test]
fn truncated_input_is_io_error() {
    assert_eq!(io::read_vint(&[0x40], 0).unwrap_err(), MatroskaError::Io);
    assert_eq!(io::read_uint(&[0x01], 0, 2).unwrap_err(), MatroskaError::Io);
    assert_eq!(io::read_bin(&[1, 2], 0, 3).unwrap_err(), MatroskaError::Io);
}
