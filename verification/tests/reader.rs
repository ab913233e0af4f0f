use jcfreader::class_file_reader::{
    AttributeInfo, ClassFileReader, FieldInfo, Index, JavaVersion, TraceRecord, TraceValue,
};
use jcfreader::error::Error;
use jcfreader::text::{i64_to_decimal, u64_to_decimal, u64_to_hex};
use jcfreader::Dump;

fn reader(bytes: Vec<u8>, dump: Dump) -> ClassFileReader {
    ClassFileReader::new(&String::from("Example.class"), bytes, dump)
}

#[test]
fn reads_big_endian_fields() {
    let mut r = reader(
        vec![0xca, 0xfe, 0xba, 0xbe, 0x00, 0x34, 0x7f, 1, 2, 3, 4, 5, 6, 7, 8],
        Dump::Off,
    );
    assert_eq!(r.read_u32().unwrap(), 0xcafebabe);
    assert_eq!(r.read_u16().unwrap(), 0x34);
    assert_eq!(r.read_u8().unwrap(), 0x7f);
    assert_eq!(r.position(), 7);
    assert_eq!(r.read_u64().unwrap(), 0x0102030405060708);
    assert_eq!(r.position(), 15);
    assert_eq!(r.file_name(), "Example.class");
}

#[test]
fn reads_the_largest_values() {
    let mut r = reader(vec![0xff; 15], Dump::Off);
    assert_eq!(r.read_u64().unwrap(), u64::MAX);
    assert_eq!(r.read_u32().unwrap(), u32::MAX);
    assert_eq!(r.read_u16().unwrap(), u16::MAX);
    assert_eq!(r.read_u8().unwrap(), u8::MAX);
}

#[test]
fn floats_are_read_as_their_bits() {
    let mut bytes = 1.5f32.to_be_bytes().to_vec();
    bytes.extend_from_slice(&(-2.25f64).to_be_bytes());
    let mut r = reader(bytes, Dump::Off);
    let single = r.read_f32().unwrap();
    let double = r.read_f64().unwrap();
    assert_eq!(single, 0x3fc00000);
    assert_eq!(f32::from_bits(single), 1.5f32);
    assert_eq!(f64::from_bits(double), -2.25f64);
    assert_eq!(r.position(), 12);
}

#[test]
fn a_short_read_fails_and_leaves_the_reader_unchanged() {
    let mut r = reader(vec![1, 2, 3], Dump::Hex);
    assert_eq!(
        r.context("wide").read_u32(),
        Err(Error::TruncatedInput { offset: 0, needed: 4, label: Some(String::from("wide")) })
    );
    assert_eq!(r.position(), 0);
    assert!(r.trace().is_empty());
    // The label is still pending: the next read carries it.
    assert_eq!(r.read_u16().unwrap(), 0x0102);
    assert_eq!(r.trace()[0].label, Some(String::from("wide")));
    assert_eq!(
        r.read_u16(),
        Err(Error::TruncatedInput { offset: 2, needed: 2, label: None })
    );
    assert_eq!(
        r.read_u64(),
        Err(Error::TruncatedInput { offset: 2, needed: 8, label: None })
    );
    assert_eq!(
        r.read_f32(),
        Err(Error::TruncatedInput { offset: 2, needed: 4, label: None })
    );
    assert_eq!(
        r.read_f64(),
        Err(Error::TruncatedInput { offset: 2, needed: 8, label: None })
    );
    assert_eq!(r.read_u8().unwrap(), 3);
    assert_eq!(
        r.read_u8(),
        Err(Error::TruncatedInput { offset: 3, needed: 1, label: None })
    );
    assert_eq!(
        r.read_bytes(1),
        Err(Error::TruncatedInput { offset: 3, needed: 1, label: None })
    );
    assert_eq!(r.read_bytes(0).unwrap(), Vec::<u8>::new());
    assert_eq!(r.position(), 3);
}

#[test]
fn tracing_records_each_field() {
    let mut r = reader(vec![0x00, 0x34, 0x09, 0x40, 0x49, 0x0f, 0xdb], Dump::Hex);
    assert_eq!(r.context("major").read_u16().unwrap(), 0x34);
    assert_eq!(r.read_u8().unwrap(), 9);
    assert_eq!(r.context("pi").read_f32().unwrap(), 0x40490fdb);
    assert_eq!(
        r.trace(),
        &vec![
            TraceRecord {
                offset: 0,
                label: Some(String::from("major")),
                bytes: vec![0x00, 0x34],
                value: TraceValue::Unsigned(0x34),
            },
            TraceRecord { offset: 2, label: None, bytes: vec![9], value: TraceValue::Unsigned(9) },
            TraceRecord {
                offset: 3,
                label: Some(String::from("pi")),
                bytes: vec![0x40, 0x49, 0x0f, 0xdb],
                value: TraceValue::Float(0x40490fdb),
            },
        ]
    );
}

#[test]
fn tracing_does_not_change_what_is_read() {
    let bytes: Vec<u8> = (0u8..40).collect();
    let mut quiet = reader(bytes.clone(), Dump::Off);
    let mut hex = reader(bytes.clone(), Dump::Hex);
    let mut byte = reader(bytes, Dump::Byte);
    for r in [&mut quiet, &mut hex, &mut byte] {
        assert_eq!(r.context("a").read_u16().unwrap(), 0x0001);
        assert_eq!(r.read_u32().unwrap(), 0x02030405);
        assert_eq!(r.read_bytes(20).unwrap(), (6u8..26).collect::<Vec<u8>>());
        assert_eq!(r.read_u64().unwrap(), 0x1a1b1c1d1e1f2021);
        assert_eq!(r.position(), 34);
    }
    assert!(quiet.trace().is_empty());
    assert_eq!(hex.trace().len(), 5);
    assert_eq!(hex.trace(), byte.trace());
}

#[test]
fn a_run_of_bytes_is_traced_sixteen_to_a_record() {
    let bytes: Vec<u8> = (0u8..40).collect();
    let mut r = reader(bytes.clone(), Dump::Byte);
    assert_eq!(r.read_u8().unwrap(), 0);
    let run = r.read_bytes(35).unwrap();
    assert_eq!(run, bytes[1..36].to_vec());
    let trace = r.trace();
    assert_eq!(trace.len(), 4);
    assert_eq!(trace[1].offset, 1);
    assert_eq!(trace[1].bytes, bytes[1..17].to_vec());
    assert_eq!(trace[1].value, TraceValue::Raw);
    assert_eq!(trace[2].offset, 17);
    assert_eq!(trace[2].bytes, bytes[17..33].to_vec());
    assert_eq!(trace[3].offset, 33);
    assert_eq!(trace[3].bytes, bytes[33..36].to_vec());
    assert_eq!(trace[3].label, None);
}

#[test]
fn dump_bytes_of_exactly_sixteen_bytes_is_one_record() {
    let mut r = reader(vec![], Dump::Hex);
    let buf: Vec<u8> = (0u8..16).collect();
    assert_eq!(r.dump_bytes(100, &buf), &buf[..]);
    assert_eq!(r.trace().len(), 1);
    assert_eq!(r.trace()[0].offset, 100);
    let more: Vec<u8> = (0u8..17).collect();
    r.dump_bytes(200, &more);
    assert_eq!(r.trace().len(), 3);
    assert_eq!(r.trace()[2].offset, 216);
    assert_eq!(r.trace()[2].bytes, vec![16]);
    r.dump_bytes(300, &[]);
    assert_eq!(r.trace().len(), 3);
}

#[test]
fn dump_uses_up_the_label_and_dump_string_keeps_it() {
    let mut r = reader(vec![], Dump::Hex);
    r.context("here");
    assert_eq!(r.dump_string(7, String::from("text")), "text");
    r.dump(9, &[1, 2], TraceValue::Unsigned(258));
    r.dump(11, &[3], TraceValue::Unsigned(3));
    assert_eq!(
        r.trace(),
        &vec![
            TraceRecord {
                offset: 7,
                label: None,
                bytes: vec![],
                value: TraceValue::Text(String::from("text")),
            },
            TraceRecord {
                offset: 9,
                label: Some(String::from("here")),
                bytes: vec![1, 2],
                value: TraceValue::Unsigned(258),
            },
            TraceRecord { offset: 11, label: None, bytes: vec![3], value: TraceValue::Unsigned(3) },
        ]
    );
    let mut quiet = reader(vec![], Dump::Off);
    quiet.dump(0, &[1], TraceValue::Raw);
    quiet.dump_bytes(0, &[1, 2, 3]);
    quiet.dump_string(0, String::from("x"));
    assert!(quiet.trace().is_empty());
}

#[test]
fn reads_text_as_utf8() {
    let mut bytes = "héllo".as_bytes().to_vec();
    bytes.push(0xff);
    bytes.push(b'!');
    let mut r = reader(bytes, Dump::Hex);
    assert_eq!(r.read_string(6).unwrap(), "héllo");
    assert_eq!(r.trace()[0].value, TraceValue::Text(String::from("héllo")));
    assert_eq!(r.read_string(2), Err(Error::MalformedUtf8 { offset: 6 }));
    assert_eq!(r.position(), 6);
    assert_eq!(
        r.read_string(3),
        Err(Error::TruncatedInput { offset: 6, needed: 3, label: None })
    );
    assert_eq!(r.read_string(0).unwrap(), "");
}

#[test]
fn reads_index_payloads() {
    let mut r = reader(vec![0, 1, 0, 2, 0, 3, 0, 4, 0, 5, 0, 6, 0, 7, 9, 0, 8], Dump::Hex);
    assert_eq!(r.read_constant_index().unwrap(), Index::Single(1));
    assert_eq!(r.read_constant_index_pair().unwrap(), Index::Pair(2, 3));
    assert_eq!(r.read_constant_index_ref().unwrap(), Index::Ref(4, 5));
    assert_eq!(r.read_constant_index_dynamic().unwrap(), Index::Dynamic(6, 7));
    assert_eq!(r.read_constant_index_handle().unwrap(), Index::MethodHandle(9, 8));
    let labels: Vec<Option<String>> = r.trace().iter().map(|t| t.label.clone()).collect();
    let expected: Vec<Option<String>> = vec![
        None,
        Some("name"),
        Some("type"),
        Some("class"),
        Some("name & type"),
        Some("bootstrap index"),
        Some("name & type"),
        Some("ref kind"),
        Some("ref index"),
    ]
    .into_iter()
    .map(|l| l.map(String::from))
    .collect();
    assert_eq!(labels, expected);
    assert_eq!(
        r.read_constant_index_pair(),
        Err(Error::TruncatedInput { offset: 17, needed: 2, label: Some(String::from("name")) })
    );
}

#[test]
fn a_pair_that_is_cut_short_names_its_second_half() {
    let mut r = reader(vec![0, 1, 0], Dump::Off);
    assert_eq!(
        r.read_constant_index_ref(),
        Err(Error::TruncatedInput {
            offset: 2,
            needed: 2,
            label: Some(String::from("name & type"))
        })
    );
    assert_eq!(r.position(), 2);
}

#[test]
fn reads_counted_lists() {
    // Two interfaces, then one attribute of three bytes.
    let bytes = vec![0, 2, 0, 7, 0, 9, 0, 1, 0, 5, 0, 0, 0, 3, 0xa, 0xb, 0xc];
    let mut r = reader(bytes, Dump::Off);
    assert_eq!(r.read_interfaces().unwrap(), vec![Index::Single(7), Index::Single(9)]);
    assert_eq!(
        r.read_attributes().unwrap(),
        vec![AttributeInfo { attribute_name_index: Index::Single(5), info: vec![0xa, 0xb, 0xc] }]
    );
    assert_eq!(r.position(), 17);
    assert_eq!(
        r.read_fields(),
        Err(Error::TruncatedInput {
            offset: 17,
            needed: 2,
            label: Some(String::from("field count"))
        })
    );
}

#[test]
fn the_length_of_a_list_is_its_count() {
    for count in [0u16, 1, 2, 300] {
        let mut bytes = count.to_be_bytes().to_vec();
        for i in 0..count {
            bytes.extend_from_slice(&i.to_be_bytes());
        }
        let mut r = reader(bytes.clone(), Dump::Off);
        assert_eq!(r.read_interfaces().unwrap().len(), count as usize);
        assert_eq!(r.position(), bytes.len());
    }
    for count in [0u16, 1, 3] {
        // Fields without attributes.
        let mut bytes = count.to_be_bytes().to_vec();
        for _ in 0..count {
            bytes.extend_from_slice(&[0, 1, 0, 2, 0, 3, 0, 0]);
        }
        let mut fields = reader(bytes.clone(), Dump::Off);
        assert_eq!(fields.read_fields().unwrap().len(), count as usize);
        let mut methods = reader(bytes.clone(), Dump::Off);
        assert_eq!(methods.read_methods().unwrap().len(), count as usize);
        // Attributes without content.
        let mut bytes = count.to_be_bytes().to_vec();
        for _ in 0..count {
            bytes.extend_from_slice(&[0, 1, 0, 0, 0, 0]);
        }
        let mut attributes = reader(bytes, Dump::Off);
        assert_eq!(attributes.read_attributes().unwrap().len(), count as usize);
    }
}

#[test]
fn a_list_that_is_cut_short_fails() {
    let mut r = reader(vec![0, 3, 0, 1, 0, 2], Dump::Off);
    assert_eq!(
        r.read_interfaces(),
        Err(Error::TruncatedInput { offset: 6, needed: 2, label: None })
    );
    // The attribute announces ten bytes and has two.
    let mut r = reader(vec![0, 1, 0, 5, 0, 0, 0, 10, 1, 2], Dump::Off);
    assert_eq!(
        r.read_attributes(),
        Err(Error::TruncatedInput { offset: 8, needed: 10, label: None })
    );
}

#[test]
fn reads_a_field_with_its_attributes() {
    let bytes = vec![0x00, 0x19, 0, 4, 0, 5, 0, 1, 0, 6, 0, 0, 0, 2, 0, 7];
    let mut r = reader(bytes, Dump::Hex);
    let field = FieldInfo::new(&mut r).unwrap();
    assert_eq!(
        field,
        FieldInfo {
            access_flags: 0x19,
            name_index: Index::Single(4),
            descriptor_index: Index::Single(5),
            attributes: vec![AttributeInfo {
                attribute_name_index: Index::Single(6),
                info: vec![0, 7],
            }],
        }
    );
    let labels: Vec<Option<String>> = r.trace().iter().map(|t| t.label.clone()).collect();
    assert_eq!(labels[0], Some(String::from("access flags")));
    assert_eq!(labels[1], Some(String::from("name index")));
    assert_eq!(labels[2], Some(String::from("descriptor index")));
    assert_eq!(labels[3], Some(String::from("attr count")));
    assert_eq!(labels[4], Some(String::from("name index")));
    assert_eq!(labels[5], Some(String::from("info")));
    assert_eq!(labels[6], None);
}

#[test]
fn renders_numbers() {
    assert_eq!(u64_to_decimal(0), "0");
    assert_eq!(u64_to_decimal(9), "9");
    assert_eq!(u64_to_decimal(10), "10");
    assert_eq!(u64_to_decimal(65535), "65535");
    assert_eq!(u64_to_decimal(u64::MAX), "18446744073709551615");
    assert_eq!(i64_to_decimal(0), "0");
    assert_eq!(i64_to_decimal(-1), "-1");
    assert_eq!(i64_to_decimal(-44), "-44");
    assert_eq!(i64_to_decimal(i64::MIN), "-9223372036854775808");
    assert_eq!(i64_to_decimal(i64::MAX), "9223372036854775807");
    assert_eq!(u64_to_hex(0x3fc00000, 8), "3fc00000");
    assert_eq!(u64_to_hex(0xabc, 2), "bc");
    assert_eq!(u64_to_hex(0xabc, 6), "000abc");
    assert_eq!(u64_to_hex(7, 0), "");
    assert_eq!(u64_to_hex(u64::MAX, 16), "ffffffffffffffff");
}

#[test]
fn renders_payloads_and_versions() {
    assert_eq!(Index::Single(7).to_string(), "#7");
    assert_eq!(Index::Pair(1, 20).to_string(), "#1,#20");
    assert_eq!(Index::Ref(300, 4).to_string(), "#300,#4");
    assert_eq!(Index::Dynamic(0, 65535).to_string(), "0:#65535");
    assert_eq!(Index::MethodHandle(6, 12).to_string(), "6:#12");
    assert_eq!(JavaVersion(0, 52).to_string(), "8.0");
    assert_eq!(JavaVersion(3, 45).to_string(), "1.3");
    assert_eq!(JavaVersion(65535, 61).to_string(), "17.65535");
    assert_eq!(JavaVersion(0, 44).to_string(), "0.0");
    assert_eq!(JavaVersion(1, 0).to_string(), "-44.1");
    assert_eq!(JavaVersion(0, 65535).to_string(), "65491.0");
}
