use jcfreader::attributes::{Annotation, AnnotationReader, ClassAttributes, ValuePair};
use jcfreader::class_file_reader::{AttributeInfo, ClassFileReader, Index, JavaVersion};
use jcfreader::constant_pool::LiteralInfo;
use jcfreader::error::Error;
use jcfreader::{Attribute, ClassFile, Dump, JAVA_MAGIC};

fn utf8(text: &str) -> Vec<u8> {
    let mut b = vec![1];
    b.extend_from_slice(&(text.len() as u16).to_be_bytes());
    b.extend_from_slice(text.as_bytes());
    b
}

fn attribute(name: u16, info: &[u8]) -> Vec<u8> {
    let mut b = name.to_be_bytes().to_vec();
    b.extend_from_slice(&(info.len() as u32).to_be_bytes());
    b.extend_from_slice(info);
    b
}

fn parse(bytes: Vec<u8>) -> Result<ClassFile, Error> {
    let mut reader = ClassFileReader::new(&String::from("Test.class"), bytes, Dump::Off);
    ClassFile::new(&mut reader)
}

/// A class with an empty pool and nothing in it.
fn minimal() -> Vec<u8> {
    vec![
        0xca, 0xfe, 0xba, 0xbe, // magic
        0x00, 0x00, // minor
        0x00, 0x34, // major
        0x00, 0x01, // pool count
        0x00, 0x21, // access flags
        0x00, 0x01, // this class
        0x00, 0x02, // super class
        0x00, 0x00, // interfaces
        0x00, 0x00, // fields
        0x00, 0x00, // methods
        0x00, 0x00, // attributes
    ]
}

/// A class with a field, a method, an interface and attributes.
///
/// Pool: 1 Class -> 2, 2 "Foo", 3 Class -> 4, 4 "java/lang/Object", 5 "count", 6 "I",
/// 7 "run", 8 "()V", 9 "Code", 10 "SourceFile", 11 "Foo.java", 12 Class -> 13,
/// 13 "java/lang/Runnable", 14 "RuntimeVisibleAnnotations", 15 "LMark;", 16 "level",
/// 17 Integer 3, 18 "InnerClasses", 19 "Mystery", 20 "name", 21 "deep"
fn rich_pool() -> Vec<u8> {
    let mut b = 22u16.to_be_bytes().to_vec();
    b.extend_from_slice(&[7, 0, 2]);
    b.extend(utf8("Foo"));
    b.extend_from_slice(&[7, 0, 4]);
    b.extend(utf8("java/lang/Object"));
    b.extend(utf8("count"));
    b.extend(utf8("I"));
    b.extend(utf8("run"));
    b.extend(utf8("()V"));
    b.extend(utf8("Code"));
    b.extend(utf8("SourceFile"));
    b.extend(utf8("Foo.java"));
    b.extend_from_slice(&[7, 0, 13]);
    b.extend(utf8("java/lang/Runnable"));
    b.extend(utf8("RuntimeVisibleAnnotations"));
    b.extend(utf8("LMark;"));
    b.extend(utf8("level"));
    b.extend_from_slice(&[3, 0, 0, 0, 3]);
    b.extend(utf8("InnerClasses"));
    b.extend(utf8("Mystery"));
    b.extend(utf8("name"));
    b.extend(utf8("deep"));
    b
}

fn annotations_content() -> Vec<u8> {
    vec![
        0, 1, // one annotation
        0, 15, // its type
        0, 2, // two elements
        0, 16, b'I', 0, 17, // level = 3
        0, 20, b's', 0, 21, // name = "deep"
    ]
}

fn rich_with(class_attributes: &[Vec<u8>]) -> Vec<u8> {
    let mut b = vec![0xca, 0xfe, 0xba, 0xbe, 0x00, 0x03, 0x00, 0x3d];
    b.extend(rich_pool());
    b.extend_from_slice(&[0x00, 0x21, 0, 1, 0, 3]);
    b.extend_from_slice(&[0, 1, 0, 12]); // interfaces
    b.extend_from_slice(&[0, 1, 0x00, 0x02, 0, 5, 0, 6, 0, 0]); // one field
    b.extend_from_slice(&[0, 1, 0x00, 0x01, 0, 7, 0, 8, 0, 1]); // one method
    b.extend(attribute(9, &[0xde, 0xad]));
    b.extend_from_slice(&(class_attributes.len() as u16).to_be_bytes());
    for a in class_attributes {
        b.extend_from_slice(a);
    }
    b
}

fn rich() -> Vec<u8> {
    rich_with(&[
        attribute(10, &[0, 11]),
        attribute(18, &[1, 2, 3]),
        attribute(14, &annotations_content()),
    ])
}

#[test]
fn parses_the_minimal_class() {
    let class = parse(minimal()).unwrap();
    assert_eq!(class.get_version(), "8.0");
    assert_eq!(class.fields().len(), 0);
    assert_eq!(class.methods().len(), 0);
    assert_eq!(class.get_fields().unwrap().len(), 0);
    assert_eq!(class.get_methods().unwrap().len(), 0);
    assert_eq!(class.get_interfaces().len(), 0);
    assert_eq!(class.attributes.len(), 0);
    assert_eq!(class.constant_pool().len(), 1);
    assert_eq!(class.get_class_attributes().unwrap(), ClassAttributes::default());
}

#[test]
fn the_fields_of_the_header_are_those_of_the_file() {
    let bytes = minimal();
    let class = parse(bytes.clone()).unwrap();
    assert_eq!(JAVA_MAGIC.to_be_bytes(), bytes[0..4]);
    let JavaVersion(minor, major) = class.version();
    assert_eq!(minor.to_be_bytes(), bytes[4..6]);
    assert_eq!(major.to_be_bytes(), bytes[6..8]);
    assert_eq!(class.get_access_flags().to_be_bytes(), bytes[10..12]);
    assert_eq!(class.get_access_flags(), 0x0021);
    match (class.get_this_class(), class.get_super_class()) {
        (Index::Single(this), Index::Single(parent)) => {
            assert_eq!(this.to_be_bytes(), bytes[12..14]);
            assert_eq!(parent.to_be_bytes(), bytes[14..16]);
        }
        other => panic!("unexpected: {:?}", other),
    }
    // The same with a pool in between.
    let bytes = rich();
    let class = parse(bytes.clone()).unwrap();
    let after_pool = 8 + rich_pool().len();
    assert_eq!(class.version(), JavaVersion(3, 61));
    assert_eq!(class.get_version(), "17.3");
    assert_eq!(class.get_access_flags().to_be_bytes(), bytes[after_pool..after_pool + 2]);
    assert_eq!(class.get_this_class(), Index::Single(1));
    assert_eq!(class.get_super_class(), Index::Single(3));
}

#[test]
fn the_reader_ends_where_the_class_ends() {
    let mut bytes = rich();
    let len = bytes.len();
    bytes.extend_from_slice(&[1, 2, 3]);
    let mut reader = ClassFileReader::new(&String::from("Test.class"), bytes, Dump::Hex);
    let class = ClassFile::new(&mut reader).unwrap();
    assert_eq!(reader.position(), len);
    assert_eq!(class.attributes.len(), 3);
    assert_eq!(reader.trace()[0].label, Some(String::from("magic")));
    assert_eq!(reader.trace()[1].label, Some(String::from("minor")));
    assert_eq!(reader.trace()[2].label, Some(String::from("major")));
    assert_eq!(reader.trace()[3].label, Some(String::from("constant count")));
}

#[test]
fn a_wrong_magic_number_is_no_class_file() {
    let mut bytes = minimal();
    bytes[3] = 0xbf;
    assert_eq!(parse(bytes).err(), Some(Error::NotAClassFile { magic: 0xcafebabf }));
    assert_eq!(
        parse(vec![0xca, 0xfe]).err(),
        Some(Error::TruncatedInput { offset: 0, needed: 4, label: Some(String::from("magic")) })
    );
    assert_eq!(
        parse(vec![]).err(),
        Some(Error::TruncatedInput { offset: 0, needed: 4, label: Some(String::from("magic")) })
    );
}

#[test]
fn every_prefix_of_a_class_is_truncated() {
    let bytes = rich();
    for len in 4..bytes.len() {
        match parse(bytes[..len].to_vec()) {
            Err(Error::TruncatedInput { offset, needed, .. }) => {
                assert!(offset <= len);
                assert!(offset + needed > len);
            }
            other => panic!("unexpected at {}: {:?}", len, other.err()),
        }
    }
    assert!(parse(bytes).is_ok());
}

#[test]
fn the_lists_have_the_length_of_their_counts() {
    let class = parse(rich()).unwrap();
    assert_eq!(class.get_interfaces(), &vec![Index::Single(12)]);
    assert_eq!(class.fields().len(), 1);
    assert_eq!(class.methods().len(), 1);
    assert_eq!(class.attributes().len(), 3);
    assert_eq!(class.methods()[0].attributes.len(), 1);
    assert_eq!(class.fields()[0].attributes.len(), 0);
}

#[test]
fn resolves_fields_and_methods() {
    let class = parse(rich()).unwrap();
    let fields = class.get_fields().unwrap();
    assert_eq!(fields.len(), 1);
    assert_eq!(*fields[0].get_flags(), 2);
    assert_eq!(fields[0].get_name(), "count");
    assert_eq!(fields[0].get_descriptor(), "I");
    let methods = class.get_methods().unwrap();
    assert_eq!(methods.len(), 1);
    assert_eq!(*methods[0].get_flags(), 1);
    assert_eq!(methods[0].get_name(), "run");
    assert_eq!(methods[0].get_descriptor(), "()V");
    assert_eq!(
        methods[0].get_attributes(),
        &vec![Attribute { name: String::from("Code"), info: vec![0xde, 0xad] }]
    );
    assert_eq!(
        class.constant_pool().get_item(&class.get_interfaces()[0]),
        Err(Error::UnresolvedReference { index: 12 })
    );
    let name = class.constant_pool().get_constant(12).unwrap().1;
    assert_eq!(class.constant_pool().get_item(&name).unwrap(), "java/lang/Runnable");
}

#[test]
fn resolves_a_list_of_attributes() {
    let class = parse(rich()).unwrap();
    let list = vec![
        AttributeInfo { attribute_name_index: Index::Single(9), info: vec![1] },
        AttributeInfo { attribute_name_index: Index::Single(10), info: vec![] },
    ];
    assert_eq!(
        class.get_attributes_vec(&list).unwrap(),
        vec![
            Attribute { name: String::from("Code"), info: vec![1] },
            Attribute { name: String::from("SourceFile"), info: vec![] },
        ]
    );
    let broken = vec![
        AttributeInfo { attribute_name_index: Index::Single(9), info: vec![1] },
        AttributeInfo { attribute_name_index: Index::Single(1), info: vec![] },
        AttributeInfo { attribute_name_index: Index::Single(0), info: vec![] },
    ];
    assert_eq!(
        class.get_attributes_vec(&broken),
        Err(Error::UnresolvedReference { index: 1 })
    );
    assert_eq!(class.get_attributes_vec(&vec![]).unwrap(), vec![]);
}

#[test]
fn a_member_with_a_name_that_does_not_resolve_fails() {
    let mut bytes = vec![0xca, 0xfe, 0xba, 0xbe, 0, 0, 0, 0x34];
    bytes.extend_from_slice(&[0, 2]);
    bytes.extend(utf8("x"));
    bytes.extend_from_slice(&[0, 0, 0, 0, 0, 0, 0, 0]);
    bytes.extend_from_slice(&[0, 1, 0, 0, 0, 1, 0, 7, 0, 0]); // a field named by slot 1, typed by 7
    bytes.extend_from_slice(&[0, 1, 0, 0, 0, 9, 0, 1, 0, 0]); // a method named by slot 9
    bytes.extend_from_slice(&[0, 0]);
    let class = parse(bytes).unwrap();
    assert_eq!(class.get_fields().err(), Some(Error::UnresolvedReference { index: 7 }));
    assert_eq!(class.get_methods().err(), Some(Error::UnresolvedReference { index: 9 }));
}

#[test]
fn interprets_the_class_attributes() {
    let class = parse(rich()).unwrap();
    let attributes = class.get_class_attributes().unwrap();
    assert_eq!(attributes.source_file, Some(String::from("Foo.java")));
    let annotations = attributes.runtime_visible_annotations.unwrap();
    assert_eq!(annotations.len(), 1);
    assert_eq!(annotations[0].annotation_type(), "LMark;");
    let pairs = annotations[0].value_pairs();
    assert_eq!(pairs.len(), 2);
    assert_eq!(pairs[0].name(), "level");
    assert_eq!(pairs[0].value(), &LiteralInfo::Integer(3));
    assert_eq!(pairs[1].name(), "name");
    assert_eq!(pairs[1].value(), &LiteralInfo::String(String::from("deep")));
    assert_eq!(ClassAttributes::new(&class).unwrap().source_file, Some(String::from("Foo.java")));
}

#[test]
fn names_that_are_known_and_not_interpreted_give_nothing() {
    let mut bytes = vec![0xca, 0xfe, 0xba, 0xbe, 0, 0, 0, 0x34];
    bytes.extend_from_slice(&[0, 4]);
    bytes.extend(utf8("SourceDebugExtension"));
    bytes.extend(utf8("InnerClasses"));
    bytes.extend(utf8("BootstrapMethods"));
    bytes.extend_from_slice(&[0, 0, 0, 0, 0, 0, 0, 0, 0, 0, 0, 0]);
    bytes.extend_from_slice(&[0, 3]);
    bytes.extend(attribute(1, &[9, 9]));
    bytes.extend(attribute(2, &[]));
    bytes.extend(attribute(3, &[0, 0]));
    let class = parse(bytes).unwrap();
    assert_eq!(class.get_class_attributes().unwrap(), ClassAttributes::default());
}

#[test]
fn an_attribute_of_an_unknown_name_fails() {
    let class = parse(rich_with(&[attribute(10, &[0, 11]), attribute(19, &[])])).unwrap();
    assert_eq!(
        class.get_class_attributes().err(),
        Some(Error::UnknownAttribute { name: String::from("Mystery") })
    );
    // A name that differs in one letter is not known either.
    let mut bytes = vec![0xca, 0xfe, 0xba, 0xbe, 0, 0, 0, 0x34, 0, 2];
    bytes.extend(utf8("BootStrapMethods"));
    bytes.extend_from_slice(&[0, 0, 0, 0, 0, 0, 0, 0, 0, 0, 0, 0, 0, 1]);
    bytes.extend(attribute(1, &[]));
    let class = parse(bytes).unwrap();
    assert_eq!(
        class.get_class_attributes().err(),
        Some(Error::UnknownAttribute { name: String::from("BootStrapMethods") })
    );
}

#[test]
fn the_last_attribute_of_a_name_counts() {
    let class = parse(rich_with(&[attribute(10, &[0, 11]), attribute(10, &[0, 2, 7, 7])])).unwrap();
    assert_eq!(class.get_class_attributes().unwrap().source_file, Some(String::from("Foo")));
}

#[test]
fn a_source_file_attribute_that_is_too_short_fails() {
    let class = parse(rich_with(&[attribute(10, &[0])])).unwrap();
    assert_eq!(
        class.get_class_attributes().err(),
        Some(Error::TruncatedInput { offset: 0, needed: 2, label: None })
    );
    let class = parse(rich_with(&[attribute(10, &[0, 1])])).unwrap();
    assert_eq!(
        class.get_class_attributes().err(),
        Some(Error::UnresolvedReference { index: 1 })
    );
    let class = parse(rich_with(&[attribute(1, &[0, 1])])).unwrap();
    assert_eq!(
        class.get_class_attributes().err(),
        Some(Error::UnresolvedReference { index: 1 })
    );
}

#[test]
fn every_constant_element_tag_is_decoded() {
    let class = parse(rich()).unwrap();
    for tag in [b'B', b'C', b'D', b'F', b'I', b'J', b'S', b'Z', b's'] {
        let content = vec![0, 1, 0, 15, 0, 1, 0, 16, tag, 0, 17];
        let annotations = ClassAttributes::get_annotations(&class, &content).unwrap();
        assert_eq!(annotations.len(), 1);
        assert_eq!(annotations[0].value_pairs()[0].value(), &LiteralInfo::Integer(3));
    }
    for tag in [b'e', b'c', b'@', b'[', 0, b'b', b'i', 255] {
        let content = vec![0, 1, 0, 15, 0, 1, 0, 16, tag, 0, 17];
        assert_eq!(
            ClassAttributes::get_annotations(&class, &content).err(),
            Some(Error::UnsupportedAttributeValue { tag })
        );
    }
}

#[test]
fn annotations_that_are_cut_short_fail() {
    let class = parse(rich()).unwrap();
    let whole = annotations_content();
    assert_eq!(ClassAttributes::get_annotations(&class, &whole).unwrap().len(), 1);
    for len in 0..whole.len() {
        match ClassAttributes::get_annotations(&class, &whole[..len].to_vec()) {
            Err(Error::TruncatedInput { offset, needed, label: None }) => {
                assert!(offset <= len && offset + needed > len);
            }
            other => panic!("unexpected at {}: {:?}", len, other),
        }
    }
    assert_eq!(ClassAttributes::get_annotations(&class, &vec![0, 0]).unwrap(), vec![]);
    // The value of an element must be a literal, and the names must resolve.
    assert_eq!(
        ClassAttributes::get_annotations(&class, &vec![0, 1, 0, 15, 0, 1, 0, 16, b'I', 0, 1]).err(),
        Some(Error::UnresolvedReference { index: 1 })
    );
    assert_eq!(
        ClassAttributes::get_annotations(&class, &vec![0, 1, 0, 1, 0, 0]).err(),
        Some(Error::UnresolvedReference { index: 1 })
    );
    assert_eq!(
        ClassAttributes::get_annotations(&class, &vec![0, 1, 0, 15, 0, 1, 0, 3, b'I', 0, 17]).err(),
        Some(Error::UnresolvedReference { index: 3 })
    );
}

#[test]
fn reads_annotations_step_by_step() {
    let class = parse(rich()).unwrap();
    let content = annotations_content();
    let mut reader = AnnotationReader::new(&content);
    assert_eq!(reader.read_u16().unwrap(), 1);
    let annotation = Annotation::new(&mut reader, &class).unwrap();
    assert_eq!(annotation.annotation_type(), "LMark;");
    assert_eq!(
        reader.read_u8(),
        Err(Error::TruncatedInput { offset: 16, needed: 1, label: None })
    );
    let pair_bytes = vec![0, 16, b'I', 0, 17, 0xff];
    let mut reader = AnnotationReader::new(&pair_bytes);
    let pair = ValuePair::new(&mut reader, &class).unwrap();
    assert_eq!(pair.name(), "level");
    assert_eq!(reader.read_u8().unwrap(), 0xff);
    assert_eq!(
        reader.read_u16(),
        Err(Error::TruncatedInput { offset: 6, needed: 2, label: None })
    );
}
