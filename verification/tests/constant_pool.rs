use jcfreader::class_file_reader::{ClassFileReader, Index};
use jcfreader::constant_pool::{ConstantInfo, ConstantPool, LiteralInfo, Tag, MAX_DEPTH};
use jcfreader::error::Error;
use jcfreader::Dump;

fn utf8(text: &str) -> Vec<u8> {
    let mut b = vec![1];
    b.extend_from_slice(&(text.len() as u16).to_be_bytes());
    b.extend_from_slice(text.as_bytes());
    b
}

fn pool_bytes(count: u16, constants: &[Vec<u8>]) -> Vec<u8> {
    let mut b = count.to_be_bytes().to_vec();
    for c in constants {
        b.extend_from_slice(c);
    }
    b
}

fn parse(bytes: Vec<u8>) -> Result<ConstantPool, Error> {
    let mut reader = ClassFileReader::new(&String::from("pool"), bytes, Dump::Off);
    ConstantPool::new(&mut reader)
}

fn sample() -> ConstantPool {
    // 1 Class -> 2, 2 Utf8 "Foo", 3 NameAndType 4:5, 4 Utf8 "bar", 5 Utf8 "()V",
    // 6 MethodRef 1.3, 7 Integer 42, 8 Long 7 (and 9), 10 Float, 11 Double (and 12),
    // 13 MethodHandle 6 -> 6, 14 InvokeDynamic 1, 3, 15 String -> 2
    parse(pool_bytes(
        16,
        &[
            vec![7, 0, 2],
            utf8("Foo"),
            vec![12, 0, 4, 0, 5],
            utf8("bar"),
            utf8("()V"),
            vec![10, 0, 1, 0, 3],
            vec![3, 0, 0, 0, 42],
            vec![5, 0, 0, 0, 0, 0, 0, 0, 7],
            vec![4, 0x3f, 0xc0, 0, 0],
            vec![6, 0x40, 0x09, 0x21, 0xfb, 0x54, 0x44, 0x2d, 0x18],
            vec![15, 6, 0, 6],
            vec![18, 0, 1, 0, 3],
            vec![8, 0, 2],
        ],
    ))
    .unwrap()
}

#[test]
fn resolves_a_class_to_its_name() {
    let pool = parse(pool_bytes(3, &[vec![7, 0, 2], utf8("Foo")])).unwrap();
    let class = pool.get_constant(1).unwrap();
    assert_eq!(class, ConstantInfo(Tag::Class, Index::Single(2)));
    assert_eq!(pool.get_item(&class.1).unwrap(), "Foo");
}

#[test]
fn a_truncated_pool_fails_at_the_missing_tag() {
    // Five slots are announced and two constants are there.
    let bytes = pool_bytes(5, &[vec![7, 0, 2], utf8("A")]);
    assert_eq!(bytes.len(), 9);
    assert_eq!(
        parse(bytes).err(),
        Some(Error::TruncatedInput { offset: 9, needed: 1, label: Some(String::from("tag")) })
    );
}

#[test]
fn an_empty_pool_has_slot_zero_only() {
    for count in [0u16, 1] {
        let pool = parse(pool_bytes(count, &[])).unwrap();
        assert_eq!(pool.len(), 1);
        assert_eq!(pool.get_constant(0), Err(Error::UnresolvedReference { index: 0 }));
        assert_eq!(pool.get_constant(1), Err(Error::UnresolvedReference { index: 1 }));
        assert_eq!(pool.get_literal(0), Err(Error::UnresolvedReference { index: 0 }));
    }
}

#[test]
fn reads_every_kind_of_constant() {
    let all: Vec<(Vec<u8>, ConstantInfo)> = vec![
        (utf8("x"), ConstantInfo(Tag::Utf8, Index::Single(1))),
        (vec![3, 0, 0, 0, 1], ConstantInfo(Tag::Integer, Index::Single(1))),
        (vec![4, 0, 0, 0, 1], ConstantInfo(Tag::Float, Index::Single(1))),
        (vec![5, 0, 0, 0, 0, 0, 0, 0, 1], ConstantInfo(Tag::Long, Index::Single(1))),
        (vec![6, 0, 0, 0, 0, 0, 0, 0, 1], ConstantInfo(Tag::Double, Index::Single(1))),
        (vec![7, 0, 9], ConstantInfo(Tag::Class, Index::Single(9))),
        (vec![8, 0, 9], ConstantInfo(Tag::String, Index::Single(9))),
        (vec![9, 0, 9, 0, 8], ConstantInfo(Tag::FieldRef, Index::Ref(9, 8))),
        (vec![10, 0, 9, 0, 8], ConstantInfo(Tag::MethodRef, Index::Ref(9, 8))),
        (vec![11, 0, 9, 0, 8], ConstantInfo(Tag::InterfaceMethodRef, Index::Ref(9, 8))),
        (vec![12, 0, 9, 0, 8], ConstantInfo(Tag::NameAndType, Index::Pair(9, 8))),
        (vec![15, 5, 0, 8], ConstantInfo(Tag::MethodHandle, Index::MethodHandle(5, 8))),
        (vec![16, 0, 9], ConstantInfo(Tag::MethodType, Index::Single(9))),
        (vec![17, 0, 9, 0, 8], ConstantInfo(Tag::Dynamic, Index::Dynamic(9, 8))),
        (vec![18, 0, 9, 0, 8], ConstantInfo(Tag::InvokeDynamic, Index::Dynamic(9, 8))),
        (vec![19, 0, 9], ConstantInfo(Tag::Module, Index::Single(9))),
        (vec![20, 0, 9], ConstantInfo(Tag::Package, Index::Single(9))),
    ];
    for (bytes, expected) in all {
        let whole = pool_bytes(2, &[bytes.clone()]);
        let mut reader = ClassFileReader::new(&String::from("pool"), whole.clone(), Dump::Off);
        let pool = ConstantPool::new(&mut reader).unwrap();
        assert_eq!(reader.position(), whole.len());
        assert_eq!(pool.get_constant(1).unwrap(), expected);
        assert_eq!(Tag::from_u8(bytes[0]), Some(expected.0));
        assert_eq!(expected.0.to_u8(), bytes[0]);
        let wide = matches!(expected.0, Tag::Long | Tag::Double);
        assert_eq!(expected.0.fills_two_slots(), wide);
        assert_eq!(pool.len(), if wide { 3 } else { 2 });
    }
}

#[test]
fn a_byte_that_is_no_tag_fails() {
    for tag in [0u8, 2, 13, 14, 21, 255] {
        assert_eq!(Tag::from_u8(tag), None);
        let bytes = pool_bytes(3, &[vec![7, 0, 2], vec![tag, 0, 0]]);
        assert_eq!(parse(bytes).err(), Some(Error::InvalidConstantTag { offset: 5, tag }));
    }
}

#[test]
fn text_that_is_not_utf8_fails() {
    let bytes = pool_bytes(2, &[vec![1, 0, 2, 0xc3, 0x28]]);
    assert_eq!(parse(bytes).err(), Some(Error::MalformedUtf8 { offset: 5 }));
}

#[test]
fn holds_the_literals_by_slot() {
    let pool = sample();
    assert_eq!(pool.len(), 16);
    assert_eq!(pool.get_literal(2).unwrap(), &LiteralInfo::String(String::from("Foo")));
    assert_eq!(pool.get_literal(7).unwrap(), &LiteralInfo::Integer(42));
    assert_eq!(pool.get_literal(8).unwrap(), &LiteralInfo::Long(7));
    assert_eq!(pool.get_literal(10).unwrap(), &LiteralInfo::Float(0x3fc00000));
    assert_eq!(pool.get_literal(11).unwrap(), &LiteralInfo::Double(0x400921fb54442d18));
    match pool.get_literal(11).unwrap() {
        LiteralInfo::Double(bits) => assert_eq!(f64::from_bits(*bits), std::f64::consts::PI),
        other => panic!("unexpected: {:?}", other),
    }
    // A class holds no literal.
    assert_eq!(pool.get_literal(1), Err(Error::UnresolvedReference { index: 1 }));
    assert_eq!(pool.get_literal(16), Err(Error::UnresolvedReference { index: 16 }));
}

#[test]
fn the_slot_after_a_wide_constant_is_reserved() {
    let pool = sample();
    for k in [8u16, 11] {
        assert!(pool.get_constant(k).unwrap().0.fills_two_slots());
        let reserved = k + 1;
        let e = Some(Error::UnresolvedReference { index: reserved });
        assert_eq!(pool.get_constant(reserved).err(), e);
        assert_eq!(pool.get_literal(reserved).err(), e);
        assert_eq!(pool.get_item(&Index::Single(reserved)).err(), e);
        assert_eq!(pool.get_item(&Index::Pair(reserved, 2)).err(), e);
        assert_eq!(pool.get_item(&Index::Pair(2, reserved)).err(), e);
        assert_eq!(pool.get_item(&Index::Ref(reserved, 3)).err(), e);
        assert_eq!(pool.get_item(&Index::Ref(1, reserved)).err(), e);
        assert_eq!(pool.get_item(&Index::Dynamic(reserved, 3)).err(), e);
        assert_eq!(pool.get_item(&Index::Dynamic(1, reserved)).err(), e);
        assert_eq!(pool.get_item(&Index::MethodHandle(1, reserved)).err(), e);
    }
    // The constant after the reserved slot is where it belongs.
    assert_eq!(pool.get_constant(10).unwrap(), ConstantInfo(Tag::Float, Index::Single(10)));
    assert_eq!(
        pool.get_constant(13).unwrap(),
        ConstantInfo(Tag::MethodHandle, Index::MethodHandle(6, 6))
    );
}

#[test]
fn slot_zero_is_never_resolved() {
    let pool = sample();
    let e = Some(Error::UnresolvedReference { index: 0 });
    assert_eq!(pool.get_constant(0).err(), e);
    assert_eq!(pool.get_item(&Index::Single(0)).err(), e);
    assert_eq!(pool.get_item(&Index::Pair(0, 2)).err(), e);
    assert_eq!(pool.get_item(&Index::Ref(0, 3)).err(), e);
    assert_eq!(pool.get_item(&Index::Dynamic(0, 3)).err(), e);
    assert_eq!(pool.get_item(&Index::MethodHandle(1, 0)).err(), e);
    assert_eq!(pool.get_item(&Index::Ref(1, 0)).err(), e);
}

#[test]
fn resolves_each_kind_of_payload() {
    let pool = sample();
    assert_eq!(pool.get_item(&Index::Single(2)).unwrap(), "Foo");
    assert_eq!(pool.get_item(&Index::Single(7)).unwrap(), "42");
    assert_eq!(pool.get_item(&Index::Single(8)).unwrap(), "7");
    assert_eq!(pool.get_item(&Index::Single(10)).unwrap(), "0x3fc00000");
    assert_eq!(pool.get_item(&Index::Single(11)).unwrap(), "0x400921fb54442d18");
    assert_eq!(pool.get_item(&Index::Pair(4, 5)).unwrap(), "bar:()V");
    assert_eq!(pool.get_item(&Index::Pair(5, 4)).unwrap(), "()V:bar");
    assert_eq!(pool.get_item(&Index::Ref(1, 3)).unwrap(), "Foo.bar:()V");
    assert_eq!(pool.get_item(&pool.get_constant(6).unwrap().1).unwrap(), "Foo.bar:()V");
    // The payload of slot 1 is shown as it is, and slot 3 is resolved.
    assert_eq!(pool.get_item(&Index::Dynamic(1, 3)).unwrap(), "#2.bar:()V");
    assert_eq!(pool.get_item(&Index::Dynamic(3, 3)).unwrap(), "#4,#5.bar:()V");
    assert_eq!(pool.get_item(&pool.get_constant(14).unwrap().1).unwrap(), "#2.bar:()V");
    // A method handle: the kind, and the method that slot 6 refers to.
    assert_eq!(pool.get_item(&Index::MethodHandle(6, 6)).unwrap(), "6.Foo.bar:()V");
    assert_eq!(pool.get_item(&pool.get_constant(13).unwrap().1).unwrap(), "6.Foo.bar:()V");
    assert_eq!(pool.get_item(&pool.get_constant(15).unwrap().1).unwrap(), "Foo");
    // A single slot is resolved through its literal only.
    assert_eq!(
        pool.get_item(&Index::Single(1)),
        Err(Error::UnresolvedReference { index: 1 })
    );
    assert_eq!(
        pool.get_item(&Index::Pair(4, 1)),
        Err(Error::UnresolvedReference { index: 1 })
    );
}

#[test]
fn the_first_failure_is_reported() {
    let pool = sample();
    assert_eq!(
        pool.get_item(&Index::Pair(100, 200)),
        Err(Error::UnresolvedReference { index: 100 })
    );
    assert_eq!(
        pool.get_item(&Index::Ref(100, 200)),
        Err(Error::UnresolvedReference { index: 100 })
    );
    assert_eq!(
        pool.get_item(&Index::Ref(1, 200)),
        Err(Error::UnresolvedReference { index: 200 })
    );
    assert_eq!(
        pool.get_item(&Index::Dynamic(100, 200)),
        Err(Error::UnresolvedReference { index: 100 })
    );
}

#[test]
fn a_circle_of_references_is_given_up_on() {
    // 1 MethodRef 1.1: it refers to itself.
    let own = parse(pool_bytes(2, &[vec![10, 0, 1, 0, 1]])).unwrap();
    assert_eq!(
        own.get_item(&Index::Ref(1, 1)),
        Err(Error::UnresolvedReference { index: 1 })
    );
    // 1 FieldRef 2.3, 2 MethodHandle -> 1, 3 Utf8: slots 1 and 2 refer to each other.
    let two = parse(pool_bytes(4, &[vec![9, 0, 2, 0, 3], vec![15, 1, 0, 1], utf8("x")])).unwrap();
    assert!(matches!(
        two.get_item(&Index::Ref(2, 3)),
        Err(Error::UnresolvedReference { .. })
    ));
    assert!(matches!(
        two.get_item(&Index::MethodHandle(1, 1)),
        Err(Error::UnresolvedReference { .. })
    ));
}

#[test]
fn a_chain_is_followed_as_deep_as_the_limit() {
    assert_eq!(MAX_DEPTH, 8);
    // Slot i is a method handle to slot i + 1, and the last one is a class.
    fn chain(handles: u16) -> ConstantPool {
        let mut constants = Vec::new();
        for i in 1..=handles {
            let mut c = vec![15, 1];
            c.extend_from_slice(&(i + 1).to_be_bytes());
            constants.push(c);
        }
        let mut class = vec![7];
        class.extend_from_slice(&(handles + 2).to_be_bytes());
        constants.push(class);
        constants.push(utf8("End"));
        parse(pool_bytes(handles + 3, &constants)).unwrap()
    }
    let short = chain(7);
    assert_eq!(
        short.get_item(&Index::MethodHandle(1, 1)).unwrap(),
        "1.1.1.1.1.1.1.1.End"
    );
    let long = chain(8);
    assert!(matches!(
        long.get_item(&Index::MethodHandle(1, 1)),
        Err(Error::UnresolvedReference { .. })
    ));
    assert_eq!(long.get_item(&Index::MethodHandle(1, 2)).unwrap(), "1.1.1.1.1.1.1.1.End");
}

#[test]
fn a_wide_constant_in_the_last_slot_is_read() {
    let pool = parse(pool_bytes(2, &[vec![5, 0, 0, 0, 0, 0, 0, 1, 0]])).unwrap();
    assert_eq!(pool.len(), 3);
    assert_eq!(pool.get_item(&Index::Single(1)).unwrap(), "256");
    assert_eq!(pool.get_constant(2), Err(Error::UnresolvedReference { index: 2 }));
}

#[test]
fn renders_entries_and_literals() {
    assert_eq!(
        ConstantInfo(Tag::Class, Index::Single(2)).to_string(),
        "Class              #2"
    );
    assert_eq!(
        ConstantInfo(Tag::InterfaceMethodRef, Index::Ref(1, 3)).to_string(),
        "InterfaceMethodRef #1,#3"
    );
    assert_eq!(
        ConstantInfo(Tag::Dynamic, Index::Dynamic(0, 3)).to_string(),
        "Dynamic      0:#3"
    );
    assert_eq!(Tag::Utf8.to_string(), "Utf8              ");
    assert_eq!(Tag::NameAndType.to_string(), "NameAndType       ");
    assert_eq!(LiteralInfo::String(String::from("a b")).to_string(), "a b");
    assert_eq!(LiteralInfo::Integer(u32::MAX).to_string(), "4294967295");
    assert_eq!(LiteralInfo::Long(u64::MAX).to_string(), "18446744073709551615");
    assert_eq!(LiteralInfo::Float(0).to_string(), "0x00000000");
    assert_eq!(LiteralInfo::Double(1).to_string(), "0x0000000000000001");
    let l = LiteralInfo::String(String::from("copy"));
    assert_eq!(l.duplicate(), l);
}
