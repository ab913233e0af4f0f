use jcfreader::class_file_reader::{AttributeInfo, Index};
use jcfreader::code::opcode::{get_opcode, Opcode};
use jcfreader::code::{Code, CodeReader, Exception};
use jcfreader::error::Error;

/// The number of bytes of operands of an opcode, where it is fixed.
fn width(code: u8) -> Option<usize> {
    match code {
        0..=15 | 26..=53 | 59..=131 | 133..=152 | 172..=177 | 190 | 191 | 194 | 195 | 202 | 254
        | 255 => Some(0),
        16 | 18 | 21..=25 | 54..=58 | 169 | 188 => Some(1),
        17 | 19 | 20 | 132 | 153..=168 | 178..=184 | 187 | 189 | 192 | 193 | 198 | 199 => Some(2),
        197 => Some(3),
        185 | 186 | 200 | 201 => Some(4),
        _ => None,
    }
}

fn code_attribute(max_stack: u16, max_locals: u16, region: &[u8], rest: &[u8]) -> Vec<u8> {
    let mut b = max_stack.to_be_bytes().to_vec();
    b.extend_from_slice(&max_locals.to_be_bytes());
    b.extend_from_slice(&(region.len() as u32).to_be_bytes());
    b.extend_from_slice(region);
    b.extend_from_slice(rest);
    b
}

fn decode_one(instruction: &[u8]) -> (Result<Opcode, Error>, usize) {
    let bytes = instruction.to_vec();
    let mut reader = CodeReader::new(&bytes);
    let code = reader.read_u8().unwrap();
    let r = get_opcode(code, &mut reader);
    (r, reader.position())
}

#[test]
fn every_defined_opcode_decodes_into_one_instruction() {
    for code in (0u8..=202).chain(254..=255) {
        let Some(w) = width(code) else {
            assert!(code == 170 || code == 171 || code == 196);
            continue;
        };
        let mut instruction = vec![code];
        instruction.extend((0..w).map(|i| 0x11 * (i as u8 + 1)));
        let (r, consumed) = decode_one(&instruction);
        let op = r.unwrap();
        assert_eq!(op.to_u8(), code);
        assert_eq!(consumed, 1 + w);
        // As the only instruction of a method.
        let decoded = Code::new(&code_attribute(1, 2, &instruction, &[0, 0, 0, 0])).unwrap();
        assert_eq!(decoded.code, vec![op]);
        // With a byte too few, the input ends inside the instruction.
        if w > 0 {
            let (r, _) = decode_one(&instruction[..w]);
            assert!(matches!(r, Err(Error::TruncatedInstruction { opcode, .. }) if opcode == code));
        }
    }
}

#[test]
fn no_undefined_opcode_decodes() {
    for code in 203u8..=253 {
        let (r, consumed) = decode_one(&[code, 0, 0, 0, 0, 0, 0, 0, 0]);
        assert_eq!(r, Err(Error::UnsupportedOpcode { offset: 0, opcode: code }));
        assert_eq!(consumed, 1);
        assert_eq!(
            Code::new(&code_attribute(0, 0, &[0, code, 0], &[0, 0, 0, 0])).err(),
            Some(Error::UnsupportedOpcode { offset: 9, opcode: code })
        );
    }
}

#[test]
fn operands_are_kept_as_they_are_encoded() {
    assert_eq!(decode_one(&[16, 0xfe]).0.unwrap(), Opcode::Bipush(0xfe));
    assert_eq!(decode_one(&[17, 0x12, 0x34]).0.unwrap(), Opcode::Sipush(0x1234));
    assert_eq!(decode_one(&[22, 7]).0.unwrap(), Opcode::Lload(7));
    assert_eq!(decode_one(&[54, 8]).0.unwrap(), Opcode::Istore(8));
    assert_eq!(decode_one(&[55, 9]).0.unwrap(), Opcode::Lstore(9));
    assert_eq!(decode_one(&[132, 3, 0xff]).0.unwrap(), Opcode::Iinc(0x03ff));
    assert_eq!(decode_one(&[167, 0xff, 0xfd]).0.unwrap(), Opcode::Goto(0xfffd));
    assert_eq!(decode_one(&[193, 0, 5]).0.unwrap(), Opcode::Instanceof(5));
    assert_eq!(decode_one(&[197, 1, 2, 3]).0.unwrap(), Opcode::Multianewarray(0x0102, 3));
    assert_eq!(decode_one(&[185, 0, 9, 2, 0]).0.unwrap(), Opcode::Invokeinterface(9, 2));
    assert_eq!(decode_one(&[186, 0, 9, 0, 0]).0.unwrap(), Opcode::Invokedynamic(9));
    assert_eq!(
        decode_one(&[200, 0xff, 0xff, 0xff, 0xf0]).0.unwrap(),
        Opcode::GotoW(0xfffffff0)
    );
    assert_eq!(decode_one(&[201, 0, 1, 0, 0]).0.unwrap(), Opcode::JsrW(0x10000));
    assert_eq!(decode_one(&[0]).0.unwrap(), Opcode::Nop);
    assert_eq!(decode_one(&[177]).0.unwrap(), Opcode::Return);
    assert_eq!(decode_one(&[148]).0.unwrap(), Opcode::Lcmp);
    assert_eq!(decode_one(&[254]).0.unwrap(), Opcode::Impdep1);
    assert_eq!(decode_one(&[255]).0.unwrap(), Opcode::Impdep2);
}

fn table_switch(default: u32, low: u32, high: u32, offsets: &[u32]) -> Vec<u8> {
    let mut b = vec![170];
    for w in [default, low, high].iter().chain(offsets) {
        b.extend_from_slice(&w.to_be_bytes());
    }
    b
}

#[test]
fn a_table_switch_of_three_cases_takes_twenty_four_bytes() {
    let instruction = table_switch(99, 0, 2, &[10, 20, 30]);
    assert_eq!(instruction.len(), 1 + 24);
    let (r, consumed) = decode_one(&instruction);
    assert_eq!(r.unwrap(), Opcode::Tableswitch(0, 2));
    assert_eq!(consumed, 1 + 24);
    // What follows the table is the next instruction.
    let mut region = instruction.clone();
    region.push(177);
    let decoded = Code::new(&code_attribute(0, 0, &region, &[0, 0, 0, 0])).unwrap();
    assert_eq!(decoded.code, vec![Opcode::Tableswitch(0, 2), Opcode::Return]);
}

#[test]
fn the_size_of_a_table_switch_follows_its_keys() {
    // One key.
    let (r, consumed) = decode_one(&table_switch(0, 5, 5, &[1]));
    assert_eq!(r.unwrap(), Opcode::Tableswitch(5, 5));
    assert_eq!(consumed, 1 + 12 + 4);
    // The keys are signed: from -1 to 1 there are three.
    let (r, consumed) = decode_one(&table_switch(0, 0xffffffff, 1, &[1, 2, 3, 4]));
    assert_eq!(r.unwrap(), Opcode::Tableswitch(0xffffffff, 1));
    assert_eq!(consumed, 1 + 12 + 12);
    // No key where the highest is below the lowest.
    let (r, consumed) = decode_one(&table_switch(0, 3, 2, &[1, 2]));
    assert_eq!(r.unwrap(), Opcode::Tableswitch(3, 2));
    assert_eq!(consumed, 1 + 12);
    // A table that is cut short.
    let whole = table_switch(0, 0, 2, &[1, 2, 3]);
    for len in 1..whole.len() {
        let (r, _) = decode_one(&whole[..len]);
        assert!(matches!(r, Err(Error::TruncatedInstruction { opcode: 170, .. })));
    }
    // The largest table there can be does not fit any input.
    let (r, consumed) = decode_one(&table_switch(0, 0x80000000, 0x7fffffff, &[1, 2, 3]));
    assert_eq!(r, Err(Error::TruncatedInstruction { offset: 13, opcode: 170 }));
    assert_eq!(consumed, 13);
}

#[test]
fn a_lookup_switch_takes_eight_bytes_for_each_pair() {
    let mut instruction = vec![171, 0, 0, 0, 9, 0, 0, 0, 2];
    instruction.extend_from_slice(&[0, 0, 0, 1, 0, 0, 0, 10, 0, 0, 0, 2, 0, 0, 0, 20]);
    let (r, consumed) = decode_one(&instruction);
    assert_eq!(r.unwrap(), Opcode::Lookupswitch(2));
    assert_eq!(consumed, 1 + 8 + 16);
    let (r, consumed) = decode_one(&[171, 0, 0, 0, 9, 0, 0, 0, 0, 42]);
    assert_eq!(r.unwrap(), Opcode::Lookupswitch(0));
    assert_eq!(consumed, 9);
    let (r, consumed) = decode_one(&[171, 0, 0, 0, 9, 0xff, 0xff, 0xff, 0xff, 42]);
    assert_eq!(r.unwrap(), Opcode::Lookupswitch(0xffffffff));
    assert_eq!(consumed, 9);
    for len in 1..instruction.len() {
        let (r, _) = decode_one(&instruction[..len]);
        assert!(matches!(r, Err(Error::TruncatedInstruction { opcode: 171, .. })));
    }
}

#[test]
fn the_wide_prefix_extends_an_index() {
    for op in [21u8, 22, 23, 24, 25, 54, 55, 56, 57, 58, 169] {
        let (r, consumed) = decode_one(&[196, op, 0x01, 0x02, 0xff]);
        assert_eq!(r.unwrap(), Opcode::Wide(op, 0x0102, 0));
        assert_eq!(consumed, 4);
    }
    let (r, consumed) = decode_one(&[196, 132, 0x01, 0x02, 0xff, 0xfe, 0]);
    assert_eq!(r.unwrap(), Opcode::Wide(132, 0x0102, 0xfffe));
    assert_eq!(consumed, 6);
    for op in [0u8, 20, 26, 53, 59, 133, 168, 170, 196, 255] {
        let (r, consumed) = decode_one(&[196, op, 0, 0, 0, 0]);
        assert_eq!(r, Err(Error::UnsupportedOpcode { offset: 1, opcode: op }));
        assert_eq!(consumed, 2);
    }
    assert_eq!(
        decode_one(&[196]).0,
        Err(Error::TruncatedInstruction { offset: 1, opcode: 196 })
    );
    assert_eq!(
        decode_one(&[196, 21, 0]).0,
        Err(Error::TruncatedInstruction { offset: 2, opcode: 196 })
    );
    assert_eq!(
        decode_one(&[196, 132, 0, 1, 0]).0,
        Err(Error::TruncatedInstruction { offset: 4, opcode: 196 })
    );
}

#[test]
fn decodes_a_method() {
    // iconst_1, istore 1, iload 1, bipush 10, if_icmpge +7, iinc 1 1, goto -9, return
    let region = [
        4, 54, 1, 21, 1, 16, 10, 162, 0, 7, 132, 1, 1, 167, 0xff, 0xf7, 177,
    ];
    let rest = [
        0, 2, // two exceptions
        0, 0, 0, 16, 0, 16, 0, 5, //
        0, 1, 0, 2, 0, 3, 0, 0, //
        0, 1, // one attribute
        0, 12, 0, 0, 0, 3, 7, 8, 9,
    ];
    let code = Code::new(&code_attribute(2, 3, &region, &rest)).unwrap();
    assert_eq!(code.max_stack(), 2);
    assert_eq!(code.max_locals(), 3);
    assert_eq!(
        code.code,
        vec![
            Opcode::Iconst1,
            Opcode::Istore(1),
            Opcode::Iload(1),
            Opcode::Bipush(10),
            Opcode::IfIcmpge(7),
            Opcode::Iinc(0x0101),
            Opcode::Goto(0xfff7),
            Opcode::Return,
        ]
    );
    assert_eq!(code.instructions(), &code.code);
    assert_eq!(
        code.exception_table(),
        &vec![
            Exception { start_pc: 0, end_pc: 16, handler_pc: 16, catch_type: 5 },
            Exception { start_pc: 1, end_pc: 2, handler_pc: 3, catch_type: 0 },
        ]
    );
    assert_eq!(
        code.attributes(),
        &vec![AttributeInfo { attribute_name_index: Index::Single(12), info: vec![7, 8, 9] }]
    );
    let text: Vec<String> = code.code.iter().map(|o| o.to_string()).collect();
    assert_eq!(
        text,
        vec![
            "iconst_1",
            "istore 1",
            "iload 1",
            "bipush 10",
            "if_icmpge 7",
            "iinc 257",
            "goto 65527",
            "return"
        ]
    );
}

#[test]
fn an_empty_method_has_no_instructions() {
    let code = Code::new(&code_attribute(0, 0, &[], &[0, 0, 0, 0])).unwrap();
    assert!(code.code.is_empty());
    assert!(code.exception_table().is_empty());
    assert!(code.attributes().is_empty());
}

#[test]
fn a_region_that_ends_inside_an_instruction_is_misaligned() {
    // The region has two bytes: sipush needs three.
    let mut attribute = vec![0, 1, 0, 1, 0, 0, 0, 2, 17, 0, 5];
    attribute.extend_from_slice(&[0, 0, 0, 0]);
    assert_eq!(
        Code::new(&attribute).err(),
        Some(Error::MisalignedInstructionStream { length: 2, consumed: 3 })
    );
    // nop, then a table switch that runs over the end of the region.
    let mut region = vec![0];
    region.extend(table_switch(0, 0, 1, &[1, 2]));
    let mut attribute = code_attribute(0, 0, &region, &[0, 0, 0, 0]);
    attribute[7] = 10;
    assert_eq!(
        Code::new(&attribute).err(),
        Some(Error::MisalignedInstructionStream { length: 10, consumed: 22 })
    );
}

#[test]
fn a_code_attribute_that_is_cut_short_fails() {
    let region = [4, 54, 1, 177];
    let rest = [0, 1, 0, 0, 0, 4, 0, 4, 0, 5, 0, 1, 0, 12, 0, 0, 0, 2, 7, 8];
    let whole = code_attribute(2, 3, &region, &rest);
    assert!(Code::new(&whole).is_ok());
    for len in 0..whole.len() {
        let r = Code::new(&whole[..len].to_vec());
        match (len, r) {
            // Inside the operand of istore.
            (10, Err(Error::TruncatedInstruction { offset: 10, opcode: 54 })) => {}
            (l, Err(Error::TruncatedInput { offset, needed, label: None })) if l != 10 => {
                assert!(offset <= len && offset + needed > len);
            }
            (l, other) => panic!("unexpected at {}: {:?}", l, other),
        }
    }
}

#[test]
fn the_reader_counts_what_it_consumes() {
    let bytes = vec![1, 2, 3, 4, 5, 6, 7, 8, 9, 10];
    let mut reader = CodeReader::new(&bytes);
    assert!(!reader.has_bytes());
    assert_eq!(reader.read_u16().unwrap(), 0x0102);
    assert_eq!(reader.consumed(), 2);
    reader.set_length(5);
    assert_eq!(reader.length(), 5);
    assert_eq!(reader.consumed(), 0);
    assert!(reader.has_bytes());
    assert_eq!(reader.read_u32().unwrap(), 0x03040506);
    assert_eq!(reader.consumed(), 4);
    assert!(reader.has_bytes());
    assert_eq!(reader.read_u8().unwrap(), 7);
    assert_eq!(reader.consumed(), 5);
    assert!(!reader.has_bytes());
    assert_eq!(reader.position(), 7);
    assert!(!reader.skip(4));
    assert_eq!(reader.position(), 7);
    assert!(reader.skip(1));
    assert_eq!(reader.read_bytes(3), Err(Error::TruncatedInput { offset: 8, needed: 3, label: None }));
    assert_eq!(reader.read_bytes(2).unwrap(), vec![9, 10]);
    assert_eq!(reader.read_u8(), Err(Error::TruncatedInput { offset: 10, needed: 1, label: None }));
    assert_eq!(reader.read_u16(), Err(Error::TruncatedInput { offset: 10, needed: 2, label: None }));
    assert_eq!(reader.read_u32(), Err(Error::TruncatedInput { offset: 10, needed: 4, label: None }));
    assert!(reader.skip(0));
    assert_eq!(reader.consumed(), 8);
}

#[test]
fn renders_instructions() {
    assert_eq!(Opcode::Nop.to_string(), "nop");
    assert_eq!(Opcode::AconstNull.to_string(), "aconst_null");
    assert_eq!(Opcode::IconstM1.to_string(), "iconst_m1");
    assert_eq!(Opcode::Aload0.to_string(), "aload_0");
    assert_eq!(Opcode::Dup2X1.to_string(), "dup2_x1");
    assert_eq!(Opcode::Aload(255).to_string(), "aload 255");
    assert_eq!(Opcode::Lload(3).to_string(), "lload 3");
    assert_eq!(Opcode::Ldc2W(300).to_string(), "ldc2_w 300");
    assert_eq!(Opcode::IfAcmpne(65535).to_string(), "if_acmpne 65535");
    assert_eq!(Opcode::GotoW(4294967295).to_string(), "goto_w 4294967295");
    assert_eq!(Opcode::JsrW(0).to_string(), "jsr_w 0");
    assert_eq!(Opcode::Multianewarray(12, 3).to_string(), "multianewarray 12 3");
    assert_eq!(Opcode::Invokeinterface(12, 3).to_string(), "invokeinterface 12 3");
    assert_eq!(Opcode::Invokedynamic(7).to_string(), "invokedynamic 7");
    assert_eq!(Opcode::Instanceof(7).to_string(), "instanceof 7");
    assert_eq!(Opcode::Tableswitch(0, 2).to_string(), "tableswitch 02");
    assert_eq!(Opcode::Lookupswitch(5).to_string(), "lookupswitch 5");
    assert_eq!(Opcode::Wide(132, 300, 65535).to_string(), "wide 132 300 65535");
    assert_eq!(Opcode::Breakpoint.to_string(), "breakpoint");
    assert_eq!(Opcode::Impdep2.name(), "impdep2");
    assert_eq!(Opcode::Lcmp.name(), "lcmp");
    assert_eq!(Opcode::Dcmpg.to_u8(), 152);
}
