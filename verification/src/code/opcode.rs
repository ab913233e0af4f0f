//! The instructions of the Java virtual machine, and how one is decoded.
//!
//! An instruction is one byte, the opcode, and the operands that the opcode
//! calls for.  Operands of more than one byte stand most significant byte
//! first.  They are kept as they are encoded: a branch offset is not
//! resolved into a position.
use vstd::prelude::*;
use vstd::string::StringExecFns;
use crate::code::{CodeReader, CodeReaderView};
use crate::error::{outcome, Error, ErrorView};
use crate::text::{
    decimal_u16, decimal_u32, decimal_u8, u16_to_decimal, u32_to_decimal, u8_to_decimal,
};

verus! {

/// An instruction: one case for each opcode that is defined, with the
/// operands of the instruction.
#[derive(Clone, Copy, Debug, PartialEq, Eq, Structural)]
pub enum Opcode {
    /// Load reference from array.
    Aaload,
    /// Store into reference array.
    Aastore,
    /// Push null.
    AconstNull,
    /// Load reference from local variable.
    Aload(u8),
    /// Load reference from local variable 0.
    Aload0,
    /// Load reference from local variable 1.
    Aload1,
    /// Load reference from local variable 2.
    Aload2,
    /// Load reference from local variable 3.
    Aload3,
    /// Create new array of reference.
    Anewarray(u16),
    /// Return reference from method.
    Areturn,
    /// Get length of array.
    Arraylength,
    /// Store reference into local variable.
    Astore(u8),
    /// Store reference into local variable 0.
    Astore0,
    /// Store reference into local variable 1.
    Astore1,
    /// Store reference into local variable 2.
    Astore2,
    /// Store reference into local variable 3.
    Astore3,
    /// Throw Throwable reference.
    Athrow,
    /// Load byte or boolean from array.
    Baload,
    /// Store into byte or boolean array.
    Bastore,
    /// Push byte.
    Bipush(u8),
    /// Reserved for internal usage in debuggers.
    Breakpoint,
    /// Load char from array.
    Caload,
    /// Store into char array.
    Castore,
    /// Test whether reference is of given type.
    Checkcast(u16),
    /// Convert double to float.
    D2f,
    /// Convert double to int.
    D2i,
    /// Convert double to long.
    D2l,
    /// Add double.
    Dadd,
    /// Load double from array.
    Daload,
    /// Store into double array.
    Dastore,
    /// Compare double.
    Dcmpg,
    /// Compare double.
    Dcmpl,
    /// Push double value 0.0.
    Dconst0,
    /// Push double value 1.0.
    Dconst1,
    /// Divide double.
    Ddiv,
    /// Load double from local variable.
    Dload(u8),
    /// Load double from local variable 0.
    Dload0,
    /// Load double from local variable 1.
    Dload1,
    /// Load double from local variable 2.
    Dload2,
    /// Load double from local variable 3.
    Dload3,
    /// Multiply double.
    Dmul,
    /// Negate double.
    Dneg,
    /// Remainder double.
    Drem,
    /// Return double from method.
    Dreturn,
    /// Store double into local variable.
    Dstore(u8),
    /// Store double into local variable 0.
    Dstore0,
    /// Store double into local variable 1.
    Dstore1,
    /// Store double into local variable 2.
    Dstore2,
    /// Store double into local variable 3.
    Dstore3,
    /// Subtract double.
    Dsub,
    /// Duplicate the top operand stack value.
    Dup,
    /// Duplicate the top operand stack value and insert two values down.
    DupX1,
    /// Duplicate the top operand stack value and insert two or three values down.
    DupX2,
    /// Duplicate the top one or two operand stack values.
    Dup2,
    /// Duplicate the top one or two operand stack values and insert two or three values down.
    Dup2X1,
    /// Duplicate the top one or two operand stack values and insert two, three, or four values down.
    Dup2X2,
    /// Convert float to double.
    F2d,
    /// Convert float to int.
    F2i,
    /// Convert float to long.
    F2l,
    /// Add float.
    Fadd,
    /// Load float from array.
    Faload,
    /// Store into float array.
    Fastore,
    /// Compare float.
    Fcmpg,
    /// Compare float.
    Fcmpl,
    /// Push float value 0.0.
    Fconst0,
    /// Push float value 1.0.
    Fconst1,
    /// Push float value 2.0.
    Fconst2,
    /// Divide float.
    Fdiv,
    /// Load float from local variable.
    Fload(u8),
    /// Load float from local variable 0.
    Fload0,
    /// Load float from local variable 1.
    Fload1,
    /// Load float from local variable 2.
    Fload2,
    /// Load float from local variable 3.
    Fload3,
    /// Multiply float.
    Fmul,
    /// Negate float.
    Fneg,
    /// Remainder float.
    Frem,
    /// Return float from method.
    Freturn,
    /// Store float into local variable.
    Fstore(u8),
    /// Store float into local variable 0.
    Fstore0,
    /// Store float into local variable 1.
    Fstore1,
    /// Store float into local variable 2.
    Fstore2,
    /// Store float into local variable 3.
    Fstore3,
    /// Subtract float.
    Fsub,
    /// Fetch field from object.
    Getfield(u16),
    /// Get static field from class.
    Getstatic(u16),
    /// Unconditional jump.
    Goto(u16),
    /// Unconditional jump (wide index).
    GotoW(u32),
    /// Convert int to byte.
    I2b,
    /// Convert int to char.
    I2c,
    /// Convert int to double.
    I2d,
    /// Convert int to float.
    I2f,
    /// Convert int to long.
    I2l,
    /// Convert int to short.
    I2s,
    /// Add int.
    Iadd,
    /// Load int from array.
    Iaload,
    /// Boolean AND int.
    Iand,
    /// Store into int array.
    Iastore,
    /// Push int constant 0.
    Iconst0,
    /// Push int constant 1.
    Iconst1,
    /// Push int constant 2.
    Iconst2,
    /// Push int constant 3.
    Iconst3,
    /// Push int constant 4.
    Iconst4,
    /// Push int constant 5.
    Iconst5,
    /// Push int constant -1.
    IconstM1,
    /// Divide int.
    Idiv,
    /// Jump if reference comparison succeeds.
    IfAcmpeq(u16),
    /// Jump if reference comparison succeeds.
    IfAcmpne(u16),
    /// Jump if int comparison succeeds.
    IfIcmpeq(u16),
    /// Jump if int comparison succeeds.
    IfIcmpge(u16),
    /// Jump if int comparison succeeds.
    IfIcmpgt(u16),
    /// Jump if int comparison succeeds.
    IfIcmple(u16),
    /// Jump if int comparison succeeds.
    IfIcmplt(u16),
    /// Jump if int comparison succeeds.
    IfIcmpne(u16),
    /// Jump if int comparison with zero succeeds.
    Ifeq(u16),
    /// Jump if int comparison with zero succeeds.
    Ifge(u16),
    /// Jump if int comparison with zero succeeds.
    Ifgt(u16),
    /// Jump if int comparison with zero succeeds.
    Ifle(u16),
    /// Jump if int comparison with zero succeeds.
    Iflt(u16),
    /// Jump if int comparison with zero succeeds.
    Ifne(u16),
    /// Jump if reference not null.
    Ifnonnull(u16),
    /// Jump if reference is null.
    Ifnull(u16),
    /// Increment local variable by constant.
    Iinc(u16),
    /// Load int from local variable.
    Iload(u8),
    /// Load int from local variable.
    Iload0,
    /// Load int from local variable.
    Iload1,
    /// Load int from local variable.
    Iload2,
    /// Load int from local variable.
    Iload3,
    /// Reserved for internal usage in JVM.
    Impdep1,
    /// Reserved for internal usage in JVM.
    Impdep2,
    /// Multiply int.
    Imul,
    /// Negate int.
    Ineg,
    /// Determine if reference is of given type.
    Instanceof(u16),
    /// Invoke a dynamically-computed call site: the slot of the call site.
    Invokedynamic(u16),
    /// Invoke interface method: the slot of the method and the count of its arguments.
    Invokeinterface(u16, u8),
    /// Directly invoke instance (initialization) method of the current class or its supertypes.
    Invokespecial(u16),
    /// Invoke static method.
    Invokestatic(u16),
    /// Invoke instance method, dispatch based on class.
    Invokevirtual(u16),
    /// Boolean OR int.
    Ior,
    /// Remainder int.
    Irem,
    /// Return int from method.
    Ireturn,
    /// Shift left int.
    Ishl,
    /// Arithmetic shift right int.
    Ishr,
    /// Store int into local variable.
    Istore(u8),
    /// Store int into local variable 0.
    Istore0,
    /// Store int into local variable 1.
    Istore1,
    /// Store int into local variable 2.
    Istore2,
    /// Store int into local variable 3.
    Istore3,
    /// Subtract int.
    Isub,
    /// Logical shift right int.
    Iushr,
    /// Boolean XOR int.
    Ixor,
    /// Jump subroutine.
    Jsr(u16),
    /// Jump subroutine (wide index).
    JsrW(u32),
    /// Convert long to double.
    L2d,
    /// Convert long to float.
    L2f,
    /// Convert long to int.
    L2i,
    /// Add long.
    Ladd,
    /// Load long from array.
    Laload,
    /// Boolean AND long.
    Land,
    /// Store into long array.
    Lastore,
    /// Compare long.
    Lcmp,
    /// Push long constant.
    Lconst0,
    /// Push long constant.
    Lconst1,
    /// Push item from constant pool.
    Ldc(u8),
    /// Push item from constant pool (wide index).
    LdcW(u16),
    /// Push long or double from constant pool (wide index).
    Ldc2W(u16),
    /// Divide long.
    Ldiv,
    /// Load long from local variable.
    Lload(u8),
    /// Load long from local variable 0.
    Lload0,
    /// Load long from local variable 1.
    Lload1,
    /// Load long from local variable 2.
    Lload2,
    /// Load long from local variable 3.
    Lload3,
    /// Multiply long.
    Lmul,
    /// Negate long.
    Lneg,
    /// Access jump table by key match and jump: the number of pairs of the jump table.
    Lookupswitch(u32),
    /// Boolean OR long.
    Lor,
    /// Remainder long.
    Lrem,
    /// Return long from method.
    Lreturn,
    /// Shift left long.
    Lshl,
    /// Arithmetic shift right long.
    Lshr,
    /// Store long into local variable.
    Lstore(u8),
    /// Store long into local variable 0.
    Lstore0,
    /// Store long into local variable 1.
    Lstore1,
    /// Store long into local variable 2.
    Lstore2,
    /// Store long into local variable 3.
    Lstore3,
    /// Subtract long.
    Lsub,
    /// Logical shift right long.
    Lushr,
    /// Boolean XOR long.
    Lxor,
    /// Enter monitor for object.
    Monitorenter,
    /// Exit monitor for object.
    Monitorexit,
    /// Create new multidimensional array.
    Multianewarray(u16, u8),
    /// Create new object.
    New(u16),
    /// Create new array.
    Newarray(u8),
    /// Do nothing.
    Nop,
    /// Pop the top operand stack value.
    Pop,
    /// Pop the top one or two operand stack values.
    Pop2,
    /// Set field in object.
    Putfield(u16),
    /// Set static field in class.
    Putstatic(u16),
    /// Return from subroutine.
    Ret(u8),
    /// Return void from method.
    Return,
    /// Load short from array.
    Saload,
    /// Store into short array.
    Sastore,
    /// Push short.
    Sipush(u16),
    /// Swap the top two operand stack values.
    Swap,
    /// Access jump table by index and jump: the lowest and the highest key of the jump table.
    Tableswitch(u32, u32),
    /// Extend local variable index by additional bytes: the instruction that is extended, its index, and its increment where it has one.
    Wide(u8, u16, u16),
}

impl DeepView for Opcode {
    type V = Opcode;

    open spec fn deep_view(&self) -> Opcode {
        *self
    }
}

/// What became of a read of operands of the instruction `code`: the read as
/// it went, but with the instruction named where the input ended inside it.
pub open spec fn operand<T>(r: (CodeReaderView, Result<T, ErrorView>), code: u8) -> (
    CodeReaderView,
    Result<T, ErrorView>,
) {
    match r.1 {
        Ok(_) => r,
        Err(_) => (r.0, Err(ErrorView::TruncatedInstruction { offset: r.0.pos, opcode: code })),
    }
}

/// Decodes an instruction whose one operand is a byte.
pub open spec fn with_u8(code: u8, s: CodeReaderView, make: spec_fn(u8) -> Opcode) -> (
    CodeReaderView,
    Result<Opcode, ErrorView>,
) {
    let (s1, r) = operand(s.read_u8(), code);
    match r {
        Ok(v) => (s1, Ok(make(v))),
        Err(e) => (s1, Err(e)),
    }
}

/// Decodes an instruction whose one operand has 16 bits.
pub open spec fn with_u16(code: u8, s: CodeReaderView, make: spec_fn(u16) -> Opcode) -> (
    CodeReaderView,
    Result<Opcode, ErrorView>,
) {
    let (s1, r) = operand(s.read_u16(), code);
    match r {
        Ok(v) => (s1, Ok(make(v))),
        Err(e) => (s1, Err(e)),
    }
}

/// Decodes an instruction whose one operand has 32 bits.
pub open spec fn with_u32(code: u8, s: CodeReaderView, make: spec_fn(u32) -> Opcode) -> (
    CodeReaderView,
    Result<Opcode, ErrorView>,
) {
    let (s1, r) = operand(s.read_u32(), code);
    match r {
        Ok(v) => (s1, Ok(make(v))),
        Err(e) => (s1, Err(e)),
    }
}

/// Decodes an instruction whose operands are 16 bits and then a byte.
pub open spec fn with_u16_u8(code: u8, s: CodeReaderView, make: spec_fn(u16, u8) -> Opcode) -> (
    CodeReaderView,
    Result<Opcode, ErrorView>,
) {
    let (s1, r1) = operand(s.read_u16(), code);
    match r1 {
        Err(e) => (s1, Err(e)),
        Ok(a) => {
            let (s2, r2) = operand(s1.read_u8(), code);
            match r2 {
                Err(e) => (s2, Err(e)),
                Ok(b) => (s2, Ok(make(a, b))),
            }
        },
    }
}

/// Passes over `n` bytes that belong to the instruction `code` and carry
/// nothing, once the instruction was decoded as `r` says.
pub open spec fn then_skip(code: u8, r: (CodeReaderView, Result<Opcode, ErrorView>), n: int) -> (
    CodeReaderView,
    Result<Opcode, ErrorView>,
) {
    match r.1 {
        Err(_) => r,
        Ok(op) => {
            let (s1, there) = r.0.skip(n);
            if there {
                (s1, Ok(op))
            } else {
                (s1, Err(ErrorView::TruncatedInstruction { offset: s1.pos, opcode: code }))
            }
        },
    }
}

/// The failure to decode an opcode that is not defined.  The offset is that
/// of the opcode, which stands just before the place of the reader.
pub open spec fn undefined(code: u8, s: CodeReaderView) -> ErrorView {
    ErrorView::UnsupportedOpcode {
        offset: if s.pos > 0 {
            s.pos - 1
        } else {
            0
        },
        opcode: code,
    }
}

/// The number that 32 bits stand for as a signed integer in two's
/// complement.
pub open spec fn signed(v: u32) -> int {
    if v < 0x8000_0000 {
        v as int
    } else {
        v as int - 0x1_0000_0000
    }
}

/// The number of entries of a jump table with the keys from `low` to
/// `high`: one for each key, and none where `high` is below `low`.
pub open spec fn table_entries(low: u32, high: u32) -> int {
    if signed(high) >= signed(low) {
        signed(high) - signed(low) + 1
    } else {
        0
    }
}

/// The number of pairs of a jump table that announces `npairs` of them:
/// none where the number is negative.
pub open spec fn lookup_pairs(npairs: u32) -> int {
    if signed(npairs) >= 0 {
        signed(npairs)
    } else {
        0
    }
}

/// Decodes the operands of a table switch: the default offset, the lowest
/// key, the highest key, and one 32-bit offset for each key from the lowest
/// to the highest.
pub open spec fn read_table_switch(code: u8, s: CodeReaderView) -> (
    CodeReaderView,
    Result<Opcode, ErrorView>,
) {
    let (s1, r1) = operand(s.read_u32(), code);
    match r1 {
        Err(e) => (s1, Err(e)),
        Ok(_) => {
            let (s2, r2) = operand(s1.read_u32(), code);
            match r2 {
                Err(e) => (s2, Err(e)),
                Ok(low) => {
                    let (s3, r3) = operand(s2.read_u32(), code);
                    match r3 {
                        Err(e) => (s3, Err(e)),
                        Ok(high) => then_skip(
                            code,
                            (s3, Ok(Opcode::Tableswitch(low, high))),
                            4 * table_entries(low, high),
                        ),
                    }
                },
            }
        },
    }
}

/// Decodes the operands of a lookup switch: the default offset, the number
/// of pairs, and for each pair a 32-bit key and a 32-bit offset.
pub open spec fn read_lookup_switch(code: u8, s: CodeReaderView) -> (
    CodeReaderView,
    Result<Opcode, ErrorView>,
) {
    let (s1, r1) = operand(s.read_u32(), code);
    match r1 {
        Err(e) => (s1, Err(e)),
        Ok(_) => {
            let (s2, r2) = operand(s1.read_u32(), code);
            match r2 {
                Err(e) => (s2, Err(e)),
                Ok(npairs) => then_skip(
                    code,
                    (s2, Ok(Opcode::Lookupswitch(npairs))),
                    8 * lookup_pairs(npairs),
                ),
            }
        },
    }
}

/// Whether the instruction `op` can be extended to a 16-bit index: the
/// loads and stores of local variables, and `ret`.
pub open spec fn takes_wide_index(op: u8) -> bool {
    21 <= op <= 25 || 54 <= op <= 58 || op == 169
}

/// Decodes the operands of the wide prefix: the instruction that is
/// extended and its 16-bit index, and for `iinc` a 16-bit increment too.  No
/// other instruction can be extended.
pub open spec fn read_wide(code: u8, s: CodeReaderView) -> (
    CodeReaderView,
    Result<Opcode, ErrorView>,
) {
    let (s1, r1) = operand(s.read_u8(), code);
    match r1 {
        Err(e) => (s1, Err(e)),
        Ok(op) => if op == 132 {
            let (s2, r2) = operand(s1.read_u16(), code);
            match r2 {
                Err(e) => (s2, Err(e)),
                Ok(index) => {
                    let (s3, r3) = operand(s2.read_u16(), code);
                    match r3 {
                        Err(e) => (s3, Err(e)),
                        Ok(increment) => (s3, Ok(Opcode::Wide(op, index, increment))),
                    }
                },
            }
        } else if takes_wide_index(op) {
            let (s2, r2) = operand(s1.read_u16(), code);
            match r2 {
                Err(e) => (s2, Err(e)),
                Ok(index) => (s2, Ok(Opcode::Wide(op, index, 0))),
            }
        } else {
            (s1, Err(undefined(op, s1)))
        },
    }
}

/// Decodes the instruction whose opcode `code` was just read: the operands
/// that the opcode calls for are read, and the instruction is made of them.
/// The opcodes from 203 to 253 are not defined.
pub open spec fn decode(code: u8, s: CodeReaderView) -> (
    CodeReaderView,
    Result<Opcode, ErrorView>,
) {
    match code {
        0 => (s, Ok(Opcode::Nop)),
        1 => (s, Ok(Opcode::AconstNull)),
        2 => (s, Ok(Opcode::IconstM1)),
        3 => (s, Ok(Opcode::Iconst0)),
        4 => (s, Ok(Opcode::Iconst1)),
        5 => (s, Ok(Opcode::Iconst2)),
        6 => (s, Ok(Opcode::Iconst3)),
        7 => (s, Ok(Opcode::Iconst4)),
        8 => (s, Ok(Opcode::Iconst5)),
        9 => (s, Ok(Opcode::Lconst0)),
        10 => (s, Ok(Opcode::Lconst1)),
        11 => (s, Ok(Opcode::Fconst0)),
        12 => (s, Ok(Opcode::Fconst1)),
        13 => (s, Ok(Opcode::Fconst2)),
        14 => (s, Ok(Opcode::Dconst0)),
        15 => (s, Ok(Opcode::Dconst1)),
        16 => with_u8(code, s, |v: u8| Opcode::Bipush(v)),
        17 => with_u16(code, s, |v: u16| Opcode::Sipush(v)),
        18 => with_u8(code, s, |v: u8| Opcode::Ldc(v)),
        19 => with_u16(code, s, |v: u16| Opcode::LdcW(v)),
        20 => with_u16(code, s, |v: u16| Opcode::Ldc2W(v)),
        21 => with_u8(code, s, |v: u8| Opcode::Iload(v)),
        22 => with_u8(code, s, |v: u8| Opcode::Lload(v)),
        23 => with_u8(code, s, |v: u8| Opcode::Fload(v)),
        24 => with_u8(code, s, |v: u8| Opcode::Dload(v)),
        25 => with_u8(code, s, |v: u8| Opcode::Aload(v)),
        26 => (s, Ok(Opcode::Iload0)),
        27 => (s, Ok(Opcode::Iload1)),
        28 => (s, Ok(Opcode::Iload2)),
        29 => (s, Ok(Opcode::Iload3)),
        30 => (s, Ok(Opcode::Lload0)),
        31 => (s, Ok(Opcode::Lload1)),
        32 => (s, Ok(Opcode::Lload2)),
        33 => (s, Ok(Opcode::Lload3)),
        34 => (s, Ok(Opcode::Fload0)),
        35 => (s, Ok(Opcode::Fload1)),
        36 => (s, Ok(Opcode::Fload2)),
        37 => (s, Ok(Opcode::Fload3)),
        38 => (s, Ok(Opcode::Dload0)),
        39 => (s, Ok(Opcode::Dload1)),
        40 => (s, Ok(Opcode::Dload2)),
        41 => (s, Ok(Opcode::Dload3)),
        42 => (s, Ok(Opcode::Aload0)),
        43 => (s, Ok(Opcode::Aload1)),
        44 => (s, Ok(Opcode::Aload2)),
        45 => (s, Ok(Opcode::Aload3)),
        46 => (s, Ok(Opcode::Iaload)),
        47 => (s, Ok(Opcode::Laload)),
        48 => (s, Ok(Opcode::Faload)),
        49 => (s, Ok(Opcode::Daload)),
        50 => (s, Ok(Opcode::Aaload)),
        51 => (s, Ok(Opcode::Baload)),
        52 => (s, Ok(Opcode::Caload)),
        53 => (s, Ok(Opcode::Saload)),
        54 => with_u8(code, s, |v: u8| Opcode::Istore(v)),
        55 => with_u8(code, s, |v: u8| Opcode::Lstore(v)),
        56 => with_u8(code, s, |v: u8| Opcode::Fstore(v)),
        57 => with_u8(code, s, |v: u8| Opcode::Dstore(v)),
        58 => with_u8(code, s, |v: u8| Opcode::Astore(v)),
        59 => (s, Ok(Opcode::Istore0)),
        60 => (s, Ok(Opcode::Istore1)),
        61 => (s, Ok(Opcode::Istore2)),
        62 => (s, Ok(Opcode::Istore3)),
        63 => (s, Ok(Opcode::Lstore0)),
        64 => (s, Ok(Opcode::Lstore1)),
        65 => (s, Ok(Opcode::Lstore2)),
        66 => (s, Ok(Opcode::Lstore3)),
        67 => (s, Ok(Opcode::Fstore0)),
        68 => (s, Ok(Opcode::Fstore1)),
        69 => (s, Ok(Opcode::Fstore2)),
        70 => (s, Ok(Opcode::Fstore3)),
        71 => (s, Ok(Opcode::Dstore0)),
        72 => (s, Ok(Opcode::Dstore1)),
        73 => (s, Ok(Opcode::Dstore2)),
        74 => (s, Ok(Opcode::Dstore3)),
        75 => (s, Ok(Opcode::Astore0)),
        76 => (s, Ok(Opcode::Astore1)),
        77 => (s, Ok(Opcode::Astore2)),
        78 => (s, Ok(Opcode::Astore3)),
        79 => (s, Ok(Opcode::Iastore)),
        80 => (s, Ok(Opcode::Lastore)),
        81 => (s, Ok(Opcode::Fastore)),
        82 => (s, Ok(Opcode::Dastore)),
        83 => (s, Ok(Opcode::Aastore)),
        84 => (s, Ok(Opcode::Bastore)),
        85 => (s, Ok(Opcode::Castore)),
        86 => (s, Ok(Opcode::Sastore)),
        87 => (s, Ok(Opcode::Pop)),
        88 => (s, Ok(Opcode::Pop2)),
        89 => (s, Ok(Opcode::Dup)),
        90 => (s, Ok(Opcode::DupX1)),
        91 => (s, Ok(Opcode::DupX2)),
        92 => (s, Ok(Opcode::Dup2)),
        93 => (s, Ok(Opcode::Dup2X1)),
        94 => (s, Ok(Opcode::Dup2X2)),
        95 => (s, Ok(Opcode::Swap)),
        96 => (s, Ok(Opcode::Iadd)),
        97 => (s, Ok(Opcode::Ladd)),
        98 => (s, Ok(Opcode::Fadd)),
        99 => (s, Ok(Opcode::Dadd)),
        100 => (s, Ok(Opcode::Isub)),
        101 => (s, Ok(Opcode::Lsub)),
        102 => (s, Ok(Opcode::Fsub)),
        103 => (s, Ok(Opcode::Dsub)),
        104 => (s, Ok(Opcode::Imul)),
        105 => (s, Ok(Opcode::Lmul)),
        106 => (s, Ok(Opcode::Fmul)),
        107 => (s, Ok(Opcode::Dmul)),
        108 => (s, Ok(Opcode::Idiv)),
        109 => (s, Ok(Opcode::Ldiv)),
        110 => (s, Ok(Opcode::Fdiv)),
        111 => (s, Ok(Opcode::Ddiv)),
        112 => (s, Ok(Opcode::Irem)),
        113 => (s, Ok(Opcode::Lrem)),
        114 => (s, Ok(Opcode::Frem)),
        115 => (s, Ok(Opcode::Drem)),
        116 => (s, Ok(Opcode::Ineg)),
        117 => (s, Ok(Opcode::Lneg)),
        118 => (s, Ok(Opcode::Fneg)),
        119 => (s, Ok(Opcode::Dneg)),
        120 => (s, Ok(Opcode::Ishl)),
        121 => (s, Ok(Opcode::Lshl)),
        122 => (s, Ok(Opcode::Ishr)),
        123 => (s, Ok(Opcode::Lshr)),
        124 => (s, Ok(Opcode::Iushr)),
        125 => (s, Ok(Opcode::Lushr)),
        126 => (s, Ok(Opcode::Iand)),
        127 => (s, Ok(Opcode::Land)),
        128 => (s, Ok(Opcode::Ior)),
        129 => (s, Ok(Opcode::Lor)),
        130 => (s, Ok(Opcode::Ixor)),
        131 => (s, Ok(Opcode::Lxor)),
        132 => with_u16(code, s, |v: u16| Opcode::Iinc(v)),
        133 => (s, Ok(Opcode::I2l)),
        134 => (s, Ok(Opcode::I2f)),
        135 => (s, Ok(Opcode::I2d)),
        136 => (s, Ok(Opcode::L2i)),
        137 => (s, Ok(Opcode::L2f)),
        138 => (s, Ok(Opcode::L2d)),
        139 => (s, Ok(Opcode::F2i)),
        140 => (s, Ok(Opcode::F2l)),
        141 => (s, Ok(Opcode::F2d)),
        142 => (s, Ok(Opcode::D2i)),
        143 => (s, Ok(Opcode::D2l)),
        144 => (s, Ok(Opcode::D2f)),
        145 => (s, Ok(Opcode::I2b)),
        146 => (s, Ok(Opcode::I2c)),
        147 => (s, Ok(Opcode::I2s)),
        148 => (s, Ok(Opcode::Lcmp)),
        149 => (s, Ok(Opcode::Fcmpl)),
        150 => (s, Ok(Opcode::Fcmpg)),
        151 => (s, Ok(Opcode::Dcmpl)),
        152 => (s, Ok(Opcode::Dcmpg)),
        153 => with_u16(code, s, |v: u16| Opcode::Ifeq(v)),
        154 => with_u16(code, s, |v: u16| Opcode::Ifne(v)),
        155 => with_u16(code, s, |v: u16| Opcode::Iflt(v)),
        156 => with_u16(code, s, |v: u16| Opcode::Ifge(v)),
        157 => with_u16(code, s, |v: u16| Opcode::Ifgt(v)),
        158 => with_u16(code, s, |v: u16| Opcode::Ifle(v)),
        159 => with_u16(code, s, |v: u16| Opcode::IfIcmpeq(v)),
        160 => with_u16(code, s, |v: u16| Opcode::IfIcmpne(v)),
        161 => with_u16(code, s, |v: u16| Opcode::IfIcmplt(v)),
        162 => with_u16(code, s, |v: u16| Opcode::IfIcmpge(v)),
        163 => with_u16(code, s, |v: u16| Opcode::IfIcmpgt(v)),
        164 => with_u16(code, s, |v: u16| Opcode::IfIcmple(v)),
        165 => with_u16(code, s, |v: u16| Opcode::IfAcmpeq(v)),
        166 => with_u16(code, s, |v: u16| Opcode::IfAcmpne(v)),
        167 => with_u16(code, s, |v: u16| Opcode::Goto(v)),
        168 => with_u16(code, s, |v: u16| Opcode::Jsr(v)),
        169 => with_u8(code, s, |v: u8| Opcode::Ret(v)),
        170 => read_table_switch(code, s),
        171 => read_lookup_switch(code, s),
        172 => (s, Ok(Opcode::Ireturn)),
        173 => (s, Ok(Opcode::Lreturn)),
        174 => (s, Ok(Opcode::Freturn)),
        175 => (s, Ok(Opcode::Dreturn)),
        176 => (s, Ok(Opcode::Areturn)),
        177 => (s, Ok(Opcode::Return)),
        178 => with_u16(code, s, |v: u16| Opcode::Getstatic(v)),
        179 => with_u16(code, s, |v: u16| Opcode::Putstatic(v)),
        180 => with_u16(code, s, |v: u16| Opcode::Getfield(v)),
        181 => with_u16(code, s, |v: u16| Opcode::Putfield(v)),
        182 => with_u16(code, s, |v: u16| Opcode::Invokevirtual(v)),
        183 => with_u16(code, s, |v: u16| Opcode::Invokespecial(v)),
        184 => with_u16(code, s, |v: u16| Opcode::Invokestatic(v)),
        185 => then_skip(code, with_u16_u8(code, s, |a: u16, b: u8| Opcode::Invokeinterface(a, b)), 1),
        186 => then_skip(code, with_u16(code, s, |v: u16| Opcode::Invokedynamic(v)), 2),
        187 => with_u16(code, s, |v: u16| Opcode::New(v)),
        188 => with_u8(code, s, |v: u8| Opcode::Newarray(v)),
        189 => with_u16(code, s, |v: u16| Opcode::Anewarray(v)),
        190 => (s, Ok(Opcode::Arraylength)),
        191 => (s, Ok(Opcode::Athrow)),
        192 => with_u16(code, s, |v: u16| Opcode::Checkcast(v)),
        193 => with_u16(code, s, |v: u16| Opcode::Instanceof(v)),
        194 => (s, Ok(Opcode::Monitorenter)),
        195 => (s, Ok(Opcode::Monitorexit)),
        196 => read_wide(code, s),
        197 => with_u16_u8(code, s, |a: u16, b: u8| Opcode::Multianewarray(a, b)),
        198 => with_u16(code, s, |v: u16| Opcode::Ifnull(v)),
        199 => with_u16(code, s, |v: u16| Opcode::Ifnonnull(v)),
        200 => with_u32(code, s, |v: u32| Opcode::GotoW(v)),
        201 => with_u32(code, s, |v: u32| Opcode::JsrW(v)),
        202 => (s, Ok(Opcode::Breakpoint)),
        254 => (s, Ok(Opcode::Impdep1)),
        255 => (s, Ok(Opcode::Impdep2)),
        _ => (s, Err(undefined(code, s))),
    }
}

/// Reads a byte that is an operand of the instruction `code`.
fn operand_u8(reader: &mut CodeReader, code: u8) -> (r: Result<u8, Error>)
    ensures
        (final(reader)@, outcome(r)) == operand(old(reader)@.read_u8(), code),
{
    match reader.read_u8() {
        Ok(v) => Ok(v),
        Err(_) => Err(Error::TruncatedInstruction { offset: reader.position(), opcode: code }),
    }
}

/// Reads 16 bits that are an operand of the instruction `code`.
fn operand_u16(reader: &mut CodeReader, code: u8) -> (r: Result<u16, Error>)
    ensures
        (final(reader)@, outcome(r)) == operand(old(reader)@.read_u16(), code),
{
    match reader.read_u16() {
        Ok(v) => Ok(v),
        Err(_) => Err(Error::TruncatedInstruction { offset: reader.position(), opcode: code }),
    }
}

/// Reads 32 bits that are an operand of the instruction `code`.
fn operand_u32(reader: &mut CodeReader, code: u8) -> (r: Result<u32, Error>)
    ensures
        (final(reader)@, outcome(r)) == operand(old(reader)@.read_u32(), code),
{
    match reader.read_u32() {
        Ok(v) => Ok(v),
        Err(_) => Err(Error::TruncatedInstruction { offset: reader.position(), opcode: code }),
    }
}

/// Passes over `n` bytes that belong to the instruction `code`, which was
/// decoded as `op`.
fn skip_operands(reader: &mut CodeReader, code: u8, op: Opcode, n: u64) -> (r: Result<
    Opcode,
    Error,
>)
    ensures
        (final(reader)@, outcome(r)) == then_skip(
            code,
            (old(reader)@, Ok::<Opcode, ErrorView>(op)),
            n as int,
        ),
{
    if reader.skip(n) {
        Ok(op)
    } else {
        Err(Error::TruncatedInstruction { offset: reader.position(), opcode: code })
    }
}

/// The failure to decode an opcode that is not defined.
fn undefined_opcode(reader: &CodeReader, code: u8) -> (r: Error)
    ensures
        r@ == undefined(code, reader@),
{
    let pos = reader.position();
    Error::UnsupportedOpcode {
        offset: if pos > 0 {
            pos - 1
        } else {
            0
        },
        opcode: code,
    }
}

/// The number that 32 bits stand for as a signed integer.
fn to_signed(v: u32) -> (r: i64)
    ensures
        r == signed(v),
{
    if v < 0x8000_0000 {
        v as i64
    } else {
        v as i64 - 0x1_0000_0000
    }
}

/// Decodes the operands of a table switch.
fn table_switch(reader: &mut CodeReader, code: u8) -> (r: Result<Opcode, Error>)
    ensures
        (final(reader)@, outcome(r)) == read_table_switch(code, old(reader)@),
{
    let _default = operand_u32(reader, code)?;
    let low = operand_u32(reader, code)?;
    let high = operand_u32(reader, code)?;
    let lowest = to_signed(low);
    let highest = to_signed(high);
    let entries: u64 = if highest >= lowest {
        (highest - lowest + 1) as u64
    } else {
        0
    };
    skip_operands(reader, code, Opcode::Tableswitch(low, high), 4 * entries)
}

/// Decodes the operands of a lookup switch.
fn lookup_switch(reader: &mut CodeReader, code: u8) -> (r: Result<Opcode, Error>)
    ensures
        (final(reader)@, outcome(r)) == read_lookup_switch(code, old(reader)@),
{
    let _default = operand_u32(reader, code)?;
    let npairs = operand_u32(reader, code)?;
    let announced = to_signed(npairs);
    let pairs: u64 = if announced >= 0 {
        announced as u64
    } else {
        0
    };
    skip_operands(reader, code, Opcode::Lookupswitch(npairs), 8 * pairs)
}

/// Decodes the operands of the wide prefix.
fn wide(reader: &mut CodeReader, code: u8) -> (r: Result<Opcode, Error>)
    ensures
        (final(reader)@, outcome(r)) == read_wide(code, old(reader)@),
{
    let op = operand_u8(reader, code)?;
    if op == 132 {
        let index = operand_u16(reader, code)?;
        let increment = operand_u16(reader, code)?;
        Ok(Opcode::Wide(op, index, increment))
    } else if (21 <= op && op <= 25) || (54 <= op && op <= 58) || op == 169 {
        let index = operand_u16(reader, code)?;
        Ok(Opcode::Wide(op, index, 0))
    } else {
        Err(undefined_opcode(reader, op))
    }
}

/// Decodes the instruction whose opcode `code` was just read from `reader`.
/// The reader is left behind the operands of the instruction, or, where the
/// input ends inside them, where it ends.
pub fn get_opcode(code: u8, reader: &mut CodeReader) -> (r: Result<Opcode, Error>)
    ensures
        (final(reader)@, outcome(r)) == decode(code, old(reader)@),
{
    match code {
        0 => Ok(Opcode::Nop),
        1 => Ok(Opcode::AconstNull),
        2 => Ok(Opcode::IconstM1),
        3 => Ok(Opcode::Iconst0),
        4 => Ok(Opcode::Iconst1),
        5 => Ok(Opcode::Iconst2),
        6 => Ok(Opcode::Iconst3),
        7 => Ok(Opcode::Iconst4),
        8 => Ok(Opcode::Iconst5),
        9 => Ok(Opcode::Lconst0),
        10 => Ok(Opcode::Lconst1),
        11 => Ok(Opcode::Fconst0),
        12 => Ok(Opcode::Fconst1),
        13 => Ok(Opcode::Fconst2),
        14 => Ok(Opcode::Dconst0),
        15 => Ok(Opcode::Dconst1),
        16 => Ok(Opcode::Bipush(operand_u8(reader, code)?)),
        17 => Ok(Opcode::Sipush(operand_u16(reader, code)?)),
        18 => Ok(Opcode::Ldc(operand_u8(reader, code)?)),
        19 => Ok(Opcode::LdcW(operand_u16(reader, code)?)),
        20 => Ok(Opcode::Ldc2W(operand_u16(reader, code)?)),
        21 => Ok(Opcode::Iload(operand_u8(reader, code)?)),
        22 => Ok(Opcode::Lload(operand_u8(reader, code)?)),
        23 => Ok(Opcode::Fload(operand_u8(reader, code)?)),
        24 => Ok(Opcode::Dload(operand_u8(reader, code)?)),
        25 => Ok(Opcode::Aload(operand_u8(reader, code)?)),
        26 => Ok(Opcode::Iload0),
        27 => Ok(Opcode::Iload1),
        28 => Ok(Opcode::Iload2),
        29 => Ok(Opcode::Iload3),
        30 => Ok(Opcode::Lload0),
        31 => Ok(Opcode::Lload1),
        32 => Ok(Opcode::Lload2),
        33 => Ok(Opcode::Lload3),
        34 => Ok(Opcode::Fload0),
        35 => Ok(Opcode::Fload1),
        36 => Ok(Opcode::Fload2),
        37 => Ok(Opcode::Fload3),
        38 => Ok(Opcode::Dload0),
        39 => Ok(Opcode::Dload1),
        40 => Ok(Opcode::Dload2),
        41 => Ok(Opcode::Dload3),
        42 => Ok(Opcode::Aload0),
        43 => Ok(Opcode::Aload1),
        44 => Ok(Opcode::Aload2),
        45 => Ok(Opcode::Aload3),
        46 => Ok(Opcode::Iaload),
        47 => Ok(Opcode::Laload),
        48 => Ok(Opcode::Faload),
        49 => Ok(Opcode::Daload),
        50 => Ok(Opcode::Aaload),
        51 => Ok(Opcode::Baload),
        52 => Ok(Opcode::Caload),
        53 => Ok(Opcode::Saload),
        54 => Ok(Opcode::Istore(operand_u8(reader, code)?)),
        55 => Ok(Opcode::Lstore(operand_u8(reader, code)?)),
        56 => Ok(Opcode::Fstore(operand_u8(reader, code)?)),
        57 => Ok(Opcode::Dstore(operand_u8(reader, code)?)),
        58 => Ok(Opcode::Astore(operand_u8(reader, code)?)),
        59 => Ok(Opcode::Istore0),
        60 => Ok(Opcode::Istore1),
        61 => Ok(Opcode::Istore2),
        62 => Ok(Opcode::Istore3),
        63 => Ok(Opcode::Lstore0),
        64 => Ok(Opcode::Lstore1),
        65 => Ok(Opcode::Lstore2),
        66 => Ok(Opcode::Lstore3),
        67 => Ok(Opcode::Fstore0),
        68 => Ok(Opcode::Fstore1),
        69 => Ok(Opcode::Fstore2),
        70 => Ok(Opcode::Fstore3),
        71 => Ok(Opcode::Dstore0),
        72 => Ok(Opcode::Dstore1),
        73 => Ok(Opcode::Dstore2),
        74 => Ok(Opcode::Dstore3),
        75 => Ok(Opcode::Astore0),
        76 => Ok(Opcode::Astore1),
        77 => Ok(Opcode::Astore2),
        78 => Ok(Opcode::Astore3),
        79 => Ok(Opcode::Iastore),
        80 => Ok(Opcode::Lastore),
        81 => Ok(Opcode::Fastore),
        82 => Ok(Opcode::Dastore),
        83 => Ok(Opcode::Aastore),
        84 => Ok(Opcode::Bastore),
        85 => Ok(Opcode::Castore),
        86 => Ok(Opcode::Sastore),
        87 => Ok(Opcode::Pop),
        88 => Ok(Opcode::Pop2),
        89 => Ok(Opcode::Dup),
        90 => Ok(Opcode::DupX1),
        91 => Ok(Opcode::DupX2),
        92 => Ok(Opcode::Dup2),
        93 => Ok(Opcode::Dup2X1),
        94 => Ok(Opcode::Dup2X2),
        95 => Ok(Opcode::Swap),
        96 => Ok(Opcode::Iadd),
        97 => Ok(Opcode::Ladd),
        98 => Ok(Opcode::Fadd),
        99 => Ok(Opcode::Dadd),
        100 => Ok(Opcode::Isub),
        101 => Ok(Opcode::Lsub),
        102 => Ok(Opcode::Fsub),
        103 => Ok(Opcode::Dsub),
        104 => Ok(Opcode::Imul),
        105 => Ok(Opcode::Lmul),
        106 => Ok(Opcode::Fmul),
        107 => Ok(Opcode::Dmul),
        108 => Ok(Opcode::Idiv),
        109 => Ok(Opcode::Ldiv),
        110 => Ok(Opcode::Fdiv),
        111 => Ok(Opcode::Ddiv),
        112 => Ok(Opcode::Irem),
        113 => Ok(Opcode::Lrem),
        114 => Ok(Opcode::Frem),
        115 => Ok(Opcode::Drem),
        116 => Ok(Opcode::Ineg),
        117 => Ok(Opcode::Lneg),
        118 => Ok(Opcode::Fneg),
        119 => Ok(Opcode::Dneg),
        120 => Ok(Opcode::Ishl),
        121 => Ok(Opcode::Lshl),
        122 => Ok(Opcode::Ishr),
        123 => Ok(Opcode::Lshr),
        124 => Ok(Opcode::Iushr),
        125 => Ok(Opcode::Lushr),
        126 => Ok(Opcode::Iand),
        127 => Ok(Opcode::Land),
        128 => Ok(Opcode::Ior),
        129 => Ok(Opcode::Lor),
        130 => Ok(Opcode::Ixor),
        131 => Ok(Opcode::Lxor),
        132 => Ok(Opcode::Iinc(operand_u16(reader, code)?)),
        133 => Ok(Opcode::I2l),
        134 => Ok(Opcode::I2f),
        135 => Ok(Opcode::I2d),
        136 => Ok(Opcode::L2i),
        137 => Ok(Opcode::L2f),
        138 => Ok(Opcode::L2d),
        139 => Ok(Opcode::F2i),
        140 => Ok(Opcode::F2l),
        141 => Ok(Opcode::F2d),
        142 => Ok(Opcode::D2i),
        143 => Ok(Opcode::D2l),
        144 => Ok(Opcode::D2f),
        145 => Ok(Opcode::I2b),
        146 => Ok(Opcode::I2c),
        147 => Ok(Opcode::I2s),
        148 => Ok(Opcode::Lcmp),
        149 => Ok(Opcode::Fcmpl),
        150 => Ok(Opcode::Fcmpg),
        151 => Ok(Opcode::Dcmpl),
        152 => Ok(Opcode::Dcmpg),
        153 => Ok(Opcode::Ifeq(operand_u16(reader, code)?)),
        154 => Ok(Opcode::Ifne(operand_u16(reader, code)?)),
        155 => Ok(Opcode::Iflt(operand_u16(reader, code)?)),
        156 => Ok(Opcode::Ifge(operand_u16(reader, code)?)),
        157 => Ok(Opcode::Ifgt(operand_u16(reader, code)?)),
        158 => Ok(Opcode::Ifle(operand_u16(reader, code)?)),
        159 => Ok(Opcode::IfIcmpeq(operand_u16(reader, code)?)),
        160 => Ok(Opcode::IfIcmpne(operand_u16(reader, code)?)),
        161 => Ok(Opcode::IfIcmplt(operand_u16(reader, code)?)),
        162 => Ok(Opcode::IfIcmpge(operand_u16(reader, code)?)),
        163 => Ok(Opcode::IfIcmpgt(operand_u16(reader, code)?)),
        164 => Ok(Opcode::IfIcmple(operand_u16(reader, code)?)),
        165 => Ok(Opcode::IfAcmpeq(operand_u16(reader, code)?)),
        166 => Ok(Opcode::IfAcmpne(operand_u16(reader, code)?)),
        167 => Ok(Opcode::Goto(operand_u16(reader, code)?)),
        168 => Ok(Opcode::Jsr(operand_u16(reader, code)?)),
        169 => Ok(Opcode::Ret(operand_u8(reader, code)?)),
        170 => table_switch(reader, code),
        171 => lookup_switch(reader, code),
        172 => Ok(Opcode::Ireturn),
        173 => Ok(Opcode::Lreturn),
        174 => Ok(Opcode::Freturn),
        175 => Ok(Opcode::Dreturn),
        176 => Ok(Opcode::Areturn),
        177 => Ok(Opcode::Return),
        178 => Ok(Opcode::Getstatic(operand_u16(reader, code)?)),
        179 => Ok(Opcode::Putstatic(operand_u16(reader, code)?)),
        180 => Ok(Opcode::Getfield(operand_u16(reader, code)?)),
        181 => Ok(Opcode::Putfield(operand_u16(reader, code)?)),
        182 => Ok(Opcode::Invokevirtual(operand_u16(reader, code)?)),
        183 => Ok(Opcode::Invokespecial(operand_u16(reader, code)?)),
        184 => Ok(Opcode::Invokestatic(operand_u16(reader, code)?)),
        185 => {
            let index = operand_u16(reader, code)?;
            let count = operand_u8(reader, code)?;
            skip_operands(reader, code, Opcode::Invokeinterface(index, count), 1)
        },
        186 => {
            let index = operand_u16(reader, code)?;
            skip_operands(reader, code, Opcode::Invokedynamic(index), 2)
        },
        187 => Ok(Opcode::New(operand_u16(reader, code)?)),
        188 => Ok(Opcode::Newarray(operand_u8(reader, code)?)),
        189 => Ok(Opcode::Anewarray(operand_u16(reader, code)?)),
        190 => Ok(Opcode::Arraylength),
        191 => Ok(Opcode::Athrow),
        192 => Ok(Opcode::Checkcast(operand_u16(reader, code)?)),
        193 => Ok(Opcode::Instanceof(operand_u16(reader, code)?)),
        194 => Ok(Opcode::Monitorenter),
        195 => Ok(Opcode::Monitorexit),
        196 => wide(reader, code),
        197 => Ok(Opcode::Multianewarray(operand_u16(reader, code)?, operand_u8(reader, code)?)),
        198 => Ok(Opcode::Ifnull(operand_u16(reader, code)?)),
        199 => Ok(Opcode::Ifnonnull(operand_u16(reader, code)?)),
        200 => Ok(Opcode::GotoW(operand_u32(reader, code)?)),
        201 => Ok(Opcode::JsrW(operand_u32(reader, code)?)),
        202 => Ok(Opcode::Breakpoint),
        254 => Ok(Opcode::Impdep1),
        255 => Ok(Opcode::Impdep2),
        _ => Err(undefined_opcode(reader, code)),
    }
}

impl Opcode {
    /// The opcode of the instruction.
    pub open spec fn value(self) -> u8 {
        match self {
            Opcode::Aaload => 50,
            Opcode::Aastore => 83,
            Opcode::AconstNull => 1,
            Opcode::Aload(_) => 25,
            Opcode::Aload0 => 42,
            Opcode::Aload1 => 43,
            Opcode::Aload2 => 44,
            Opcode::Aload3 => 45,
            Opcode::Anewarray(_) => 189,
            Opcode::Areturn => 176,
            Opcode::Arraylength => 190,
            Opcode::Astore(_) => 58,
            Opcode::Astore0 => 75,
            Opcode::Astore1 => 76,
            Opcode::Astore2 => 77,
            Opcode::Astore3 => 78,
            Opcode::Athrow => 191,
            Opcode::Baload => 51,
            Opcode::Bastore => 84,
            Opcode::Bipush(_) => 16,
            Opcode::Breakpoint => 202,
            Opcode::Caload => 52,
            Opcode::Castore => 85,
            Opcode::Checkcast(_) => 192,
            Opcode::D2f => 144,
            Opcode::D2i => 142,
            Opcode::D2l => 143,
            Opcode::Dadd => 99,
            Opcode::Daload => 49,
            Opcode::Dastore => 82,
            Opcode::Dcmpg => 152,
            Opcode::Dcmpl => 151,
            Opcode::Dconst0 => 14,
            Opcode::Dconst1 => 15,
            Opcode::Ddiv => 111,
            Opcode::Dload(_) => 24,
            Opcode::Dload0 => 38,
            Opcode::Dload1 => 39,
            Opcode::Dload2 => 40,
            Opcode::Dload3 => 41,
            Opcode::Dmul => 107,
            Opcode::Dneg => 119,
            Opcode::Drem => 115,
            Opcode::Dreturn => 175,
            Opcode::Dstore(_) => 57,
            Opcode::Dstore0 => 71,
            Opcode::Dstore1 => 72,
            Opcode::Dstore2 => 73,
            Opcode::Dstore3 => 74,
            Opcode::Dsub => 103,
            Opcode::Dup => 89,
            Opcode::DupX1 => 90,
            Opcode::DupX2 => 91,
            Opcode::Dup2 => 92,
            Opcode::Dup2X1 => 93,
            Opcode::Dup2X2 => 94,
            Opcode::F2d => 141,
            Opcode::F2i => 139,
            Opcode::F2l => 140,
            Opcode::Fadd => 98,
            Opcode::Faload => 48,
            Opcode::Fastore => 81,
            Opcode::Fcmpg => 150,
            Opcode::Fcmpl => 149,
            Opcode::Fconst0 => 11,
            Opcode::Fconst1 => 12,
            Opcode::Fconst2 => 13,
            Opcode::Fdiv => 110,
            Opcode::Fload(_) => 23,
            Opcode::Fload0 => 34,
            Opcode::Fload1 => 35,
            Opcode::Fload2 => 36,
            Opcode::Fload3 => 37,
            Opcode::Fmul => 106,
            Opcode::Fneg => 118,
            Opcode::Frem => 114,
            Opcode::Freturn => 174,
            Opcode::Fstore(_) => 56,
            Opcode::Fstore0 => 67,
            Opcode::Fstore1 => 68,
            Opcode::Fstore2 => 69,
            Opcode::Fstore3 => 70,
            Opcode::Fsub => 102,
            Opcode::Getfield(_) => 180,
            Opcode::Getstatic(_) => 178,
            Opcode::Goto(_) => 167,
            Opcode::GotoW(_) => 200,
            Opcode::I2b => 145,
            Opcode::I2c => 146,
            Opcode::I2d => 135,
            Opcode::I2f => 134,
            Opcode::I2l => 133,
            Opcode::I2s => 147,
            Opcode::Iadd => 96,
            Opcode::Iaload => 46,
            Opcode::Iand => 126,
            Opcode::Iastore => 79,
            Opcode::Iconst0 => 3,
            Opcode::Iconst1 => 4,
            Opcode::Iconst2 => 5,
            Opcode::Iconst3 => 6,
            Opcode::Iconst4 => 7,
            Opcode::Iconst5 => 8,
            Opcode::IconstM1 => 2,
            Opcode::Idiv => 108,
            Opcode::IfAcmpeq(_) => 165,
            Opcode::IfAcmpne(_) => 166,
            Opcode::IfIcmpeq(_) => 159,
            Opcode::IfIcmpge(_) => 162,
            Opcode::IfIcmpgt(_) => 163,
            Opcode::IfIcmple(_) => 164,
            Opcode::IfIcmplt(_) => 161,
            Opcode::IfIcmpne(_) => 160,
            Opcode::Ifeq(_) => 153,
            Opcode::Ifge(_) => 156,
            Opcode::Ifgt(_) => 157,
            Opcode::Ifle(_) => 158,
            Opcode::Iflt(_) => 155,
            Opcode::Ifne(_) => 154,
            Opcode::Ifnonnull(_) => 199,
            Opcode::Ifnull(_) => 198,
            Opcode::Iinc(_) => 132,
            Opcode::Iload(_) => 21,
            Opcode::Iload0 => 26,
            Opcode::Iload1 => 27,
            Opcode::Iload2 => 28,
            Opcode::Iload3 => 29,
            Opcode::Impdep1 => 254,
            Opcode::Impdep2 => 255,
            Opcode::Imul => 104,
            Opcode::Ineg => 116,
            Opcode::Instanceof(_) => 193,
            Opcode::Invokedynamic(_) => 186,
            Opcode::Invokeinterface(_, _) => 185,
            Opcode::Invokespecial(_) => 183,
            Opcode::Invokestatic(_) => 184,
            Opcode::Invokevirtual(_) => 182,
            Opcode::Ior => 128,
            Opcode::Irem => 112,
            Opcode::Ireturn => 172,
            Opcode::Ishl => 120,
            Opcode::Ishr => 122,
            Opcode::Istore(_) => 54,
            Opcode::Istore0 => 59,
            Opcode::Istore1 => 60,
            Opcode::Istore2 => 61,
            Opcode::Istore3 => 62,
            Opcode::Isub => 100,
            Opcode::Iushr => 124,
            Opcode::Ixor => 130,
            Opcode::Jsr(_) => 168,
            Opcode::JsrW(_) => 201,
            Opcode::L2d => 138,
            Opcode::L2f => 137,
            Opcode::L2i => 136,
            Opcode::Ladd => 97,
            Opcode::Laload => 47,
            Opcode::Land => 127,
            Opcode::Lastore => 80,
            Opcode::Lcmp => 148,
            Opcode::Lconst0 => 9,
            Opcode::Lconst1 => 10,
            Opcode::Ldc(_) => 18,
            Opcode::LdcW(_) => 19,
            Opcode::Ldc2W(_) => 20,
            Opcode::Ldiv => 109,
            Opcode::Lload(_) => 22,
            Opcode::Lload0 => 30,
            Opcode::Lload1 => 31,
            Opcode::Lload2 => 32,
            Opcode::Lload3 => 33,
            Opcode::Lmul => 105,
            Opcode::Lneg => 117,
            Opcode::Lookupswitch(_) => 171,
            Opcode::Lor => 129,
            Opcode::Lrem => 113,
            Opcode::Lreturn => 173,
            Opcode::Lshl => 121,
            Opcode::Lshr => 123,
            Opcode::Lstore(_) => 55,
            Opcode::Lstore0 => 63,
            Opcode::Lstore1 => 64,
            Opcode::Lstore2 => 65,
            Opcode::Lstore3 => 66,
            Opcode::Lsub => 101,
            Opcode::Lushr => 125,
            Opcode::Lxor => 131,
            Opcode::Monitorenter => 194,
            Opcode::Monitorexit => 195,
            Opcode::Multianewarray(_, _) => 197,
            Opcode::New(_) => 187,
            Opcode::Newarray(_) => 188,
            Opcode::Nop => 0,
            Opcode::Pop => 87,
            Opcode::Pop2 => 88,
            Opcode::Putfield(_) => 181,
            Opcode::Putstatic(_) => 179,
            Opcode::Ret(_) => 169,
            Opcode::Return => 177,
            Opcode::Saload => 53,
            Opcode::Sastore => 86,
            Opcode::Sipush(_) => 17,
            Opcode::Swap => 95,
            Opcode::Tableswitch(_, _) => 170,
            Opcode::Wide(_, _, _) => 196,
        }
    }

    /// The name of the instruction.
    pub open spec fn mnemonic(self) -> Seq<char> {
        match self {
            Opcode::Aaload => "aaload"@,
            Opcode::Aastore => "aastore"@,
            Opcode::AconstNull => "aconst_null"@,
            Opcode::Aload(_) => "aload"@,
            Opcode::Aload0 => "aload_0"@,
            Opcode::Aload1 => "aload_1"@,
            Opcode::Aload2 => "aload_2"@,
            Opcode::Aload3 => "aload_3"@,
            Opcode::Anewarray(_) => "anewarray"@,
            Opcode::Areturn => "areturn"@,
            Opcode::Arraylength => "arraylength"@,
            Opcode::Astore(_) => "astore"@,
            Opcode::Astore0 => "astore_0"@,
            Opcode::Astore1 => "astore_1"@,
            Opcode::Astore2 => "astore_2"@,
            Opcode::Astore3 => "astore_3"@,
            Opcode::Athrow => "athrow"@,
            Opcode::Baload => "baload"@,
            Opcode::Bastore => "bastore"@,
            Opcode::Bipush(_) => "bipush"@,
            Opcode::Breakpoint => "breakpoint"@,
            Opcode::Caload => "caload"@,
            Opcode::Castore => "castore"@,
            Opcode::Checkcast(_) => "checkcast"@,
            Opcode::D2f => "d2f"@,
            Opcode::D2i => "d2i"@,
            Opcode::D2l => "d2l"@,
            Opcode::Dadd => "dadd"@,
            Opcode::Daload => "daload"@,
            Opcode::Dastore => "dastore"@,
            Opcode::Dcmpg => "dcmpg"@,
            Opcode::Dcmpl => "dcmpl"@,
            Opcode::Dconst0 => "dconst_0"@,
            Opcode::Dconst1 => "dconst_1"@,
            Opcode::Ddiv => "ddiv"@,
            Opcode::Dload(_) => "dload"@,
            Opcode::Dload0 => "dload_0"@,
            Opcode::Dload1 => "dload_1"@,
            Opcode::Dload2 => "dload_2"@,
            Opcode::Dload3 => "dload_3"@,
            Opcode::Dmul => "dmul"@,
            Opcode::Dneg => "dneg"@,
            Opcode::Drem => "drem"@,
            Opcode::Dreturn => "dreturn"@,
            Opcode::Dstore(_) => "dstore"@,
            Opcode::Dstore0 => "dstore_0"@,
            Opcode::Dstore1 => "dstore_1"@,
            Opcode::Dstore2 => "dstore_2"@,
            Opcode::Dstore3 => "dstore_3"@,
            Opcode::Dsub => "dsub"@,
            Opcode::Dup => "dup"@,
            Opcode::DupX1 => "dup_x1"@,
            Opcode::DupX2 => "dup_x2"@,
            Opcode::Dup2 => "dup2"@,
            Opcode::Dup2X1 => "dup2_x1"@,
            Opcode::Dup2X2 => "dup2_x2"@,
            Opcode::F2d => "f2d"@,
            Opcode::F2i => "f2i"@,
            Opcode::F2l => "f2l"@,
            Opcode::Fadd => "fadd"@,
            Opcode::Faload => "faload"@,
            Opcode::Fastore => "fastore"@,
            Opcode::Fcmpg => "fcmpg"@,
            Opcode::Fcmpl => "fcmpl"@,
            Opcode::Fconst0 => "fconst_0"@,
            Opcode::Fconst1 => "fconst_1"@,
            Opcode::Fconst2 => "fconst_2"@,
            Opcode::Fdiv => "fdiv"@,
            Opcode::Fload(_) => "fload"@,
            Opcode::Fload0 => "fload_0"@,
            Opcode::Fload1 => "fload_1"@,
            Opcode::Fload2 => "fload_2"@,
            Opcode::Fload3 => "fload_3"@,
            Opcode::Fmul => "fmul"@,
            Opcode::Fneg => "fneg"@,
            Opcode::Frem => "frem"@,
            Opcode::Freturn => "freturn"@,
            Opcode::Fstore(_) => "fstore"@,
            Opcode::Fstore0 => "fstore_0"@,
            Opcode::Fstore1 => "fstore_1"@,
            Opcode::Fstore2 => "fstore_2"@,
            Opcode::Fstore3 => "fstore_3"@,
            Opcode::Fsub => "fsub"@,
            Opcode::Getfield(_) => "getfield"@,
            Opcode::Getstatic(_) => "getstatic"@,
            Opcode::Goto(_) => "goto"@,
            Opcode::GotoW(_) => "goto_w"@,
            Opcode::I2b => "i2b"@,
            Opcode::I2c => "i2c"@,
            Opcode::I2d => "i2d"@,
            Opcode::I2f => "i2f"@,
            Opcode::I2l => "i2l"@,
            Opcode::I2s => "i2s"@,
            Opcode::Iadd => "iadd"@,
            Opcode::Iaload => "iaload"@,
            Opcode::Iand => "iand"@,
            Opcode::Iastore => "iastore"@,
            Opcode::Iconst0 => "iconst_0"@,
            Opcode::Iconst1 => "iconst_1"@,
            Opcode::Iconst2 => "iconst_2"@,
            Opcode::Iconst3 => "iconst_3"@,
            Opcode::Iconst4 => "iconst_4"@,
            Opcode::Iconst5 => "iconst_5"@,
            Opcode::IconstM1 => "iconst_m1"@,
            Opcode::Idiv => "idiv"@,
            Opcode::IfAcmpeq(_) => "if_acmpeq"@,
            Opcode::IfAcmpne(_) => "if_acmpne"@,
            Opcode::IfIcmpeq(_) => "if_icmpeq"@,
            Opcode::IfIcmpge(_) => "if_icmpge"@,
            Opcode::IfIcmpgt(_) => "if_icmpgt"@,
            Opcode::IfIcmple(_) => "if_icmple"@,
            Opcode::IfIcmplt(_) => "if_icmplt"@,
            Opcode::IfIcmpne(_) => "if_icmpne"@,
            Opcode::Ifeq(_) => "ifeq"@,
            Opcode::Ifge(_) => "ifge"@,
            Opcode::Ifgt(_) => "ifgt"@,
            Opcode::Ifle(_) => "ifle"@,
            Opcode::Iflt(_) => "iflt"@,
            Opcode::Ifne(_) => "ifne"@,
            Opcode::Ifnonnull(_) => "ifnonnull"@,
            Opcode::Ifnull(_) => "ifnull"@,
            Opcode::Iinc(_) => "iinc"@,
            Opcode::Iload(_) => "iload"@,
            Opcode::Iload0 => "iload_0"@,
            Opcode::Iload1 => "iload_1"@,
            Opcode::Iload2 => "iload_2"@,
            Opcode::Iload3 => "iload_3"@,
            Opcode::Impdep1 => "impdep1"@,
            Opcode::Impdep2 => "impdep2"@,
            Opcode::Imul => "imul"@,
            Opcode::Ineg => "ineg"@,
            Opcode::Instanceof(_) => "instanceof"@,
            Opcode::Invokedynamic(_) => "invokedynamic"@,
            Opcode::Invokeinterface(_, _) => "invokeinterface"@,
            Opcode::Invokespecial(_) => "invokespecial"@,
            Opcode::Invokestatic(_) => "invokestatic"@,
            Opcode::Invokevirtual(_) => "invokevirtual"@,
            Opcode::Ior => "ior"@,
            Opcode::Irem => "irem"@,
            Opcode::Ireturn => "ireturn"@,
            Opcode::Ishl => "ishl"@,
            Opcode::Ishr => "ishr"@,
            Opcode::Istore(_) => "istore"@,
            Opcode::Istore0 => "istore_0"@,
            Opcode::Istore1 => "istore_1"@,
            Opcode::Istore2 => "istore_2"@,
            Opcode::Istore3 => "istore_3"@,
            Opcode::Isub => "isub"@,
            Opcode::Iushr => "iushr"@,
            Opcode::Ixor => "ixor"@,
            Opcode::Jsr(_) => "jsr"@,
            Opcode::JsrW(_) => "jsr_w"@,
            Opcode::L2d => "l2d"@,
            Opcode::L2f => "l2f"@,
            Opcode::L2i => "l2i"@,
            Opcode::Ladd => "ladd"@,
            Opcode::Laload => "laload"@,
            Opcode::Land => "land"@,
            Opcode::Lastore => "lastore"@,
            Opcode::Lcmp => "lcmp"@,
            Opcode::Lconst0 => "lconst_0"@,
            Opcode::Lconst1 => "lconst_1"@,
            Opcode::Ldc(_) => "ldc"@,
            Opcode::LdcW(_) => "ldc_w"@,
            Opcode::Ldc2W(_) => "ldc2_w"@,
            Opcode::Ldiv => "ldiv"@,
            Opcode::Lload(_) => "lload"@,
            Opcode::Lload0 => "lload_0"@,
            Opcode::Lload1 => "lload_1"@,
            Opcode::Lload2 => "lload_2"@,
            Opcode::Lload3 => "lload_3"@,
            Opcode::Lmul => "lmul"@,
            Opcode::Lneg => "lneg"@,
            Opcode::Lookupswitch(_) => "lookupswitch"@,
            Opcode::Lor => "lor"@,
            Opcode::Lrem => "lrem"@,
            Opcode::Lreturn => "lreturn"@,
            Opcode::Lshl => "lshl"@,
            Opcode::Lshr => "lshr"@,
            Opcode::Lstore(_) => "lstore"@,
            Opcode::Lstore0 => "lstore_0"@,
            Opcode::Lstore1 => "lstore_1"@,
            Opcode::Lstore2 => "lstore_2"@,
            Opcode::Lstore3 => "lstore_3"@,
            Opcode::Lsub => "lsub"@,
            Opcode::Lushr => "lushr"@,
            Opcode::Lxor => "lxor"@,
            Opcode::Monitorenter => "monitorenter"@,
            Opcode::Monitorexit => "monitorexit"@,
            Opcode::Multianewarray(_, _) => "multianewarray"@,
            Opcode::New(_) => "new"@,
            Opcode::Newarray(_) => "newarray"@,
            Opcode::Nop => "nop"@,
            Opcode::Pop => "pop"@,
            Opcode::Pop2 => "pop2"@,
            Opcode::Putfield(_) => "putfield"@,
            Opcode::Putstatic(_) => "putstatic"@,
            Opcode::Ret(_) => "ret"@,
            Opcode::Return => "return"@,
            Opcode::Saload => "saload"@,
            Opcode::Sastore => "sastore"@,
            Opcode::Sipush(_) => "sipush"@,
            Opcode::Swap => "swap"@,
            Opcode::Tableswitch(_, _) => "tableswitch"@,
            Opcode::Wide(_, _, _) => "wide"@,
        }
    }

    /// The operands of the instruction as text: each in decimal, with a
    /// space in front.  The two keys of a table switch stand with nothing
    /// between them.
    pub open spec fn operands_text(self) -> Seq<char> {
        match self {
            Opcode::Aload(v)
            | Opcode::Astore(v)
            | Opcode::Bipush(v)
            | Opcode::Dload(v)
            | Opcode::Dstore(v)
            | Opcode::Fload(v)
            | Opcode::Fstore(v)
            | Opcode::Iload(v)
            | Opcode::Istore(v)
            | Opcode::Ldc(v)
            | Opcode::Lload(v)
            | Opcode::Lstore(v)
            | Opcode::Newarray(v)
            | Opcode::Ret(v) => seq![' '] + decimal_u8(v),
            Opcode::Anewarray(v)
            | Opcode::Checkcast(v)
            | Opcode::Getfield(v)
            | Opcode::Getstatic(v)
            | Opcode::Goto(v)
            | Opcode::IfAcmpeq(v)
            | Opcode::IfAcmpne(v)
            | Opcode::IfIcmpeq(v)
            | Opcode::IfIcmpge(v)
            | Opcode::IfIcmpgt(v)
            | Opcode::IfIcmple(v)
            | Opcode::IfIcmplt(v)
            | Opcode::IfIcmpne(v)
            | Opcode::Ifeq(v)
            | Opcode::Ifge(v)
            | Opcode::Ifgt(v)
            | Opcode::Ifle(v)
            | Opcode::Iflt(v)
            | Opcode::Ifne(v)
            | Opcode::Ifnonnull(v)
            | Opcode::Ifnull(v)
            | Opcode::Iinc(v)
            | Opcode::Instanceof(v)
            | Opcode::Invokedynamic(v)
            | Opcode::Invokespecial(v)
            | Opcode::Invokestatic(v)
            | Opcode::Invokevirtual(v)
            | Opcode::Jsr(v)
            | Opcode::LdcW(v)
            | Opcode::Ldc2W(v)
            | Opcode::New(v)
            | Opcode::Putfield(v)
            | Opcode::Putstatic(v)
            | Opcode::Sipush(v) => seq![' '] + decimal_u16(v),
            Opcode::GotoW(v)
            | Opcode::JsrW(v)
            | Opcode::Lookupswitch(v) => seq![' '] + decimal_u32(v),
            Opcode::Invokeinterface(a, b)
            | Opcode::Multianewarray(a, b) => seq![' '] + decimal_u16(a) + seq![' '] + decimal_u8(b),
            Opcode::Tableswitch(low, high) => seq![' '] + decimal_u32(low) + decimal_u32(high),
            Opcode::Wide(op, index, increment) => seq![' '] + decimal_u8(op) + seq![' ']
                + decimal_u16(index) + seq![' '] + decimal_u16(increment),
            _ => Seq::empty(),
        }
    }

    /// The instruction as a listing shows it: its name, and its operands.
    pub open spec fn text(self) -> Seq<char> {
        self.mnemonic() + self.operands_text()
    }

    /// The opcode of the instruction.
    pub fn to_u8(&self) -> (r: u8)
        ensures
            r == self.value(),
    {
        match self {
            Opcode::Aaload => 50,
            Opcode::Aastore => 83,
            Opcode::AconstNull => 1,
            Opcode::Aload(_) => 25,
            Opcode::Aload0 => 42,
            Opcode::Aload1 => 43,
            Opcode::Aload2 => 44,
            Opcode::Aload3 => 45,
            Opcode::Anewarray(_) => 189,
            Opcode::Areturn => 176,
            Opcode::Arraylength => 190,
            Opcode::Astore(_) => 58,
            Opcode::Astore0 => 75,
            Opcode::Astore1 => 76,
            Opcode::Astore2 => 77,
            Opcode::Astore3 => 78,
            Opcode::Athrow => 191,
            Opcode::Baload => 51,
            Opcode::Bastore => 84,
            Opcode::Bipush(_) => 16,
            Opcode::Breakpoint => 202,
            Opcode::Caload => 52,
            Opcode::Castore => 85,
            Opcode::Checkcast(_) => 192,
            Opcode::D2f => 144,
            Opcode::D2i => 142,
            Opcode::D2l => 143,
            Opcode::Dadd => 99,
            Opcode::Daload => 49,
            Opcode::Dastore => 82,
            Opcode::Dcmpg => 152,
            Opcode::Dcmpl => 151,
            Opcode::Dconst0 => 14,
            Opcode::Dconst1 => 15,
            Opcode::Ddiv => 111,
            Opcode::Dload(_) => 24,
            Opcode::Dload0 => 38,
            Opcode::Dload1 => 39,
            Opcode::Dload2 => 40,
            Opcode::Dload3 => 41,
            Opcode::Dmul => 107,
            Opcode::Dneg => 119,
            Opcode::Drem => 115,
            Opcode::Dreturn => 175,
            Opcode::Dstore(_) => 57,
            Opcode::Dstore0 => 71,
            Opcode::Dstore1 => 72,
            Opcode::Dstore2 => 73,
            Opcode::Dstore3 => 74,
            Opcode::Dsub => 103,
            Opcode::Dup => 89,
            Opcode::DupX1 => 90,
            Opcode::DupX2 => 91,
            Opcode::Dup2 => 92,
            Opcode::Dup2X1 => 93,
            Opcode::Dup2X2 => 94,
            Opcode::F2d => 141,
            Opcode::F2i => 139,
            Opcode::F2l => 140,
            Opcode::Fadd => 98,
            Opcode::Faload => 48,
            Opcode::Fastore => 81,
            Opcode::Fcmpg => 150,
            Opcode::Fcmpl => 149,
            Opcode::Fconst0 => 11,
            Opcode::Fconst1 => 12,
            Opcode::Fconst2 => 13,
            Opcode::Fdiv => 110,
            Opcode::Fload(_) => 23,
            Opcode::Fload0 => 34,
            Opcode::Fload1 => 35,
            Opcode::Fload2 => 36,
            Opcode::Fload3 => 37,
            Opcode::Fmul => 106,
            Opcode::Fneg => 118,
            Opcode::Frem => 114,
            Opcode::Freturn => 174,
            Opcode::Fstore(_) => 56,
            Opcode::Fstore0 => 67,
            Opcode::Fstore1 => 68,
            Opcode::Fstore2 => 69,
            Opcode::Fstore3 => 70,
            Opcode::Fsub => 102,
            Opcode::Getfield(_) => 180,
            Opcode::Getstatic(_) => 178,
            Opcode::Goto(_) => 167,
            Opcode::GotoW(_) => 200,
            Opcode::I2b => 145,
            Opcode::I2c => 146,
            Opcode::I2d => 135,
            Opcode::I2f => 134,
            Opcode::I2l => 133,
            Opcode::I2s => 147,
            Opcode::Iadd => 96,
            Opcode::Iaload => 46,
            Opcode::Iand => 126,
            Opcode::Iastore => 79,
            Opcode::Iconst0 => 3,
            Opcode::Iconst1 => 4,
            Opcode::Iconst2 => 5,
            Opcode::Iconst3 => 6,
            Opcode::Iconst4 => 7,
            Opcode::Iconst5 => 8,
            Opcode::IconstM1 => 2,
            Opcode::Idiv => 108,
            Opcode::IfAcmpeq(_) => 165,
            Opcode::IfAcmpne(_) => 166,
            Opcode::IfIcmpeq(_) => 159,
            Opcode::IfIcmpge(_) => 162,
            Opcode::IfIcmpgt(_) => 163,
            Opcode::IfIcmple(_) => 164,
            Opcode::IfIcmplt(_) => 161,
            Opcode::IfIcmpne(_) => 160,
            Opcode::Ifeq(_) => 153,
            Opcode::Ifge(_) => 156,
            Opcode::Ifgt(_) => 157,
            Opcode::Ifle(_) => 158,
            Opcode::Iflt(_) => 155,
            Opcode::Ifne(_) => 154,
            Opcode::Ifnonnull(_) => 199,
            Opcode::Ifnull(_) => 198,
            Opcode::Iinc(_) => 132,
            Opcode::Iload(_) => 21,
            Opcode::Iload0 => 26,
            Opcode::Iload1 => 27,
            Opcode::Iload2 => 28,
            Opcode::Iload3 => 29,
            Opcode::Impdep1 => 254,
            Opcode::Impdep2 => 255,
            Opcode::Imul => 104,
            Opcode::Ineg => 116,
            Opcode::Instanceof(_) => 193,
            Opcode::Invokedynamic(_) => 186,
            Opcode::Invokeinterface(_, _) => 185,
            Opcode::Invokespecial(_) => 183,
            Opcode::Invokestatic(_) => 184,
            Opcode::Invokevirtual(_) => 182,
            Opcode::Ior => 128,
            Opcode::Irem => 112,
            Opcode::Ireturn => 172,
            Opcode::Ishl => 120,
            Opcode::Ishr => 122,
            Opcode::Istore(_) => 54,
            Opcode::Istore0 => 59,
            Opcode::Istore1 => 60,
            Opcode::Istore2 => 61,
            Opcode::Istore3 => 62,
            Opcode::Isub => 100,
            Opcode::Iushr => 124,
            Opcode::Ixor => 130,
            Opcode::Jsr(_) => 168,
            Opcode::JsrW(_) => 201,
            Opcode::L2d => 138,
            Opcode::L2f => 137,
            Opcode::L2i => 136,
            Opcode::Ladd => 97,
            Opcode::Laload => 47,
            Opcode::Land => 127,
            Opcode::Lastore => 80,
            Opcode::Lcmp => 148,
            Opcode::Lconst0 => 9,
            Opcode::Lconst1 => 10,
            Opcode::Ldc(_) => 18,
            Opcode::LdcW(_) => 19,
            Opcode::Ldc2W(_) => 20,
            Opcode::Ldiv => 109,
            Opcode::Lload(_) => 22,
            Opcode::Lload0 => 30,
            Opcode::Lload1 => 31,
            Opcode::Lload2 => 32,
            Opcode::Lload3 => 33,
            Opcode::Lmul => 105,
            Opcode::Lneg => 117,
            Opcode::Lookupswitch(_) => 171,
            Opcode::Lor => 129,
            Opcode::Lrem => 113,
            Opcode::Lreturn => 173,
            Opcode::Lshl => 121,
            Opcode::Lshr => 123,
            Opcode::Lstore(_) => 55,
            Opcode::Lstore0 => 63,
            Opcode::Lstore1 => 64,
            Opcode::Lstore2 => 65,
            Opcode::Lstore3 => 66,
            Opcode::Lsub => 101,
            Opcode::Lushr => 125,
            Opcode::Lxor => 131,
            Opcode::Monitorenter => 194,
            Opcode::Monitorexit => 195,
            Opcode::Multianewarray(_, _) => 197,
            Opcode::New(_) => 187,
            Opcode::Newarray(_) => 188,
            Opcode::Nop => 0,
            Opcode::Pop => 87,
            Opcode::Pop2 => 88,
            Opcode::Putfield(_) => 181,
            Opcode::Putstatic(_) => 179,
            Opcode::Ret(_) => 169,
            Opcode::Return => 177,
            Opcode::Saload => 53,
            Opcode::Sastore => 86,
            Opcode::Sipush(_) => 17,
            Opcode::Swap => 95,
            Opcode::Tableswitch(_, _) => 170,
            Opcode::Wide(_, _, _) => 196,
        }
    }

    /// The name of the instruction.
    pub fn name(&self) -> (r: &'static str)
        ensures
            r@ == self.mnemonic(),
    {
        match self {
            Opcode::Aaload => "aaload",
            Opcode::Aastore => "aastore",
            Opcode::AconstNull => "aconst_null",
            Opcode::Aload(_) => "aload",
            Opcode::Aload0 => "aload_0",
            Opcode::Aload1 => "aload_1",
            Opcode::Aload2 => "aload_2",
            Opcode::Aload3 => "aload_3",
            Opcode::Anewarray(_) => "anewarray",
            Opcode::Areturn => "areturn",
            Opcode::Arraylength => "arraylength",
            Opcode::Astore(_) => "astore",
            Opcode::Astore0 => "astore_0",
            Opcode::Astore1 => "astore_1",
            Opcode::Astore2 => "astore_2",
            Opcode::Astore3 => "astore_3",
            Opcode::Athrow => "athrow",
            Opcode::Baload => "baload",
            Opcode::Bastore => "bastore",
            Opcode::Bipush(_) => "bipush",
            Opcode::Breakpoint => "breakpoint",
            Opcode::Caload => "caload",
            Opcode::Castore => "castore",
            Opcode::Checkcast(_) => "checkcast",
            Opcode::D2f => "d2f",
            Opcode::D2i => "d2i",
            Opcode::D2l => "d2l",
            Opcode::Dadd => "dadd",
            Opcode::Daload => "daload",
            Opcode::Dastore => "dastore",
            Opcode::Dcmpg => "dcmpg",
            Opcode::Dcmpl => "dcmpl",
            Opcode::Dconst0 => "dconst_0",
            Opcode::Dconst1 => "dconst_1",
            Opcode::Ddiv => "ddiv",
            Opcode::Dload(_) => "dload",
            Opcode::Dload0 => "dload_0",
            Opcode::Dload1 => "dload_1",
            Opcode::Dload2 => "dload_2",
            Opcode::Dload3 => "dload_3",
            Opcode::Dmul => "dmul",
            Opcode::Dneg => "dneg",
            Opcode::Drem => "drem",
            Opcode::Dreturn => "dreturn",
            Opcode::Dstore(_) => "dstore",
            Opcode::Dstore0 => "dstore_0",
            Opcode::Dstore1 => "dstore_1",
            Opcode::Dstore2 => "dstore_2",
            Opcode::Dstore3 => "dstore_3",
            Opcode::Dsub => "dsub",
            Opcode::Dup => "dup",
            Opcode::DupX1 => "dup_x1",
            Opcode::DupX2 => "dup_x2",
            Opcode::Dup2 => "dup2",
            Opcode::Dup2X1 => "dup2_x1",
            Opcode::Dup2X2 => "dup2_x2",
            Opcode::F2d => "f2d",
            Opcode::F2i => "f2i",
            Opcode::F2l => "f2l",
            Opcode::Fadd => "fadd",
            Opcode::Faload => "faload",
            Opcode::Fastore => "fastore",
            Opcode::Fcmpg => "fcmpg",
            Opcode::Fcmpl => "fcmpl",
            Opcode::Fconst0 => "fconst_0",
            Opcode::Fconst1 => "fconst_1",
            Opcode::Fconst2 => "fconst_2",
            Opcode::Fdiv => "fdiv",
            Opcode::Fload(_) => "fload",
            Opcode::Fload0 => "fload_0",
            Opcode::Fload1 => "fload_1",
            Opcode::Fload2 => "fload_2",
            Opcode::Fload3 => "fload_3",
            Opcode::Fmul => "fmul",
            Opcode::Fneg => "fneg",
            Opcode::Frem => "frem",
            Opcode::Freturn => "freturn",
            Opcode::Fstore(_) => "fstore",
            Opcode::Fstore0 => "fstore_0",
            Opcode::Fstore1 => "fstore_1",
            Opcode::Fstore2 => "fstore_2",
            Opcode::Fstore3 => "fstore_3",
            Opcode::Fsub => "fsub",
            Opcode::Getfield(_) => "getfield",
            Opcode::Getstatic(_) => "getstatic",
            Opcode::Goto(_) => "goto",
            Opcode::GotoW(_) => "goto_w",
            Opcode::I2b => "i2b",
            Opcode::I2c => "i2c",
            Opcode::I2d => "i2d",
            Opcode::I2f => "i2f",
            Opcode::I2l => "i2l",
            Opcode::I2s => "i2s",
            Opcode::Iadd => "iadd",
            Opcode::Iaload => "iaload",
            Opcode::Iand => "iand",
            Opcode::Iastore => "iastore",
            Opcode::Iconst0 => "iconst_0",
            Opcode::Iconst1 => "iconst_1",
            Opcode::Iconst2 => "iconst_2",
            Opcode::Iconst3 => "iconst_3",
            Opcode::Iconst4 => "iconst_4",
            Opcode::Iconst5 => "iconst_5",
            Opcode::IconstM1 => "iconst_m1",
            Opcode::Idiv => "idiv",
            Opcode::IfAcmpeq(_) => "if_acmpeq",
            Opcode::IfAcmpne(_) => "if_acmpne",
            Opcode::IfIcmpeq(_) => "if_icmpeq",
            Opcode::IfIcmpge(_) => "if_icmpge",
            Opcode::IfIcmpgt(_) => "if_icmpgt",
            Opcode::IfIcmple(_) => "if_icmple",
            Opcode::IfIcmplt(_) => "if_icmplt",
            Opcode::IfIcmpne(_) => "if_icmpne",
            Opcode::Ifeq(_) => "ifeq",
            Opcode::Ifge(_) => "ifge",
            Opcode::Ifgt(_) => "ifgt",
            Opcode::Ifle(_) => "ifle",
            Opcode::Iflt(_) => "iflt",
            Opcode::Ifne(_) => "ifne",
            Opcode::Ifnonnull(_) => "ifnonnull",
            Opcode::Ifnull(_) => "ifnull",
            Opcode::Iinc(_) => "iinc",
            Opcode::Iload(_) => "iload",
            Opcode::Iload0 => "iload_0",
            Opcode::Iload1 => "iload_1",
            Opcode::Iload2 => "iload_2",
            Opcode::Iload3 => "iload_3",
            Opcode::Impdep1 => "impdep1",
            Opcode::Impdep2 => "impdep2",
            Opcode::Imul => "imul",
            Opcode::Ineg => "ineg",
            Opcode::Instanceof(_) => "instanceof",
            Opcode::Invokedynamic(_) => "invokedynamic",
            Opcode::Invokeinterface(_, _) => "invokeinterface",
            Opcode::Invokespecial(_) => "invokespecial",
            Opcode::Invokestatic(_) => "invokestatic",
            Opcode::Invokevirtual(_) => "invokevirtual",
            Opcode::Ior => "ior",
            Opcode::Irem => "irem",
            Opcode::Ireturn => "ireturn",
            Opcode::Ishl => "ishl",
            Opcode::Ishr => "ishr",
            Opcode::Istore(_) => "istore",
            Opcode::Istore0 => "istore_0",
            Opcode::Istore1 => "istore_1",
            Opcode::Istore2 => "istore_2",
            Opcode::Istore3 => "istore_3",
            Opcode::Isub => "isub",
            Opcode::Iushr => "iushr",
            Opcode::Ixor => "ixor",
            Opcode::Jsr(_) => "jsr",
            Opcode::JsrW(_) => "jsr_w",
            Opcode::L2d => "l2d",
            Opcode::L2f => "l2f",
            Opcode::L2i => "l2i",
            Opcode::Ladd => "ladd",
            Opcode::Laload => "laload",
            Opcode::Land => "land",
            Opcode::Lastore => "lastore",
            Opcode::Lcmp => "lcmp",
            Opcode::Lconst0 => "lconst_0",
            Opcode::Lconst1 => "lconst_1",
            Opcode::Ldc(_) => "ldc",
            Opcode::LdcW(_) => "ldc_w",
            Opcode::Ldc2W(_) => "ldc2_w",
            Opcode::Ldiv => "ldiv",
            Opcode::Lload(_) => "lload",
            Opcode::Lload0 => "lload_0",
            Opcode::Lload1 => "lload_1",
            Opcode::Lload2 => "lload_2",
            Opcode::Lload3 => "lload_3",
            Opcode::Lmul => "lmul",
            Opcode::Lneg => "lneg",
            Opcode::Lookupswitch(_) => "lookupswitch",
            Opcode::Lor => "lor",
            Opcode::Lrem => "lrem",
            Opcode::Lreturn => "lreturn",
            Opcode::Lshl => "lshl",
            Opcode::Lshr => "lshr",
            Opcode::Lstore(_) => "lstore",
            Opcode::Lstore0 => "lstore_0",
            Opcode::Lstore1 => "lstore_1",
            Opcode::Lstore2 => "lstore_2",
            Opcode::Lstore3 => "lstore_3",
            Opcode::Lsub => "lsub",
            Opcode::Lushr => "lushr",
            Opcode::Lxor => "lxor",
            Opcode::Monitorenter => "monitorenter",
            Opcode::Monitorexit => "monitorexit",
            Opcode::Multianewarray(_, _) => "multianewarray",
            Opcode::New(_) => "new",
            Opcode::Newarray(_) => "newarray",
            Opcode::Nop => "nop",
            Opcode::Pop => "pop",
            Opcode::Pop2 => "pop2",
            Opcode::Putfield(_) => "putfield",
            Opcode::Putstatic(_) => "putstatic",
            Opcode::Ret(_) => "ret",
            Opcode::Return => "return",
            Opcode::Saload => "saload",
            Opcode::Sastore => "sastore",
            Opcode::Sipush(_) => "sipush",
            Opcode::Swap => "swap",
            Opcode::Tableswitch(_, _) => "tableswitch",
            Opcode::Wide(_, _, _) => "wide",
        }
    }

    /// Renders the instruction as a listing shows it.
    pub fn to_string(&self) -> (r: String)
        ensures
            r@ == self.text(),
    {
        proof {
            reveal_strlit(" ");
        }
        let mut s = String::from_str(self.name());
        match *self {
            Opcode::Aload(v)
            | Opcode::Astore(v)
            | Opcode::Bipush(v)
            | Opcode::Dload(v)
            | Opcode::Dstore(v)
            | Opcode::Fload(v)
            | Opcode::Fstore(v)
            | Opcode::Iload(v)
            | Opcode::Istore(v)
            | Opcode::Ldc(v)
            | Opcode::Lload(v)
            | Opcode::Lstore(v)
            | Opcode::Newarray(v)
            | Opcode::Ret(v) => {
                s.append(" ");
                s.append(u8_to_decimal(v).as_str());
                assert(s@ =~= self.text());
            },
            Opcode::Anewarray(v)
            | Opcode::Checkcast(v)
            | Opcode::Getfield(v)
            | Opcode::Getstatic(v)
            | Opcode::Goto(v)
            | Opcode::IfAcmpeq(v)
            | Opcode::IfAcmpne(v)
            | Opcode::IfIcmpeq(v)
            | Opcode::IfIcmpge(v)
            | Opcode::IfIcmpgt(v)
            | Opcode::IfIcmple(v)
            | Opcode::IfIcmplt(v)
            | Opcode::IfIcmpne(v)
            | Opcode::Ifeq(v)
            | Opcode::Ifge(v)
            | Opcode::Ifgt(v)
            | Opcode::Ifle(v)
            | Opcode::Iflt(v)
            | Opcode::Ifne(v)
            | Opcode::Ifnonnull(v)
            | Opcode::Ifnull(v)
            | Opcode::Iinc(v)
            | Opcode::Instanceof(v)
            | Opcode::Invokedynamic(v)
            | Opcode::Invokespecial(v)
            | Opcode::Invokestatic(v)
            | Opcode::Invokevirtual(v)
            | Opcode::Jsr(v)
            | Opcode::LdcW(v)
            | Opcode::Ldc2W(v)
            | Opcode::New(v)
            | Opcode::Putfield(v)
            | Opcode::Putstatic(v)
            | Opcode::Sipush(v) => {
                s.append(" ");
                s.append(u16_to_decimal(v).as_str());
                assert(s@ =~= self.text());
            },
            Opcode::GotoW(v)
            | Opcode::JsrW(v)
            | Opcode::Lookupswitch(v) => {
                s.append(" ");
                s.append(u32_to_decimal(v).as_str());
                assert(s@ =~= self.text());
            },
            Opcode::Invokeinterface(a, b)
            | Opcode::Multianewarray(a, b) => {
                s.append(" ");
                s.append(u16_to_decimal(a).as_str());
                s.append(" ");
                s.append(u8_to_decimal(b).as_str());
                assert(s@ =~= self.text());
            },
            Opcode::Tableswitch(low, high) => {
                s.append(" ");
                s.append(u32_to_decimal(low).as_str());
                s.append(u32_to_decimal(high).as_str());
                assert(s@ =~= self.text());
            },
            Opcode::Wide(op, index, increment) => {
                s.append(" ");
                s.append(u8_to_decimal(op).as_str());
                s.append(" ");
                s.append(u16_to_decimal(index).as_str());
                s.append(" ");
                s.append(u16_to_decimal(increment).as_str());
                assert(s@ =~= self.text());
            },
            _ => {
                assert(s@ =~= self.text());
            },
        }
        s
    }
}

/// How many bytes of operands an instruction of the opcode `code` has,
/// where every instruction of that opcode has as many.  The two switches and
/// the wide prefix have as many as their operands say, and the opcodes from
/// 203 to 253 are not defined.
pub open spec fn operand_width(code: u8) -> Option<int> {
    if code <= 15 || 26 <= code <= 53 || 59 <= code <= 131 || 133 <= code <= 152 || 172 <= code
        <= 177 || code == 190 || code == 191 || code == 194 || code == 195 || code == 202 || code
        >= 254 {
        Some(0)
    } else if code == 16 || code == 18 || 21 <= code <= 25 || 54 <= code <= 58 || code == 169
        || code == 188 {
        Some(1)
    } else if code == 17 || code == 19 || code == 20 || code == 132 || 153 <= code <= 168 || 178
        <= code <= 184 || code == 187 || code == 189 || code == 192 || code == 193 || code == 198
        || code == 199 {
        Some(2)
    } else if code == 197 {
        Some(3)
    } else if code == 185 || code == 186 || code == 200 || code == 201 {
        Some(4)
    } else {
        None
    }
}

/// Whether the opcode `code` is defined: the opcodes up to 202, and 254 and
/// 255.
pub open spec fn is_defined(code: u8) -> bool {
    code <= 202 || code >= 254
}

/// Decoding only moves forward: the input and the announced length stay,
/// and the place and the count grow by the same number of bytes.
pub proof fn lemma_decode_moves_forward(code: u8, s: CodeReaderView)
    ensures
        decode(code, s).0.bytes == s.bytes,
        decode(code, s).0.length == s.length,
        decode(code, s).0.pos - s.pos == decode(code, s).0.count - s.count,
        decode(code, s).0.pos >= s.pos,
{
}

/// An instruction that was decoded is of the opcode that was read.
pub proof fn lemma_decode_opcode(code: u8, s: CodeReaderView)
    ensures
        decode(code, s).1 matches Ok(op) ==> op.value() == code && is_defined(code),
{
    if code <= 15 {
        lemma_decode_opcode_0(code, s);
    } else if code <= 31 {
        lemma_decode_opcode_16(code, s);
    } else if code <= 47 {
        lemma_decode_opcode_32(code, s);
    } else if code <= 63 {
        lemma_decode_opcode_48(code, s);
    } else if code <= 79 {
        lemma_decode_opcode_64(code, s);
    } else if code <= 95 {
        lemma_decode_opcode_80(code, s);
    } else if code <= 111 {
        lemma_decode_opcode_96(code, s);
    } else if code <= 127 {
        lemma_decode_opcode_112(code, s);
    } else if code <= 143 {
        lemma_decode_opcode_128(code, s);
    } else if code <= 159 {
        lemma_decode_opcode_144(code, s);
    } else if code <= 175 {
        lemma_decode_opcode_160(code, s);
    } else if code <= 191 {
        lemma_decode_opcode_176(code, s);
    } else if code <= 207 {
        lemma_decode_opcode_192(code, s);
    } else if code <= 223 {
        lemma_decode_opcode_208(code, s);
    } else if code <= 239 {
        lemma_decode_opcode_224(code, s);
    } else {
        lemma_decode_opcode_240(code, s);
    }
}

/// The same, for the opcodes from 0 to 15.
proof fn lemma_decode_opcode_0(code: u8, s: CodeReaderView)
    requires
        0 <= code <= 15,
    ensures
        decode(code, s).1 matches Ok(op) ==> op.value() == code && is_defined(code),
{
}

/// The same, for the opcodes from 16 to 31.
proof fn lemma_decode_opcode_16(code: u8, s: CodeReaderView)
    requires
        16 <= code <= 31,
    ensures
        decode(code, s).1 matches Ok(op) ==> op.value() == code && is_defined(code),
{
}

/// The same, for the opcodes from 32 to 47.
proof fn lemma_decode_opcode_32(code: u8, s: CodeReaderView)
    requires
        32 <= code <= 47,
    ensures
        decode(code, s).1 matches Ok(op) ==> op.value() == code && is_defined(code),
{
}

/// The same, for the opcodes from 48 to 63.
proof fn lemma_decode_opcode_48(code: u8, s: CodeReaderView)
    requires
        48 <= code <= 63,
    ensures
        decode(code, s).1 matches Ok(op) ==> op.value() == code && is_defined(code),
{
}

/// The same, for the opcodes from 64 to 79.
proof fn lemma_decode_opcode_64(code: u8, s: CodeReaderView)
    requires
        64 <= code <= 79,
    ensures
        decode(code, s).1 matches Ok(op) ==> op.value() == code && is_defined(code),
{
}

/// The same, for the opcodes from 80 to 95.
proof fn lemma_decode_opcode_80(code: u8, s: CodeReaderView)
    requires
        80 <= code <= 95,
    ensures
        decode(code, s).1 matches Ok(op) ==> op.value() == code && is_defined(code),
{
}

/// The same, for the opcodes from 96 to 111.
proof fn lemma_decode_opcode_96(code: u8, s: CodeReaderView)
    requires
        96 <= code <= 111,
    ensures
        decode(code, s).1 matches Ok(op) ==> op.value() == code && is_defined(code),
{
}

/// The same, for the opcodes from 112 to 127.
proof fn lemma_decode_opcode_112(code: u8, s: CodeReaderView)
    requires
        112 <= code <= 127,
    ensures
        decode(code, s).1 matches Ok(op) ==> op.value() == code && is_defined(code),
{
}

/// The same, for the opcodes from 128 to 143.
proof fn lemma_decode_opcode_128(code: u8, s: CodeReaderView)
    requires
        128 <= code <= 143,
    ensures
        decode(code, s).1 matches Ok(op) ==> op.value() == code && is_defined(code),
{
}

/// The same, for the opcodes from 144 to 159.
proof fn lemma_decode_opcode_144(code: u8, s: CodeReaderView)
    requires
        144 <= code <= 159,
    ensures
        decode(code, s).1 matches Ok(op) ==> op.value() == code && is_defined(code),
{
}

/// The same, for the opcodes from 160 to 175.
proof fn lemma_decode_opcode_160(code: u8, s: CodeReaderView)
    requires
        160 <= code <= 175,
    ensures
        decode(code, s).1 matches Ok(op) ==> op.value() == code && is_defined(code),
{
}

/// The same, for the opcodes from 176 to 191.
proof fn lemma_decode_opcode_176(code: u8, s: CodeReaderView)
    requires
        176 <= code <= 191,
    ensures
        decode(code, s).1 matches Ok(op) ==> op.value() == code && is_defined(code),
{
}

/// The same, for the opcodes from 192 to 207.
proof fn lemma_decode_opcode_192(code: u8, s: CodeReaderView)
    requires
        192 <= code <= 207,
    ensures
        decode(code, s).1 matches Ok(op) ==> op.value() == code && is_defined(code),
{
}

/// The same, for the opcodes from 208 to 223.
proof fn lemma_decode_opcode_208(code: u8, s: CodeReaderView)
    requires
        208 <= code <= 223,
    ensures
        decode(code, s).1 matches Ok(op) ==> op.value() == code && is_defined(code),
{
}

/// The same, for the opcodes from 224 to 239.
proof fn lemma_decode_opcode_224(code: u8, s: CodeReaderView)
    requires
        224 <= code <= 239,
    ensures
        decode(code, s).1 matches Ok(op) ==> op.value() == code && is_defined(code),
{
}

/// The same, for the opcodes from 240 to 255.
proof fn lemma_decode_opcode_240(code: u8, s: CodeReaderView)
    requires
        240 <= code <= 255,
    ensures
        decode(code, s).1 matches Ok(op) ==> op.value() == code && is_defined(code),
{
}

/// Every opcode with operands of a fixed width decodes into one instruction
/// and takes exactly that many bytes of operands, where the input has them;
/// where it has not, the input ends inside the instruction.
pub proof fn lemma_fixed_width(code: u8, s: CodeReaderView)
    requires
        operand_width(code) is Some,
        0 <= s.pos <= s.bytes.len(),
    ensures
        is_defined(code),
        s.available(operand_width(code)->0) ==> decode(code, s).0 == s.advanced(
            operand_width(code)->0,
        ) && decode(code, s).1 is Ok,
        !s.available(operand_width(code)->0) ==> (decode(code, s).1 matches Err(e) && e
            matches ErrorView::TruncatedInstruction { opcode, .. } && opcode == code),
{
}

/// No opcode from 203 to 253 decodes, whatever follows it, and nothing is
/// read after it.
pub proof fn lemma_undefined_opcode(code: u8, s: CodeReaderView)
    requires
        !is_defined(code),
    ensures
        decode(code, s) == (s, Err::<Opcode, ErrorView>(undefined(code, s))),
        undefined(code, s) is UnsupportedOpcode,
{
}

/// The operands of a table switch take twelve bytes and four bytes for each
/// key from the lowest to the highest: where `low` and `high` are the keys
/// that stand in the second and the third word, and the input has that many
/// bytes, the switch decodes and takes exactly that many.
pub proof fn lemma_table_switch_width(s: CodeReaderView, low: u32, high: u32)
    requires
        s.available(12),
        low == crate::class_file_reader::be_u32(s.bytes.subrange(s.pos + 4, s.pos + 8)),
        high == crate::class_file_reader::be_u32(s.bytes.subrange(s.pos + 8, s.pos + 12)),
    ensures
        s.available(12 + 4 * table_entries(low, high)) ==> decode(170, s) == (
            s.advanced(12 + 4 * table_entries(low, high)),
            Ok::<Opcode, ErrorView>(Opcode::Tableswitch(low, high)),
        ),
        !s.available(12 + 4 * table_entries(low, high)) ==> decode(170, s).1 is Err,
{
    let s2 = s.advanced(4);
    let s3 = s.advanced(8);
    assert(s2.window(4) == s.bytes.subrange(s.pos + 4, s.pos + 8));
    assert(s3.window(4) == s.bytes.subrange(s.pos + 8, s.pos + 12));
}

/// The operands of a lookup switch take eight bytes and eight bytes for
/// each pair: where `npairs` is the number that stands in the second word,
/// and the input has that many bytes, the switch decodes and takes exactly
/// that many.
pub proof fn lemma_lookup_switch_width(s: CodeReaderView, npairs: u32)
    requires
        s.available(8),
        npairs == crate::class_file_reader::be_u32(s.bytes.subrange(s.pos + 4, s.pos + 8)),
    ensures
        s.available(8 + 8 * lookup_pairs(npairs)) ==> decode(171, s) == (
            s.advanced(8 + 8 * lookup_pairs(npairs)),
            Ok::<Opcode, ErrorView>(Opcode::Lookupswitch(npairs)),
        ),
        !s.available(8 + 8 * lookup_pairs(npairs)) ==> decode(171, s).1 is Err,
{
    let s2 = s.advanced(4);
    assert(s2.window(4) == s.bytes.subrange(s.pos + 4, s.pos + 8));
}

/// The operands of the wide prefix take three bytes, and five where the
/// instruction that is extended is `iinc`.
pub proof fn lemma_wide_width(s: CodeReaderView)
    requires
        s.available(1),
    ensures
        s.bytes[s.pos] == 132 && s.available(5) ==> decode(196, s).0 == s.advanced(5) && decode(
            196,
            s,
        ).1 is Ok,
        takes_wide_index(s.bytes[s.pos]) && s.available(3) ==> decode(196, s).0 == s.advanced(3)
            && decode(196, s).1 is Ok,
        s.bytes[s.pos] != 132 && !takes_wide_index(s.bytes[s.pos]) ==> decode(196, s).1 is Err,
{
}

} // verus!
