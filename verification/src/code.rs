//! The code of a method: the limits of its frame, its instructions, its
//! exception table and its attributes.
use vstd::prelude::*;
use vstd::slice::{slice_subrange, slice_to_vec};
use crate::class_file_reader::{be_u16, be_u32, AttributeInfo, AttributeInfoView, Index};
use crate::error::{outcome, Error, ErrorView};
use crate::list::read_list;

pub mod opcode;

use crate::code::opcode::{
    decode, get_opcode, lemma_decode_moves_forward, lemma_decode_opcode, lemma_fixed_width,
    operand_width, Opcode,
};

verus! {

/// The mathematical value of a [`CodeReader`].
pub struct CodeReaderView {
    /// The content of the attribute.
    pub bytes: Seq<u8>,
    /// How many bytes have been consumed.
    pub pos: int,
    /// How many bytes have been consumed since the length was set.
    pub count: int,
    /// The length that was set: the size of the instruction region.
    pub length: u32,
}

impl CodeReaderView {
    /// Whether the region that was announced has bytes left.
    pub open spec fn has_bytes(self) -> bool {
        self.count < self.length
    }

    /// The reader at the start of a region of `len` bytes.
    pub open spec fn set_length(self, len: u32) -> CodeReaderView {
        CodeReaderView { count: 0, length: len, ..self }
    }

    /// Whether `n` more bytes can be read.
    pub open spec fn available(self, n: int) -> bool {
        0 <= n <= self.bytes.len() - self.pos
    }

    /// The next `n` bytes.
    pub open spec fn window(self, n: int) -> Seq<u8> {
        self.bytes.subrange(self.pos, self.pos + n)
    }

    /// The reader `n` bytes further on.
    pub open spec fn advanced(self, n: int) -> CodeReaderView {
        CodeReaderView { pos: self.pos + n, count: self.count + n, ..self }
    }

    /// The failure of a read of `n` bytes.
    pub open spec fn short(self, n: int) -> ErrorView {
        ErrorView::TruncatedInput { offset: self.pos, needed: n, label: None }
    }

    /// Reads one byte.
    pub open spec fn read_u8(self) -> (CodeReaderView, Result<u8, ErrorView>) {
        if self.available(1) {
            (self.advanced(1), Ok(self.bytes[self.pos]))
        } else {
            (self, Err(self.short(1)))
        }
    }

    /// Reads a 16-bit unsigned integer, most significant byte first.
    pub open spec fn read_u16(self) -> (CodeReaderView, Result<u16, ErrorView>) {
        if self.available(2) {
            (self.advanced(2), Ok(be_u16(self.window(2))))
        } else {
            (self, Err(self.short(2)))
        }
    }

    /// Reads a 32-bit unsigned integer, most significant byte first.
    pub open spec fn read_u32(self) -> (CodeReaderView, Result<u32, ErrorView>) {
        if self.available(4) {
            (self.advanced(4), Ok(be_u32(self.window(4))))
        } else {
            (self, Err(self.short(4)))
        }
    }

    /// Reads a run of `n` bytes.
    pub open spec fn read_bytes(self, n: int) -> (CodeReaderView, Result<Seq<u8>, ErrorView>) {
        if self.available(n) {
            (self.advanced(n), Ok(self.window(n)))
        } else {
            (self, Err(self.short(n)))
        }
    }

    /// Passes over `n` bytes, where there are that many.
    pub open spec fn skip(self, n: int) -> (CodeReaderView, bool) {
        if self.available(n) {
            (self.advanced(n), true)
        } else {
            (self, false)
        }
    }
}

/// A sequential reader over the content of a code attribute.  It counts the
/// bytes that it consumes, so that the end of the instruction region can be
/// told.
pub struct CodeReader<'a> {
    count: usize,
    length: u32,
    bytes: &'a [u8],
    pos: usize,
}

impl<'a> View for CodeReader<'a> {
    type V = CodeReaderView;

    closed spec fn view(&self) -> CodeReaderView {
        CodeReaderView {
            bytes: self.bytes@,
            pos: self.pos as int,
            count: self.count as int,
            length: self.length,
        }
    }
}

impl<'a> CodeReader<'a> {
    #[verifier::type_invariant]
    spec fn within_input(&self) -> bool {
        self.count <= self.pos <= self.bytes@.len()
    }

    /// A reader at the start of `info`, with no region announced.
    pub fn new(info: &'a Vec<u8>) -> (r: Self)
        ensures
            r@ == (CodeReaderView { bytes: info@, pos: 0, count: 0, length: 0 }),
    {
        Self { count: 0, length: 0, bytes: info.as_slice(), pos: 0 }
    }

    /// Whether the region that was announced has bytes left.
    pub fn has_bytes(&self) -> (r: bool)
        ensures
            r == self@.has_bytes(),
    {
        proof {
            use_type_invariant(self);
        }
        self.length as u64 > self.count as u64
    }

    /// Announces a region of `len` bytes that begins here.
    pub fn set_length(&mut self, len: u32)
        ensures
            final(self)@ == old(self)@.set_length(len),
    {
        proof {
            use_type_invariant(&*self);
        }
        self.count = 0;
        self.length = len;
    }

    /// How many bytes have been consumed.
    pub fn position(&self) -> (r: usize)
        ensures
            r == self@.pos,
    {
        self.pos
    }

    /// How many bytes have been consumed since the region was announced.
    pub fn consumed(&self) -> (r: usize)
        ensures
            r == self@.count,
    {
        self.count
    }

    /// The length of the region that was announced.
    pub fn length(&self) -> (r: u32)
        ensures
            r == self@.length,
    {
        self.length
    }

    /// Reads a 32-bit unsigned integer, most significant byte first.
    pub fn read_u32(&mut self) -> (r: Result<u32, Error>)
        ensures
            (final(self)@, outcome(r)) == old(self)@.read_u32(),
    {
        proof {
            use_type_invariant(&*self);
        }
        if 4 <= self.bytes.len() - self.pos {
            let p = self.pos;
            let v = (self.bytes[p] as u32) * 0x100_0000 + (self.bytes[p + 1] as u32) * 0x1_0000
                + (self.bytes[p + 2] as u32) * 0x100 + (self.bytes[p + 3] as u32);
            self.pos = p + 4;
            self.count = self.count + 4;
            Ok(v)
        } else {
            Err(Error::TruncatedInput { offset: self.pos, needed: 4, label: None })
        }
    }

    /// Reads a 16-bit unsigned integer, most significant byte first.
    pub fn read_u16(&mut self) -> (r: Result<u16, Error>)
        ensures
            (final(self)@, outcome(r)) == old(self)@.read_u16(),
    {
        proof {
            use_type_invariant(&*self);
        }
        if 2 <= self.bytes.len() - self.pos {
            let p = self.pos;
            let v = (self.bytes[p] as u16) * 0x100 + (self.bytes[p + 1] as u16);
            self.pos = p + 2;
            self.count = self.count + 2;
            Ok(v)
        } else {
            Err(Error::TruncatedInput { offset: self.pos, needed: 2, label: None })
        }
    }

    /// Reads one byte.
    pub fn read_u8(&mut self) -> (r: Result<u8, Error>)
        ensures
            (final(self)@, outcome(r)) == old(self)@.read_u8(),
    {
        proof {
            use_type_invariant(&*self);
        }
        if 1 <= self.bytes.len() - self.pos {
            let v = self.bytes[self.pos];
            self.pos = self.pos + 1;
            self.count = self.count + 1;
            Ok(v)
        } else {
            Err(Error::TruncatedInput { offset: self.pos, needed: 1, label: None })
        }
    }

    /// Reads a run of `n` bytes.
    pub fn read_bytes(&mut self, n: usize) -> (r: Result<Vec<u8>, Error>)
        ensures
            final(self)@ == old(self)@.read_bytes(n as int).0,
            match r {
                Ok(buf) => old(self)@.read_bytes(n as int).1 == Ok::<Seq<u8>, ErrorView>(buf@),
                Err(e) => old(self)@.read_bytes(n as int).1 == Err::<Seq<u8>, ErrorView>(e@),
            },
    {
        proof {
            use_type_invariant(&*self);
        }
        if n <= self.bytes.len() - self.pos {
            let buf = slice_to_vec(slice_subrange(self.bytes, self.pos, self.pos + n));
            self.pos = self.pos + n;
            self.count = self.count + n;
            Ok(buf)
        } else {
            Err(Error::TruncatedInput { offset: self.pos, needed: n, label: None })
        }
    }

    /// Passes over `n` bytes, where there are that many, and says whether
    /// there were.
    pub fn skip(&mut self, n: u64) -> (r: bool)
        ensures
            (final(self)@, r) == old(self)@.skip(n as int),
    {
        proof {
            use_type_invariant(&*self);
        }
        let left = self.bytes.len() - self.pos;
        if n <= left as u64 {
            self.pos = self.pos + n as usize;
            self.count = self.count + n as usize;
            true
        } else {
            false
        }
    }
}

/// One entry of the exception table: the range of the code that it covers,
/// from `start_pc` up to `end_pc`, where its handler begins, and the slot of
/// the class of exception that it catches.
#[derive(Clone, Copy, Debug, PartialEq, Eq, Structural)]
pub struct Exception {
    pub start_pc: u16,
    pub end_pc: u16,
    pub handler_pc: u16,
    pub catch_type: u16,
}

impl DeepView for Exception {
    type V = Exception;

    open spec fn deep_view(&self) -> Exception {
        *self
    }
}

/// The code of a method, decoded.
#[derive(Debug, Clone, PartialEq, Eq)]
pub struct Code {
    max_stack: u16,
    max_locals: u16,
    pub code: Vec<Opcode>,
    exception_table: Vec<Exception>,
    attributes: Vec<AttributeInfo>,
}

/// The mathematical value of a [`Code`].
pub struct CodeView {
    pub max_stack: u16,
    pub max_locals: u16,
    pub code: Seq<Opcode>,
    pub exception_table: Seq<Exception>,
    pub attributes: Seq<AttributeInfoView>,
}

impl DeepView for Code {
    type V = CodeView;

    closed spec fn deep_view(&self) -> CodeView {
        CodeView {
            max_stack: self.max_stack,
            max_locals: self.max_locals,
            code: self.code@,
            exception_table: self.exception_table@,
            attributes: self.attributes.deep_view(),
        }
    }
}

/// Decodes the instructions of the region that was announced, from the
/// place of the reader to the end of the region, and appends them to `acc`.
/// An instruction that ends beyond the end of the region is a failure: the
/// length of the region does not fit its instructions.
pub open spec fn read_instructions(s: CodeReaderView, acc: Seq<Opcode>) -> (
    CodeReaderView,
    Result<Seq<Opcode>, ErrorView>,
)
    decreases s.length - s.count,
{
    if !s.has_bytes() {
        (s, Ok(acc))
    } else {
        let (s1, r1) = s.read_u8();
        match r1 {
            Err(e) => (s1, Err(e)),
            Ok(code) => {
                let (s2, r2) = decode(code, s1);
                match r2 {
                    Err(e) => (s2, Err(e)),
                    Ok(op) => if s2.count > s2.length {
                        (
                            s2,
                            Err(
                                ErrorView::MisalignedInstructionStream {
                                    length: s2.length,
                                    consumed: s2.count,
                                },
                            ),
                        )
                    } else {
                        proof {
                            lemma_decode_moves_forward(code, s1);
                        }
                        read_instructions(s2, acc.push(op))
                    },
                }
            },
        }
    }
}

/// Reads one entry of the exception table: four 16-bit numbers.
pub open spec fn read_exception(s: CodeReaderView) -> (
    CodeReaderView,
    Result<Exception, ErrorView>,
) {
    let (s1, r1) = s.read_u16();
    match r1 {
        Err(e) => (s1, Err(e)),
        Ok(start_pc) => {
            let (s2, r2) = s1.read_u16();
            match r2 {
                Err(e) => (s2, Err(e)),
                Ok(end_pc) => {
                    let (s3, r3) = s2.read_u16();
                    match r3 {
                        Err(e) => (s3, Err(e)),
                        Ok(handler_pc) => {
                            let (s4, r4) = s3.read_u16();
                            match r4 {
                                Err(e) => (s4, Err(e)),
                                Ok(catch_type) => (
                                    s4,
                                    Ok(Exception { start_pc, end_pc, handler_pc, catch_type }),
                                ),
                            }
                        },
                    }
                },
            }
        },
    }
}

/// How one entry of the exception table is read.
pub open spec fn exception_reader() -> spec_fn(CodeReaderView) -> (
    CodeReaderView,
    Result<Exception, ErrorView>,
) {
    |s: CodeReaderView| read_exception(s)
}

/// Reads one attribute of the code: the slot of its name, the 32-bit length
/// of its content, and the content, which is not interpreted.
pub open spec fn read_code_attribute(s: CodeReaderView) -> (
    CodeReaderView,
    Result<AttributeInfoView, ErrorView>,
) {
    let (s1, r1) = s.read_u16();
    match r1 {
        Err(e) => (s1, Err(e)),
        Ok(name) => {
            let (s2, r2) = s1.read_u32();
            match r2 {
                Err(e) => (s2, Err(e)),
                Ok(len) => {
                    let (s3, r3) = s2.read_bytes(len as int);
                    match r3 {
                        Err(e) => (s3, Err(e)),
                        Ok(info) => (
                            s3,
                            Ok(
                                AttributeInfoView {
                                    attribute_name_index: Index::Single(name),
                                    info,
                                },
                            ),
                        ),
                    }
                },
            }
        },
    }
}

/// How one attribute of the code is read.
pub open spec fn code_attribute_reader() -> spec_fn(CodeReaderView) -> (
    CodeReaderView,
    Result<AttributeInfoView, ErrorView>,
) {
    |s: CodeReaderView| read_code_attribute(s)
}

/// Reads the limits of the frame and the length of the instruction region,
/// and announces the region.
pub open spec fn read_code_head(s: CodeReaderView) -> (
    CodeReaderView,
    Result<(u16, u16), ErrorView>,
) {
    let (s1, r1) = s.read_u16();
    match r1 {
        Err(e) => (s1, Err(e)),
        Ok(max_stack) => {
            let (s2, r2) = s1.read_u16();
            match r2 {
                Err(e) => (s2, Err(e)),
                Ok(max_locals) => {
                    let (s3, r3) = s2.read_u32();
                    match r3 {
                        Err(e) => (s3, Err(e)),
                        Ok(code_length) => (s3.set_length(code_length), Ok((max_stack, max_locals))),
                    }
                },
            }
        },
    }
}

/// Reads a 16-bit count and then that many entries of the exception table.
pub open spec fn read_exception_table(s: CodeReaderView) -> (
    CodeReaderView,
    Result<Seq<Exception>, ErrorView>,
) {
    let (s1, r1) = s.read_u16();
    match r1 {
        Err(e) => (s1, Err(e)),
        Ok(n) => read_list(s1, n as int, exception_reader(), Seq::empty()),
    }
}

/// Reads a 16-bit count and then that many attributes of the code.
pub open spec fn read_code_attributes(s: CodeReaderView) -> (
    CodeReaderView,
    Result<Seq<AttributeInfoView>, ErrorView>,
) {
    let (s1, r1) = s.read_u16();
    match r1 {
        Err(e) => (s1, Err(e)),
        Ok(n) => read_list(s1, n as int, code_attribute_reader(), Seq::empty()),
    }
}

/// Decodes the content `info` of a code attribute: the limits of the frame,
/// the instructions, which fill a region whose length in bytes stands in
/// front of them, the exception table, and the attributes of the code.
pub open spec fn read_code(info: Seq<u8>) -> Result<CodeView, ErrorView> {
    let (s1, r1) = read_code_head(CodeReaderView { bytes: info, pos: 0, count: 0, length: 0 });
    match r1 {
        Err(e) => Err(e),
        Ok(limits) => {
            let (s2, r2) = read_instructions(s1, Seq::empty());
            match r2 {
                Err(e) => Err(e),
                Ok(code) => {
                    let (s3, r3) = read_exception_table(s2);
                    match r3 {
                        Err(e) => Err(e),
                        Ok(exception_table) => {
                            let (s4, r4) = read_code_attributes(s3);
                            match r4 {
                                Err(e) => Err(e),
                                Ok(attributes) => Ok(
                                    CodeView {
                                        max_stack: limits.0,
                                        max_locals: limits.1,
                                        code,
                                        exception_table,
                                        attributes,
                                    },
                                ),
                            }
                        },
                    }
                },
            }
        },
    }
}

/// A region that holds one instruction of an opcode with operands of a
/// fixed width decodes into exactly that instruction, and takes the byte of
/// the opcode and the bytes of the operands.
pub proof fn lemma_single_instruction(s: CodeReaderView)
    requires
        0 <= s.pos < s.bytes.len(),
        s.count == 0,
        operand_width(s.bytes[s.pos]) matches Some(w) && s.length == 1 + w && s.available(1 + w),
    ensures
        read_instructions(s, Seq::empty()).0 == s.advanced(s.length as int),
        read_instructions(s, Seq::empty()).1 matches Ok(code) && code.len() == 1 && code[0].value()
            == s.bytes[s.pos],
{
    let code = s.bytes[s.pos];
    let s1 = s.advanced(1);
    lemma_fixed_width(code, s1);
    lemma_decode_opcode(code, s1);
    lemma_decode_moves_forward(code, s1);
    let (s2, r2) = decode(code, s1);
    assert(s2 == s.advanced(s.length as int));
    assert(!s2.has_bytes());
    let op = r2->Ok_0;
    assert(read_instructions(s2, seq![op]) == (s2, Ok::<Seq<Opcode>, ErrorView>(seq![op])));
    assert(Seq::<Opcode>::empty().push(op) =~= seq![op]);
}

impl Code {
    /// Decodes the content `info` of a code attribute.
    #[verifier::loop_isolation(false)]
    pub fn new(info: &Vec<u8>) -> (r: Result<Code, Error>)
        ensures
            outcome(r) == read_code(info@),
    {
        let mut reader = CodeReader::new(info);
        let max_stack = reader.read_u16()?;
        let max_locals = reader.read_u16()?;
        let code_length = reader.read_u32()?;
        reader.set_length(code_length);
        let ghost region = reader@;
        let mut code: Vec<Opcode> = Vec::new();
        while reader.has_bytes()
            invariant
                reader@.length == code_length,
                read_instructions(region, Seq::empty()) == read_instructions(reader@, code@),
            decreases reader@.length - reader@.count,
        {
            let opcode = reader.read_u8()?;
            proof {
                lemma_decode_moves_forward(opcode, reader@);
            }
            let o = get_opcode(opcode, &mut reader)?;
            if reader.consumed() as u64 > code_length as u64 {
                return Err(
                    Error::MisalignedInstructionStream {
                        length: code_length,
                        consumed: reader.consumed(),
                    },
                );
            }
            code.push(o);
        }

        let exception_table_length = reader.read_u16()?;
        let ghost table_start = reader@;
        let mut exception_table: Vec<Exception> = Vec::new();
        let mut i: u16 = 0;
        while i < exception_table_length
            invariant
                i <= exception_table_length,
                read_list(
                    table_start,
                    exception_table_length as int,
                    exception_reader(),
                    Seq::empty(),
                ) == read_list(
                    reader@,
                    exception_table_length - i,
                    exception_reader(),
                    exception_table@,
                ),
            decreases exception_table_length - i,
        {
            let start_pc = reader.read_u16()?;
            let end_pc = reader.read_u16()?;
            let handler_pc = reader.read_u16()?;
            let catch_type = reader.read_u16()?;
            exception_table.push(Exception { start_pc, end_pc, handler_pc, catch_type });
            i = i + 1;
        }

        let attributes_count = reader.read_u16()?;
        let ghost attributes_start = reader@;
        let mut attributes: Vec<AttributeInfo> = Vec::new();
        let mut j: u16 = 0;
        assert(attributes.deep_view() =~= Seq::empty());
        while j < attributes_count
            invariant
                j <= attributes_count,
                read_list(
                    attributes_start,
                    attributes_count as int,
                    code_attribute_reader(),
                    Seq::empty(),
                ) == read_list(
                    reader@,
                    attributes_count - j,
                    code_attribute_reader(),
                    attributes.deep_view(),
                ),
            decreases attributes_count - j,
        {
            let ghost before = attributes.deep_view();
            let name = reader.read_u16()?;
            let len = reader.read_u32()?;
            let content = reader.read_bytes(len as usize)?;
            let attribute = AttributeInfo {
                attribute_name_index: Index::Single(name),
                info: content,
            };
            attributes.push(attribute);
            assert(attributes.deep_view() =~= before.push(attribute.deep_view()));
            j = j + 1;
        }
        Ok(Code { max_stack, max_locals, code, exception_table, attributes })
    }

    /// The instructions, in the order of the code.
    pub fn instructions(&self) -> (r: &Vec<Opcode>)
        ensures
            r@ == self.deep_view().code,
    {
        &self.code
    }

    /// The greatest depth of the operand stack.
    pub fn max_stack(&self) -> (r: u16)
        ensures
            r == self.deep_view().max_stack,
    {
        self.max_stack
    }

    /// The number of local variables.
    pub fn max_locals(&self) -> (r: u16)
        ensures
            r == self.deep_view().max_locals,
    {
        self.max_locals
    }

    /// The exception table.
    pub fn exception_table(&self) -> (r: &Vec<Exception>)
        ensures
            r@ == self.deep_view().exception_table,
    {
        &self.exception_table
    }

    /// The attributes of the code.
    pub fn attributes(&self) -> (r: &Vec<AttributeInfo>)
        ensures
            r.deep_view() == self.deep_view().attributes,
    {
        &self.attributes
    }
}

} // verus!
