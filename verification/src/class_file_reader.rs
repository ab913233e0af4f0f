//! The sequential reader and the records it decodes.
//!
//! A [`ClassFileReader`] walks a byte buffer from front to back.  Each read
//! takes a field of fixed width, most significant byte first, or a run of
//! bytes of a stated length.  A read either takes its whole field or fails
//! and leaves the reader as it was.
//!
//! What a read does is described on [`ReaderView`], the mathematical value of
//! a reader: every function of the reader is specified as a function from the
//! value before to the value after, together with the outcome.
use vstd::prelude::*;
use vstd::slice::{slice_subrange, slice_to_vec};
use vstd::string::StringExecFns;
use vstd::utf8::{decode_utf8, valid_utf8};
use crate::error::{outcome, Error, ErrorView};
use crate::list::{lemma_read_list_len, read_list};
use crate::text::{decimal, i64_to_decimal, signed_decimal, u64_to_decimal};
use crate::Dump;

verus! {

/// The payload of a constant-pool entry: the slots it refers to.
#[derive(Clone, Copy, Debug, PartialEq, Eq, Structural)]
pub enum Index {
    /// One slot.
    Single(u16),
    /// A name and a descriptor, in this order.
    Pair(u16, u16),
    /// A class and a name-and-type.
    Ref(u16, u16),
    /// A bootstrap method and a name-and-type.
    Dynamic(u16, u16),
    /// A reference kind and the slot of the member referred to.
    MethodHandle(u8, u16),
}

impl DeepView for Index {
    type V = Index;

    open spec fn deep_view(&self) -> Index {
        *self
    }
}

impl Index {
    /// The notation of a payload: each slot as `#` and its number.
    pub open spec fn text(self) -> Seq<char> {
        match self {
            Index::Single(i) => seq!['#'] + decimal(i as nat),
            Index::Pair(i1, i2) | Index::Ref(i1, i2) => seq!['#'] + decimal(i1 as nat) + seq![
                ',',
                '#',
            ] + decimal(i2 as nat),
            Index::Dynamic(i1, i2) => decimal(i1 as nat) + seq![':', '#'] + decimal(i2 as nat),
            Index::MethodHandle(i1, i2) => decimal(i1 as nat) + seq![':', '#'] + decimal(
                i2 as nat,
            ),
        }
    }

    /// Renders the payload in its notation.
    pub fn to_string(&self) -> (r: String)
        ensures
            r@ == self.text(),
    {
        proof {
            reveal_strlit("#");
            reveal_strlit(",#");
            reveal_strlit(":#");
        }
        match *self {
            Index::Single(i) => {
                let mut s = String::from_str("#");
                s.append(u64_to_decimal(i as u64).as_str());
                s
            },
            Index::Pair(i1, i2) | Index::Ref(i1, i2) => {
                let mut s = String::from_str("#");
                s.append(u64_to_decimal(i1 as u64).as_str());
                s.append(",#");
                s.append(u64_to_decimal(i2 as u64).as_str());
                assert(s@ =~= self.text());
                s
            },
            Index::Dynamic(i1, i2) => {
                let mut s = u64_to_decimal(i1 as u64);
                s.append(":#");
                s.append(u64_to_decimal(i2 as u64).as_str());
                assert(s@ =~= self.text());
                s
            },
            Index::MethodHandle(i1, i2) => {
                let mut s = u64_to_decimal(i1 as u64);
                s.append(":#");
                s.append(u64_to_decimal(i2 as u64).as_str());
                assert(s@ =~= self.text());
                s
            },
        }
    }
}

/// What a traced field decoded to.
#[derive(Debug, Clone, PartialEq, Eq)]
pub enum TraceValue {
    /// An unsigned integer.
    Unsigned(u64),
    /// The bits of a 32-bit floating-point number.
    Float(u32),
    /// The bits of a 64-bit floating-point number.
    Double(u64),
    /// A text.
    Text(String),
    /// Nothing: the bytes stand for themselves.
    Raw,
}

/// The mathematical value of a [`TraceValue`].
pub enum TraceValueView {
    Unsigned(u64),
    Float(u32),
    Double(u64),
    Text(Seq<char>),
    Raw,
}

impl DeepView for TraceValue {
    type V = TraceValueView;

    open spec fn deep_view(&self) -> TraceValueView {
        match *self {
            TraceValue::Unsigned(v) => TraceValueView::Unsigned(v),
            TraceValue::Float(v) => TraceValueView::Float(v),
            TraceValue::Double(v) => TraceValueView::Double(v),
            TraceValue::Text(s) => TraceValueView::Text(s@),
            TraceValue::Raw => TraceValueView::Raw,
        }
    }
}

/// One entry of a reader's trace: the field consumed at `offset`.
#[derive(Debug, Clone, PartialEq, Eq)]
pub struct TraceRecord {
    pub offset: usize,
    pub label: Option<String>,
    pub bytes: Vec<u8>,
    pub value: TraceValue,
}

/// The mathematical value of a [`TraceRecord`].
pub struct TraceRecordView {
    pub offset: int,
    pub label: Option<Seq<char>>,
    pub bytes: Seq<u8>,
    pub value: TraceValueView,
}

impl DeepView for TraceRecord {
    type V = TraceRecordView;

    open spec fn deep_view(&self) -> TraceRecordView {
        TraceRecordView {
            offset: self.offset as int,
            label: self.label.deep_view(),
            bytes: self.bytes@,
            value: self.value.deep_view(),
        }
    }
}

/// An attribute as it stands in the file: the slot of its name, and its
/// content, which is not interpreted.
#[derive(Debug, Clone, PartialEq, Eq)]
pub struct AttributeInfo {
    pub attribute_name_index: Index,
    pub info: Vec<u8>,
}

/// The mathematical value of an [`AttributeInfo`].
pub struct AttributeInfoView {
    pub attribute_name_index: Index,
    pub info: Seq<u8>,
}

impl DeepView for AttributeInfo {
    type V = AttributeInfoView;

    open spec fn deep_view(&self) -> AttributeInfoView {
        AttributeInfoView { attribute_name_index: self.attribute_name_index, info: self.info@ }
    }
}

/// A field as it stands in the file.
#[derive(Debug, Clone, PartialEq, Eq)]
pub struct FieldInfo {
    pub access_flags: u16,
    pub name_index: Index,
    pub descriptor_index: Index,
    pub attributes: Vec<AttributeInfo>,
}

/// The mathematical value of a [`FieldInfo`].
pub struct FieldInfoView {
    pub access_flags: u16,
    pub name_index: Index,
    pub descriptor_index: Index,
    pub attributes: Seq<AttributeInfoView>,
}

impl DeepView for FieldInfo {
    type V = FieldInfoView;

    open spec fn deep_view(&self) -> FieldInfoView {
        FieldInfoView {
            access_flags: self.access_flags,
            name_index: self.name_index,
            descriptor_index: self.descriptor_index,
            attributes: self.attributes.deep_view(),
        }
    }
}

/// A method as it stands in the file.
#[derive(Debug, Clone, PartialEq, Eq)]
pub struct MethodInfo {
    pub access_flags: u16,
    pub name_index: Index,
    pub descriptor_index: Index,
    pub attributes: Vec<AttributeInfo>,
}

/// The mathematical value of a [`MethodInfo`].
pub struct MethodInfoView {
    pub access_flags: u16,
    pub name_index: Index,
    pub descriptor_index: Index,
    pub attributes: Seq<AttributeInfoView>,
}

impl DeepView for MethodInfo {
    type V = MethodInfoView;

    open spec fn deep_view(&self) -> MethodInfoView {
        MethodInfoView {
            access_flags: self.access_flags,
            name_index: self.name_index,
            descriptor_index: self.descriptor_index,
            attributes: self.attributes.deep_view(),
        }
    }
}

/// The version of the class-file format: the minor number, then the major
/// number, both as they stand in the file.
#[derive(Clone, Copy, Debug, PartialEq, Eq, Structural)]
pub struct JavaVersion(pub u16, pub u16);

impl DeepView for JavaVersion {
    type V = JavaVersion;

    open spec fn deep_view(&self) -> JavaVersion {
        *self
    }
}

impl JavaVersion {
    /// The version as it is usually written: the major number less 44, a
    /// dot, and the minor number.
    pub open spec fn text(self) -> Seq<char> {
        signed_decimal(self.1 - 44) + seq!['.'] + decimal(self.0 as nat)
    }

    /// Renders the version as it is usually written.
    pub fn to_string(&self) -> (r: String)
        ensures
            r@ == self.text(),
    {
        proof {
            reveal_strlit(".");
        }
        let mut s = i64_to_decimal(self.1 as i64 - 44);
        s.append(".");
        s.append(u64_to_decimal(self.0 as u64).as_str());
        assert(s@ =~= self.text());
        s
    }
}

/// The unsigned integer that two bytes encode, most significant byte first.
pub open spec fn be_u16(s: Seq<u8>) -> u16
    recommends
        s.len() == 2,
{
    (s[0] as int * 0x100 + s[1] as int) as u16
}

/// The unsigned integer that four bytes encode, most significant byte first.
pub open spec fn be_u32(s: Seq<u8>) -> u32
    recommends
        s.len() == 4,
{
    (s[0] as int * 0x100_0000 + s[1] as int * 0x1_0000 + s[2] as int * 0x100 + s[3] as int) as u32
}

/// The unsigned integer that eight bytes encode, most significant byte first.
pub open spec fn be_u64(s: Seq<u8>) -> u64
    recommends
        s.len() == 8,
{
    (be_u32(s.subrange(0, 4)) as int * 0x1_0000_0000 + be_u32(s.subrange(4, 8)) as int) as u64
}

/// The trace records for a run of bytes that begins at `offset`: one record
/// for every sixteen bytes, and one for what is left.
pub open spec fn chunk_records(offset: int, bytes: Seq<u8>) -> Seq<TraceRecordView>
    decreases bytes.len(),
{
    if bytes.len() == 0 {
        Seq::empty()
    } else if bytes.len() <= 16 {
        seq![TraceRecordView { offset, label: None, bytes, value: TraceValueView::Raw }]
    } else {
        seq![
            TraceRecordView {
                offset,
                label: None,
                bytes: bytes.subrange(0, 16),
                value: TraceValueView::Raw,
            },
        ] + chunk_records(offset + 16, bytes.subrange(16, bytes.len() as int))
    }
}

/// The mathematical value of a [`ClassFileReader`].
pub struct ReaderView {
    /// The whole input.
    pub bytes: Seq<u8>,
    /// How many bytes have been consumed.
    pub pos: int,
    /// Whether fields are traced.
    pub mode: Dump,
    /// The name under which the input is known.
    pub file_name: Seq<char>,
    /// The label that the next fixed-width read will carry.
    pub context: Option<Seq<char>>,
    /// The fields traced so far, oldest first.
    pub trace: Seq<TraceRecordView>,
}

impl ReaderView {
    /// The reader with `label` attached to the next read.
    pub open spec fn labelled(self, label: Seq<char>) -> ReaderView {
        ReaderView { context: Some(label), ..self }
    }

    /// Whether `n` more bytes can be read.
    pub open spec fn available(self, n: int) -> bool {
        0 <= n <= self.bytes.len() - self.pos
    }

    /// The next `n` bytes.
    pub open spec fn window(self, n: int) -> Seq<u8> {
        self.bytes.subrange(self.pos, self.pos + n)
    }

    /// The failure of a read of `n` bytes.
    pub open spec fn short(self, n: int) -> ErrorView {
        ErrorView::TruncatedInput { offset: self.pos, needed: n, label: self.context }
    }

    /// The reader after a fixed-width field was offered to the trace: the
    /// pending label is used up, and the field is recorded unless tracing is
    /// off.
    pub open spec fn dumped(self, offset: int, bytes: Seq<u8>, value: TraceValueView) -> ReaderView {
        ReaderView {
            context: None,
            trace: if self.mode == Dump::Off {
                self.trace
            } else {
                self.trace.push(TraceRecordView { offset, label: self.context, bytes, value })
            },
            ..self
        }
    }

    /// The reader after a run of bytes was offered to the trace.
    pub open spec fn dumped_bytes(self, offset: int, bytes: Seq<u8>) -> ReaderView {
        ReaderView {
            trace: if self.mode == Dump::Off {
                self.trace
            } else {
                self.trace + chunk_records(offset, bytes)
            },
            ..self
        }
    }

    /// The reader after a text was offered to the trace.
    pub open spec fn dumped_string(self, offset: int, text: Seq<char>) -> ReaderView {
        ReaderView {
            trace: if self.mode == Dump::Off {
                self.trace
            } else {
                self.trace.push(
                    TraceRecordView {
                        offset,
                        label: None,
                        bytes: Seq::empty(),
                        value: TraceValueView::Text(text),
                    },
                )
            },
            ..self
        }
    }

    /// The reader with tracing off and nothing traced.
    pub open spec fn untraced(self) -> ReaderView {
        ReaderView { mode: Dump::Off, trace: Seq::empty(), ..self }
    }

    /// The reader `n` bytes further on.
    pub open spec fn advanced(self, n: int) -> ReaderView {
        ReaderView { pos: self.pos + n, ..self }
    }

    /// Reads one byte.
    pub open spec fn read_u8(self) -> (ReaderView, Result<u8, ErrorView>) {
        if self.available(1) {
            let v = self.bytes[self.pos];
            (
                self.advanced(1).dumped(self.pos, self.window(1), TraceValueView::Unsigned(v as u64)),
                Ok(v),
            )
        } else {
            (self, Err(self.short(1)))
        }
    }

    /// Reads a 16-bit unsigned integer.
    pub open spec fn read_u16(self) -> (ReaderView, Result<u16, ErrorView>) {
        if self.available(2) {
            let v = be_u16(self.window(2));
            (
                self.advanced(2).dumped(self.pos, self.window(2), TraceValueView::Unsigned(v as u64)),
                Ok(v),
            )
        } else {
            (self, Err(self.short(2)))
        }
    }

    /// Reads a 32-bit unsigned integer.
    pub open spec fn read_u32(self) -> (ReaderView, Result<u32, ErrorView>) {
        if self.available(4) {
            let v = be_u32(self.window(4));
            (
                self.advanced(4).dumped(self.pos, self.window(4), TraceValueView::Unsigned(v as u64)),
                Ok(v),
            )
        } else {
            (self, Err(self.short(4)))
        }
    }

    /// Reads a 64-bit unsigned integer.
    pub open spec fn read_u64(self) -> (ReaderView, Result<u64, ErrorView>) {
        if self.available(8) {
            let v = be_u64(self.window(8));
            (self.advanced(8).dumped(self.pos, self.window(8), TraceValueView::Unsigned(v)), Ok(v))
        } else {
            (self, Err(self.short(8)))
        }
    }

    /// Reads the bits of a 32-bit floating-point number.
    pub open spec fn read_f32(self) -> (ReaderView, Result<u32, ErrorView>) {
        if self.available(4) {
            let v = be_u32(self.window(4));
            (self.advanced(4).dumped(self.pos, self.window(4), TraceValueView::Float(v)), Ok(v))
        } else {
            (self, Err(self.short(4)))
        }
    }

    /// Reads the bits of a 64-bit floating-point number.
    pub open spec fn read_f64(self) -> (ReaderView, Result<u64, ErrorView>) {
        if self.available(8) {
            let v = be_u64(self.window(8));
            (self.advanced(8).dumped(self.pos, self.window(8), TraceValueView::Double(v)), Ok(v))
        } else {
            (self, Err(self.short(8)))
        }
    }

    /// Reads a run of `len` bytes.
    pub open spec fn read_bytes(self, len: int) -> (ReaderView, Result<Seq<u8>, ErrorView>) {
        if self.available(len) {
            (self.advanced(len).dumped_bytes(self.pos, self.window(len)), Ok(self.window(len)))
        } else {
            (self, Err(self.short(len)))
        }
    }

    /// Reads a text of `len` bytes of UTF-8.
    pub open spec fn read_string(self, len: int) -> (ReaderView, Result<Seq<char>, ErrorView>) {
        if !self.available(len) {
            (self, Err(self.short(len)))
        } else if !valid_utf8(self.window(len)) {
            (self, Err(ErrorView::MalformedUtf8 { offset: self.pos }))
        } else {
            let text = decode_utf8(self.window(len));
            (self.advanced(len).dumped_string(self.pos, text), Ok(text))
        }
    }

    /// Reads the slot number of a constant.
    pub open spec fn read_constant_index(self) -> (ReaderView, Result<Index, ErrorView>) {
        let (s, r) = self.read_u16();
        match r {
            Ok(v) => (s, Ok(Index::Single(v))),
            Err(e) => (s, Err(e)),
        }
    }

    /// Reads two slot numbers, labelled `first` and `second`.
    pub open spec fn read_two(self, first: Seq<char>, second: Seq<char>) -> (
        ReaderView,
        Result<(u16, u16), ErrorView>,
    ) {
        let (s1, r1) = self.labelled(first).read_u16();
        match r1 {
            Err(e) => (s1, Err(e)),
            Ok(a) => {
                let (s2, r2) = s1.labelled(second).read_u16();
                match r2 {
                    Err(e) => (s2, Err(e)),
                    Ok(b) => (s2, Ok((a, b))),
                }
            },
        }
    }

    /// Reads a name and a descriptor.
    pub open spec fn read_constant_index_pair(self) -> (ReaderView, Result<Index, ErrorView>) {
        let (s, r) = self.read_two("name"@, "type"@);
        match r {
            Ok(p) => (s, Ok(Index::Pair(p.0, p.1))),
            Err(e) => (s, Err(e)),
        }
    }

    /// Reads a class and a name-and-type.
    pub open spec fn read_constant_index_ref(self) -> (ReaderView, Result<Index, ErrorView>) {
        let (s, r) = self.read_two("class"@, "name & type"@);
        match r {
            Ok(p) => (s, Ok(Index::Ref(p.0, p.1))),
            Err(e) => (s, Err(e)),
        }
    }

    /// Reads a bootstrap method and a name-and-type.
    pub open spec fn read_constant_index_dynamic(self) -> (ReaderView, Result<Index, ErrorView>) {
        let (s, r) = self.read_two("bootstrap index"@, "name & type"@);
        match r {
            Ok(p) => (s, Ok(Index::Dynamic(p.0, p.1))),
            Err(e) => (s, Err(e)),
        }
    }

    /// Reads a reference kind and the slot of a member.
    pub open spec fn read_constant_index_handle(self) -> (ReaderView, Result<Index, ErrorView>) {
        let (s1, r1) = self.labelled("ref kind"@).read_u8();
        match r1 {
            Err(e) => (s1, Err(e)),
            Ok(kind) => {
                let (s2, r2) = s1.labelled("ref index"@).read_u16();
                match r2 {
                    Err(e) => (s2, Err(e)),
                    Ok(index) => (s2, Ok(Index::MethodHandle(kind, index))),
                }
            },
        }
    }

    /// Reads a 32-bit length and then a run of that many bytes.
    pub open spec fn read_vec_len_u32(self) -> (ReaderView, Result<Seq<u8>, ErrorView>) {
        let (s, r) = self.read_u32();
        match r {
            Ok(count) => s.read_bytes(count as int),
            Err(e) => (s, Err(e)),
        }
    }

    /// Reads one attribute: the slot of its name, then its content with the
    /// length in front.
    pub open spec fn read_attribute(self) -> (ReaderView, Result<AttributeInfoView, ErrorView>) {
        let (s1, r1) = self.labelled("name index"@).read_constant_index();
        match r1 {
            Err(e) => (s1, Err(e)),
            Ok(attribute_name_index) => {
                let (s2, r2) = s1.labelled("info"@).read_vec_len_u32();
                match r2 {
                    Err(e) => (s2, Err(e)),
                    Ok(info) => (s2, Ok(AttributeInfoView { attribute_name_index, info })),
                }
            },
        }
    }

    /// Reads a count and then that many attributes.
    pub open spec fn read_attributes(self) -> (
        ReaderView,
        Result<Seq<AttributeInfoView>, ErrorView>,
    ) {
        let (s, r) = self.labelled("attr count"@).read_u16();
        match r {
            Ok(count) => read_list(s, count as int, attribute_reader(), Seq::empty()),
            Err(e) => (s, Err(e)),
        }
    }

    /// Reads a count and then that many slot numbers.
    pub open spec fn read_interfaces(self) -> (ReaderView, Result<Seq<Index>, ErrorView>) {
        let (s, r) = self.read_u16();
        match r {
            Ok(count) => read_list(s, count as int, index_reader(), Seq::empty()),
            Err(e) => (s, Err(e)),
        }
    }

    /// Reads the access flags, the name and the descriptor that a field and
    /// a method both begin with.
    pub open spec fn read_member_head(self) -> (ReaderView, Result<(u16, Index, Index), ErrorView>) {
        let (s1, r1) = self.labelled("access flags"@).read_u16();
        match r1 {
            Err(e) => (s1, Err(e)),
            Ok(access_flags) => {
                let (s2, r2) = s1.labelled("name index"@).read_constant_index();
                match r2 {
                    Err(e) => (s2, Err(e)),
                    Ok(name_index) => {
                        let (s3, r3) = s2.labelled("descriptor index"@).read_constant_index();
                        match r3 {
                            Err(e) => (s3, Err(e)),
                            Ok(descriptor_index) => (
                                s3,
                                Ok((access_flags, name_index, descriptor_index)),
                            ),
                        }
                    },
                }
            },
        }
    }

    /// Reads one field.
    pub open spec fn read_field(self) -> (ReaderView, Result<FieldInfoView, ErrorView>) {
        let (s1, r1) = self.read_member_head();
        match r1 {
            Err(e) => (s1, Err(e)),
            Ok(head) => {
                let (s2, r2) = s1.labelled("attributes"@).read_attributes();
                match r2 {
                    Err(e) => (s2, Err(e)),
                    Ok(attributes) => (
                        s2,
                        Ok(
                            FieldInfoView {
                                access_flags: head.0,
                                name_index: head.1,
                                descriptor_index: head.2,
                                attributes,
                            },
                        ),
                    ),
                }
            },
        }
    }

    /// Reads one method.
    pub open spec fn read_method(self) -> (ReaderView, Result<MethodInfoView, ErrorView>) {
        let (s1, r1) = self.read_member_head();
        match r1 {
            Err(e) => (s1, Err(e)),
            Ok(head) => {
                let (s2, r2) = s1.read_attributes();
                match r2 {
                    Err(e) => (s2, Err(e)),
                    Ok(attributes) => (
                        s2,
                        Ok(
                            MethodInfoView {
                                access_flags: head.0,
                                name_index: head.1,
                                descriptor_index: head.2,
                                attributes,
                            },
                        ),
                    ),
                }
            },
        }
    }

    /// Reads a count and then that many fields.
    pub open spec fn read_fields(self) -> (ReaderView, Result<Seq<FieldInfoView>, ErrorView>) {
        let (s, r) = self.labelled("field count"@).read_u16();
        match r {
            Ok(count) => read_list(s, count as int, field_reader(), Seq::empty()),
            Err(e) => (s, Err(e)),
        }
    }

    /// Reads a count and then that many methods.
    pub open spec fn read_methods(self) -> (ReaderView, Result<Seq<MethodInfoView>, ErrorView>) {
        let (s, r) = self.labelled("method count"@).read_u16();
        match r {
            Ok(count) => read_list(s, count as int, method_reader(), Seq::empty()),
            Err(e) => (s, Err(e)),
        }
    }
}

/// How one slot number of a list is read.
pub open spec fn index_reader() -> spec_fn(ReaderView) -> (ReaderView, Result<Index, ErrorView>) {
    |s: ReaderView| s.read_constant_index()
}

/// How one attribute of a list is read.
pub open spec fn attribute_reader() -> spec_fn(ReaderView) -> (
    ReaderView,
    Result<AttributeInfoView, ErrorView>,
) {
    |s: ReaderView| s.read_attribute()
}

/// How one field of a list is read.
pub open spec fn field_reader() -> spec_fn(ReaderView) -> (
    ReaderView,
    Result<FieldInfoView, ErrorView>,
) {
    |s: ReaderView| s.read_field()
}

/// How one method of a list is read.
pub open spec fn method_reader() -> spec_fn(ReaderView) -> (
    ReaderView,
    Result<MethodInfoView, ErrorView>,
) {
    |s: ReaderView| s.read_method()
}

/// Each list that is read has as many items as the count in front of it
/// says.
pub proof fn lemma_lists_have_their_counts(s: ReaderView)
    ensures
        s.read_interfaces().1 matches Ok(items) ==> s.read_u16().1 == Ok::<u16, ErrorView>(
            items.len() as u16,
        ),
        s.read_fields().1 matches Ok(items) ==> s.labelled("field count"@).read_u16().1 == Ok::<
            u16,
            ErrorView,
        >(items.len() as u16),
        s.read_methods().1 matches Ok(items) ==> s.labelled("method count"@).read_u16().1 == Ok::<
            u16,
            ErrorView,
        >(items.len() as u16),
        s.read_attributes().1 matches Ok(items) ==> s.labelled("attr count"@).read_u16().1
            == Ok::<u16, ErrorView>(items.len() as u16),
{
    if let (s1, Ok(count)) = s.read_u16() {
        lemma_read_list_len(s1, count as int, index_reader(), Seq::empty());
    }
    if let (s1, Ok(count)) = s.labelled("field count"@).read_u16() {
        lemma_read_list_len(s1, count as int, field_reader(), Seq::empty());
    }
    if let (s1, Ok(count)) = s.labelled("method count"@).read_u16() {
        lemma_read_list_len(s1, count as int, method_reader(), Seq::empty());
    }
    if let (s1, Ok(count)) = s.labelled("attr count"@).read_u16() {
        lemma_read_list_len(s1, count as int, attribute_reader(), Seq::empty());
    }
}

/// Whether a way to read is blind to tracing: with tracing and without, it
/// has the same outcome and leaves the reader at the same place.
pub open spec fn blind_to_tracing<T>(
    read: spec_fn(ReaderView) -> (ReaderView, Result<T, ErrorView>),
) -> bool {
    forall|s: ReaderView|
        {
            &&& (#[trigger] read(s)).1 == read(s.untraced()).1
            &&& read(s).0.untraced() == read(s.untraced()).0
        }
}

/// A list is read blind to tracing where its items are.
pub proof fn lemma_read_list_blind_to_tracing<T>(
    s: ReaderView,
    n: int,
    read_one: spec_fn(ReaderView) -> (ReaderView, Result<T, ErrorView>),
    acc: Seq<T>,
)
    requires
        blind_to_tracing(read_one),
    ensures
        read_list(s, n, read_one, acc).1 == read_list(s.untraced(), n, read_one, acc).1,
        read_list(s, n, read_one, acc).0.untraced() == read_list(
            s.untraced(),
            n,
            read_one,
            acc,
        ).0,
    decreases n,
{
    if n > 0 {
        let (s1, r) = read_one(s);
        assert(read_one(s.untraced()) == (s1.untraced(), r));
        if let Ok(item) = r {
            lemma_read_list_blind_to_tracing(s1, n - 1, read_one, acc.push(item));
            lemma_read_list_blind_to_tracing(s1.untraced(), n - 1, read_one, acc.push(item));
        }
    }
}

/// A list of slot numbers and a list of attributes are read blind to
/// tracing.
pub proof fn lemma_attributes_blind_to_tracing(s: ReaderView)
    ensures
        blind_to_tracing(index_reader()),
        blind_to_tracing(attribute_reader()),
        s.read_interfaces().1 == s.untraced().read_interfaces().1,
        s.read_interfaces().0.untraced() == s.untraced().read_interfaces().0,
        s.read_attributes().1 == s.untraced().read_attributes().1,
        s.read_attributes().0.untraced() == s.untraced().read_attributes().0,
{
    assert(blind_to_tracing(index_reader()));
    assert(blind_to_tracing(attribute_reader()));
    let (s1, r) = s.labelled("attr count"@).read_u16();
    if let Ok(count) = r {
        lemma_read_list_blind_to_tracing(s1, count as int, attribute_reader(), Seq::empty());
    }
    let (s1, r) = s.read_u16();
    if let Ok(count) = r {
        lemma_read_list_blind_to_tracing(s1, count as int, index_reader(), Seq::empty());
    }
}

/// A list of fields and a list of methods are read blind to tracing.
pub proof fn lemma_members_blind_to_tracing(s: ReaderView)
    ensures
        blind_to_tracing(field_reader()),
        blind_to_tracing(method_reader()),
        s.read_fields().1 == s.untraced().read_fields().1,
        s.read_fields().0.untraced() == s.untraced().read_fields().0,
        s.read_methods().1 == s.untraced().read_methods().1,
        s.read_methods().0.untraced() == s.untraced().read_methods().0,
{
    assert forall|s: ReaderView|
        {
            &&& (#[trigger] s.read_field()).1 == s.untraced().read_field().1
            &&& s.read_field().0.untraced() == s.untraced().read_field().0
        } by {
        let (s1, r1) = s.read_member_head();
        if r1 is Ok {
            let s2 = s1.labelled("attributes"@);
            lemma_attributes_blind_to_tracing(s2);
            assert(s2.untraced() == s1.untraced().labelled("attributes"@));
        }
    }
    assert forall|s: ReaderView|
        {
            &&& (#[trigger] s.read_method()).1 == s.untraced().read_method().1
            &&& s.read_method().0.untraced() == s.untraced().read_method().0
        } by {
        let (s1, r1) = s.read_member_head();
        if r1 is Ok {
            lemma_attributes_blind_to_tracing(s1);
        }
    }
    assert(blind_to_tracing(field_reader()));
    assert(blind_to_tracing(method_reader()));
    let (s1, r) = s.labelled("field count"@).read_u16();
    if let Ok(count) = r {
        lemma_read_list_blind_to_tracing(s1, count as int, field_reader(), Seq::empty());
    }
    let (s1, r) = s.labelled("method count"@).read_u16();
    if let Ok(count) = r {
        lemma_read_list_blind_to_tracing(s1, count as int, method_reader(), Seq::empty());
    }
}

/// A sequential reader over the bytes of a class file.
pub struct ClassFileReader {
    bytes: Vec<u8>,
    pos: usize,
    mode: Dump,
    file_name: String,
    context: Option<String>,
    trace: Vec<TraceRecord>,
}

impl View for ClassFileReader {
    type V = ReaderView;

    closed spec fn view(&self) -> ReaderView {
        ReaderView {
            bytes: self.bytes@,
            pos: self.pos as int,
            mode: self.mode,
            file_name: self.file_name@,
            context: self.context.deep_view(),
            trace: self.trace.deep_view(),
        }
    }
}

/// A copy of a label.
fn copy_label(label: &Option<String>) -> (r: Option<String>)
    ensures
        r.deep_view() == label.deep_view(),
{
    match label {
        Some(s) => Some(s.clone()),
        None => None,
    }
}

/// std's `String::from_utf8`: the bytes as a text where they are valid
/// UTF-8, and nothing where they are not.  The text is the one that the
/// bytes encode.
#[verifier::external_body]
fn string_from_utf8(bytes: Vec<u8>) -> (r: Option<String>)
    ensures
        r is Some <==> valid_utf8(bytes@),
        r matches Some(s) ==> s@ == decode_utf8(bytes@),
{
    match String::from_utf8(bytes) {
        Ok(s) => Some(s),
        Err(_) => None,
    }
}

/// The integer that the two bytes of `buf` encode.
fn be_u16_of(buf: &Vec<u8>) -> (r: u16)
    requires
        buf@.len() == 2,
    ensures
        r == be_u16(buf@),
{
    (buf[0] as u16) * 0x100 + (buf[1] as u16)
}

/// The integer that the four bytes of `buf` encode.
fn be_u32_of(buf: &Vec<u8>) -> (r: u32)
    requires
        buf@.len() == 4,
    ensures
        r == be_u32(buf@),
{
    (buf[0] as u32) * 0x100_0000 + (buf[1] as u32) * 0x1_0000 + (buf[2] as u32) * 0x100 + (
    buf[3] as u32)
}

/// The integer that the eight bytes of `buf` encode.
fn be_u64_of(buf: &Vec<u8>) -> (r: u64)
    requires
        buf@.len() == 8,
    ensures
        r == be_u64(buf@),
{
    let hi = (buf[0] as u64) * 0x100_0000 + (buf[1] as u64) * 0x1_0000 + (buf[2] as u64) * 0x100
        + (buf[3] as u64);
    let lo = (buf[4] as u64) * 0x100_0000 + (buf[5] as u64) * 0x1_0000 + (buf[6] as u64) * 0x100
        + (buf[7] as u64);
    hi * 0x1_0000_0000 + lo
}

impl ClassFileReader {
    #[verifier::type_invariant]
    spec fn within_input(&self) -> bool {
        self.pos <= self.bytes.len()
    }

    /// A reader at the start of `bytes`, which were read from `file_name`.
    pub fn new(file_name: &String, bytes: Vec<u8>, dump: Dump) -> (r: Self)
        ensures
            r@ == (ReaderView {
                bytes: bytes@,
                pos: 0,
                mode: dump,
                file_name: file_name@,
                context: None,
                trace: Seq::empty(),
            }),
    {
        let r = ClassFileReader {
            bytes,
            pos: 0,
            mode: dump,
            file_name: file_name.clone(),
            context: None,
            trace: Vec::new(),
        };
        assert(r.trace.deep_view() =~= Seq::empty());
        r
    }

    /// The name under which the input is known.
    pub fn file_name(&self) -> (r: &String)
        ensures
            r@ == self@.file_name,
    {
        &self.file_name
    }

    /// How many bytes have been consumed.
    pub fn position(&self) -> (r: usize)
        ensures
            r == self@.pos,
            0 <= self@.pos <= self@.bytes.len(),
    {
        proof {
            use_type_invariant(self);
        }
        self.pos
    }

    /// The fields traced so far, oldest first.
    pub fn trace(&self) -> (r: &Vec<TraceRecord>)
        ensures
            r.deep_view() == self@.trace,
    {
        &self.trace
    }

    /// Attaches `context` to the next read of a fixed-width field.
    pub fn context(&mut self, context: &str) -> (r: &mut Self)
        ensures
            r@ == old(self)@.labelled(context@),
            *final(self) == *final(r),
    {
        proof {
            use_type_invariant(&*self);
        }
        self.context = Some(context.to_owned());
        self
    }

    /// A copy of the next `n` bytes, where there are that many.
    fn peek(&self, n: usize) -> (r: Option<Vec<u8>>)
        ensures
            r is Some <==> self@.available(n as int),
            r matches Some(buf) ==> buf@ == self@.window(n as int),
    {
        proof {
            use_type_invariant(self);
        }
        if n <= self.bytes.len() - self.pos {
            Some(slice_to_vec(slice_subrange(self.bytes.as_slice(), self.pos, self.pos + n)))
        } else {
            None
        }
    }

    /// Moves past the next `n` bytes.
    fn advance(&mut self, n: usize)
        requires
            old(self)@.available(n as int),
        ensures
            final(self)@ == old(self)@.advanced(n as int),
    {
        proof {
            use_type_invariant(&*self);
        }
        self.pos = self.pos + n;
    }

    /// The failure of a read of `n` bytes at the present position.
    fn short(&self, n: usize) -> (r: Error)
        ensures
            r@ == self@.short(n as int),
    {
        Error::TruncatedInput { offset: self.pos, needed: n, label: copy_label(&self.context) }
    }

    /// Appends `record` to the trace.
    fn record(&mut self, record: TraceRecord)
        ensures
            final(self)@ == (ReaderView {
                trace: old(self)@.trace.push(record.deep_view()),
                ..old(self)@
            }),
    {
        proof {
            use_type_invariant(&*self);
        }
        // The trace is taken out of the reader while it grows.
        let mut trace: Vec<TraceRecord> = Vec::new();
        core::mem::swap(&mut self.trace, &mut trace);
        let ghost before = trace.deep_view();
        trace.push(record);
        assert(trace.deep_view() =~= before.push(record.deep_view()));
        core::mem::swap(&mut self.trace, &mut trace);
    }

    /// Offers a text that was read at `pos` to the trace, and hands it back.
    pub fn dump_string(&mut self, pos: usize, s: String) -> (r: String)
        ensures
            r@ == s@,
            final(self)@ == old(self)@.dumped_string(pos as int, s@),
    {
        proof {
            use_type_invariant(&*self);
        }
        match self.mode {
            Dump::Hex | Dump::Byte => {
                let record = TraceRecord {
                    offset: pos,
                    label: None,
                    bytes: Vec::new(),
                    value: TraceValue::Text(s.clone()),
                };
                assert(record.bytes@ =~= Seq::empty());
                self.record(record);
            },
            Dump::Off => (),
        }
        s
    }

    /// Offers a run of bytes that was read at `pos` to the trace, sixteen
    /// bytes to a record, and hands the run back.
    pub fn dump_bytes<'a>(&mut self, pos: usize, buf: &'a [u8]) -> (r: &'a [u8])
        requires
            pos + buf@.len() <= usize::MAX,
        ensures
            r@ == buf@,
            final(self)@ == old(self)@.dumped_bytes(pos as int, buf@),
    {
        proof {
            use_type_invariant(&*self);
        }
        match self.mode {
            Dump::Hex | Dump::Byte => {
                let ghost before = self.trace.deep_view();
                let len = buf.len();
                let mut done: usize = 0;
                assert(buf@.subrange(0, len as int) =~= buf@);
                while len - done > 16
                    invariant
                        done <= len,
                        len == buf@.len(),
                        pos + len <= usize::MAX,
                        self@ == (ReaderView { trace: self@.trace, ..old(self)@ }),
                        before + chunk_records(pos as int, buf@) == self@.trace + chunk_records(
                            pos + done,
                            buf@.subrange(done as int, len as int),
                        ),
                    decreases len - done,
                {
                    let ghost sofar = self@.trace;
                    let ghost rest = buf@.subrange(done as int, len as int);
                    let record = TraceRecord {
                        offset: pos + done,
                        label: None,
                        bytes: slice_to_vec(slice_subrange(buf, done, done + 16)),
                        value: TraceValue::Raw,
                    };
                    self.record(record);
                    proof {
                        assert(rest.subrange(0, 16) =~= buf@.subrange(done as int, done + 16));
                        assert(rest.subrange(16, rest.len() as int) =~= buf@.subrange(
                            done + 16,
                            len as int,
                        ));
                        assert(sofar + chunk_records(pos + done, rest) =~= sofar.push(
                            record.deep_view(),
                        ) + chunk_records(pos + done + 16, rest.subrange(16, rest.len() as int)));
                    }
                    done = done + 16;
                }
                if len - done > 0 {
                    let ghost sofar = self@.trace;
                    let record = TraceRecord {
                        offset: pos + done,
                        label: None,
                        bytes: slice_to_vec(slice_subrange(buf, done, len)),
                        value: TraceValue::Raw,
                    };
                    self.record(record);
                    proof {
                        assert(sofar + chunk_records(
                            pos + done,
                            buf@.subrange(done as int, len as int),
                        ) =~= sofar.push(record.deep_view()));
                    }
                } else {
                    assert(self@.trace + chunk_records(
                        pos + done,
                        buf@.subrange(done as int, len as int),
                    ) =~= self@.trace);
                }
            },
            Dump::Off => (),
        }
        buf
    }

    /// Offers a fixed-width field that was read at `pos` to the trace.  The
    /// pending label goes with it and is used up.
    pub fn dump(&mut self, pos: usize, buf: &[u8], num: TraceValue)
        ensures
            final(self)@ == old(self)@.dumped(pos as int, buf@, num.deep_view()),
    {
        proof {
            use_type_invariant(&*self);
        }
        match self.mode {
            Dump::Hex | Dump::Byte => {
                let record = TraceRecord {
                    offset: pos,
                    label: copy_label(&self.context),
                    bytes: slice_to_vec(buf),
                    value: num,
                };
                self.record(record);
            },
            Dump::Off => (),
        }
        self.context = None;
    }

    /// Reads the bits of a 64-bit floating-point number, most significant
    /// byte first.
    pub fn read_f64(&mut self) -> (r: Result<u64, Error>)
        ensures
            (final(self)@, outcome(r)) == old(self)@.read_f64(),
    {
        let pos = self.pos;
        match self.peek(8) {
            Some(buf) => {
                let v = be_u64_of(&buf);
                self.advance(8);
                self.dump(pos, buf.as_slice(), TraceValue::Double(v));
                Ok(v)
            },
            None => Err(self.short(8)),
        }
    }

    /// Reads the bits of a 32-bit floating-point number, most significant
    /// byte first.
    pub fn read_f32(&mut self) -> (r: Result<u32, Error>)
        ensures
            (final(self)@, outcome(r)) == old(self)@.read_f32(),
    {
        let pos = self.pos;
        match self.peek(4) {
            Some(buf) => {
                let v = be_u32_of(&buf);
                self.advance(4);
                self.dump(pos, buf.as_slice(), TraceValue::Float(v));
                Ok(v)
            },
            None => Err(self.short(4)),
        }
    }

    /// Reads a 64-bit unsigned integer, most significant byte first.
    pub fn read_u64(&mut self) -> (r: Result<u64, Error>)
        ensures
            (final(self)@, outcome(r)) == old(self)@.read_u64(),
    {
        let pos = self.pos;
        match self.peek(8) {
            Some(buf) => {
                let v = be_u64_of(&buf);
                self.advance(8);
                self.dump(pos, buf.as_slice(), TraceValue::Unsigned(v));
                Ok(v)
            },
            None => Err(self.short(8)),
        }
    }

    /// Reads a 32-bit unsigned integer, most significant byte first.
    pub fn read_u32(&mut self) -> (r: Result<u32, Error>)
        ensures
            (final(self)@, outcome(r)) == old(self)@.read_u32(),
    {
        let pos = self.pos;
        match self.peek(4) {
            Some(buf) => {
                let v = be_u32_of(&buf);
                self.advance(4);
                self.dump(pos, buf.as_slice(), TraceValue::Unsigned(v as u64));
                Ok(v)
            },
            None => Err(self.short(4)),
        }
    }

    /// Reads a 16-bit unsigned integer, most significant byte first.
    pub fn read_u16(&mut self) -> (r: Result<u16, Error>)
        ensures
            (final(self)@, outcome(r)) == old(self)@.read_u16(),
    {
        let pos = self.pos;
        match self.peek(2) {
            Some(buf) => {
                let v = be_u16_of(&buf);
                self.advance(2);
                self.dump(pos, buf.as_slice(), TraceValue::Unsigned(v as u64));
                Ok(v)
            },
            None => Err(self.short(2)),
        }
    }

    /// Reads one byte.
    pub fn read_u8(&mut self) -> (r: Result<u8, Error>)
        ensures
            (final(self)@, outcome(r)) == old(self)@.read_u8(),
    {
        let pos = self.pos;
        match self.peek(1) {
            Some(buf) => {
                let v = buf[0];
                self.advance(1);
                self.dump(pos, buf.as_slice(), TraceValue::Unsigned(v as u64));
                Ok(v)
            },
            None => Err(self.short(1)),
        }
    }

    /// Reads a run of `len` bytes.
    pub fn read_bytes(&mut self, len: usize) -> (r: Result<Vec<u8>, Error>)
        ensures
            (final(self)@, outcome(r)) == old(self)@.read_bytes(len as int),
            r matches Ok(buf) ==> buf@ == old(self)@.window(len as int),
    {
        let pos = self.pos;
        match self.peek(len) {
            Some(buf) => {
                proof {
                    use_type_invariant(&*self);
                }
                self.advance(len);
                self.dump_bytes(pos, buf.as_slice());
                assert(buf.deep_view() =~= buf@);
                Ok(buf)
            },
            None => Err(self.short(len)),
        }
    }

    /// Reads a text of `len` bytes of UTF-8.
    pub fn read_string(&mut self, len: usize) -> (r: Result<String, Error>)
        ensures
            (final(self)@, outcome(r)) == old(self)@.read_string(len as int),
    {
        let pos = self.pos;
        match self.peek(len) {
            Some(buf) => match string_from_utf8(buf) {
                Some(text) => {
                    self.advance(len);
                    Ok(self.dump_string(pos, text))
                },
                None => Err(Error::MalformedUtf8 { offset: pos }),
            },
            None => Err(self.short(len)),
        }
    }

    /// Reads the slot number of a constant.
    pub fn read_constant_index(&mut self) -> (r: Result<Index, Error>)
        ensures
            (final(self)@, outcome(r)) == old(self)@.read_constant_index(),
    {
        let v = self.read_u16()?;
        Ok(Index::Single(v))
    }

    /// Reads two slot numbers, labelled `first` and `second`.
    fn read_two(&mut self, first: &str, second: &str) -> (r: Result<(u16, u16), Error>)
        ensures
            (final(self)@, outcome(r)) == old(self)@.read_two(first@, second@),
    {
        let a = self.context(first).read_u16()?;
        let b = self.context(second).read_u16()?;
        Ok((a, b))
    }

    /// Reads a name and a descriptor.
    pub fn read_constant_index_pair(&mut self) -> (r: Result<Index, Error>)
        ensures
            (final(self)@, outcome(r)) == old(self)@.read_constant_index_pair(),
    {
        let p = self.read_two("name", "type")?;
        Ok(Index::Pair(p.0, p.1))
    }

    /// Reads a class and a name-and-type.
    pub fn read_constant_index_ref(&mut self) -> (r: Result<Index, Error>)
        ensures
            (final(self)@, outcome(r)) == old(self)@.read_constant_index_ref(),
    {
        let p = self.read_two("class", "name & type")?;
        Ok(Index::Ref(p.0, p.1))
    }

    /// Reads a bootstrap method and a name-and-type.
    pub fn read_constant_index_dynamic(&mut self) -> (r: Result<Index, Error>)
        ensures
            (final(self)@, outcome(r)) == old(self)@.read_constant_index_dynamic(),
    {
        let p = self.read_two("bootstrap index", "name & type")?;
        Ok(Index::Dynamic(p.0, p.1))
    }

    /// Reads a reference kind and the slot of a member.
    pub fn read_constant_index_handle(&mut self) -> (r: Result<Index, Error>)
        ensures
            (final(self)@, outcome(r)) == old(self)@.read_constant_index_handle(),
    {
        let kind = self.context("ref kind").read_u8()?;
        let index = self.context("ref index").read_u16()?;
        Ok(Index::MethodHandle(kind, index))
    }

    /// Reads a count and then that many slot numbers.  Where it succeeds,
    /// there are as many as the count says.
    #[verifier::loop_isolation(false)]
    pub fn read_interfaces(&mut self) -> (r: Result<Vec<Index>, Error>)
        ensures
            (final(self)@, outcome(r)) == old(self)@.read_interfaces(),
            r matches Ok(items) ==> old(self)@.read_u16().1 == Ok::<u16, ErrorView>(
                items.len() as u16,
            ),
    {
        let count = self.read_u16()?;
        let ghost start = self@;
        let mut interfaces: Vec<Index> = Vec::with_capacity(count as usize);
        let mut i: u16 = 0;
        assert(interfaces.deep_view() =~= Seq::empty());
        while i < count
            invariant
                i <= count,
                interfaces.len() == i,
                read_list(start, count as int, index_reader(), Seq::empty()) == read_list(
                    self@,
                    count - i,
                    index_reader(),
                    interfaces.deep_view(),
                ),
            decreases count - i,
        {
            let ghost before = interfaces.deep_view();
            let item = self.read_constant_index()?;
            interfaces.push(item);
            assert(interfaces.deep_view() =~= before.push(item.deep_view()));
            i = i + 1;
        }
        Ok(interfaces)
    }

    /// Reads a count and then that many fields.  Where it succeeds, there
    /// are as many as the count says.
    #[verifier::loop_isolation(false)]
    pub fn read_fields(&mut self) -> (r: Result<Vec<FieldInfo>, Error>)
        ensures
            (final(self)@, outcome(r)) == old(self)@.read_fields(),
            r matches Ok(items) ==> old(self)@.labelled("field count"@).read_u16().1 == Ok::<
                u16,
                ErrorView,
            >(items.len() as u16),
    {
        let count = self.context("field count").read_u16()?;
        let ghost start = self@;
        let mut fields: Vec<FieldInfo> = Vec::with_capacity(count as usize);
        let mut i: u16 = 0;
        assert(fields.deep_view() =~= Seq::empty());
        while i < count
            invariant
                i <= count,
                fields.len() == i,
                read_list(start, count as int, field_reader(), Seq::empty()) == read_list(
                    self@,
                    count - i,
                    field_reader(),
                    fields.deep_view(),
                ),
            decreases count - i,
        {
            let ghost before = fields.deep_view();
            let item = FieldInfo::new(self)?;
            fields.push(item);
            assert(fields.deep_view() =~= before.push(item.deep_view()));
            i = i + 1;
        }
        Ok(fields)
    }

    /// Reads a 32-bit length and then a run of that many bytes.
    fn read_vec_len_u32(&mut self) -> (r: Result<Vec<u8>, Error>)
        ensures
            (final(self)@, outcome(r)) == old(self)@.read_vec_len_u32(),
            r matches Ok(buf) ==> buf.deep_view() == buf@,
    {
        let count = self.read_u32()?;
        let buf = self.read_bytes(count as usize)?;
        assert(buf.deep_view() =~= buf@);
        Ok(buf)
    }

    /// Reads a count and then that many attributes.  Where it succeeds,
    /// there are as many as the count says.
    #[verifier::loop_isolation(false)]
    pub fn read_attributes(&mut self) -> (r: Result<Vec<AttributeInfo>, Error>)
        ensures
            (final(self)@, outcome(r)) == old(self)@.read_attributes(),
            r matches Ok(items) ==> old(self)@.labelled("attr count"@).read_u16().1 == Ok::<
                u16,
                ErrorView,
            >(items.len() as u16),
    {
        let count = self.context("attr count").read_u16()?;
        let ghost start = self@;
        let mut attributes: Vec<AttributeInfo> = Vec::with_capacity(count as usize);
        let mut i: u16 = 0;
        assert(attributes.deep_view() =~= Seq::empty());
        while i < count
            invariant
                i <= count,
                attributes.len() == i,
                read_list(start, count as int, attribute_reader(), Seq::empty()) == read_list(
                    self@,
                    count - i,
                    attribute_reader(),
                    attributes.deep_view(),
                ),
            decreases count - i,
        {
            let ghost before = attributes.deep_view();
            let attribute_name_index = self.context("name index").read_constant_index()?;
            let info = self.context("info").read_vec_len_u32()?;
            let item = AttributeInfo { attribute_name_index, info };
            attributes.push(item);
            assert(attributes.deep_view() =~= before.push(item.deep_view()));
            i = i + 1;
        }
        Ok(attributes)
    }

    /// Reads the access flags, the name and the descriptor that a field and
    /// a method both begin with.
    fn read_member_head(&mut self) -> (r: Result<(u16, Index, Index), Error>)
        ensures
            (final(self)@, outcome(r)) == old(self)@.read_member_head(),
    {
        let access_flags = self.context("access flags").read_u16()?;
        let name_index = self.context("name index").read_constant_index()?;
        let descriptor_index = self.context("descriptor index").read_constant_index()?;
        Ok((access_flags, name_index, descriptor_index))
    }

    /// Reads a count and then that many methods.  Where it succeeds, there
    /// are as many as the count says.
    #[verifier::loop_isolation(false)]
    pub fn read_methods(&mut self) -> (r: Result<Vec<MethodInfo>, Error>)
        ensures
            (final(self)@, outcome(r)) == old(self)@.read_methods(),
            r matches Ok(items) ==> old(self)@.labelled("method count"@).read_u16().1 == Ok::<
                u16,
                ErrorView,
            >(items.len() as u16),
    {
        let count = self.context("method count").read_u16()?;
        let ghost start = self@;
        let mut methods: Vec<MethodInfo> = Vec::with_capacity(count as usize);
        let mut i: u16 = 0;
        assert(methods.deep_view() =~= Seq::empty());
        while i < count
            invariant
                i <= count,
                methods.len() == i,
                read_list(start, count as int, method_reader(), Seq::empty()) == read_list(
                    self@,
                    count - i,
                    method_reader(),
                    methods.deep_view(),
                ),
            decreases count - i,
        {
            let ghost before = methods.deep_view();
            let head = self.read_member_head()?;
            let attributes = self.read_attributes()?;
            let item = MethodInfo {
                access_flags: head.0,
                name_index: head.1,
                descriptor_index: head.2,
                attributes,
            };
            methods.push(item);
            assert(methods.deep_view() =~= before.push(item.deep_view()));
            i = i + 1;
        }
        Ok(methods)
    }
}

impl FieldInfo {
    /// Reads one field.
    pub fn new(reader: &mut ClassFileReader) -> (r: Result<Self, Error>)
        ensures
            (final(reader)@, outcome(r)) == old(reader)@.read_field(),
    {
        let head = reader.read_member_head()?;
        let attributes = reader.context("attributes").read_attributes()?;
        Ok(
            FieldInfo {
                access_flags: head.0,
                name_index: head.1,
                descriptor_index: head.2,
                attributes,
            },
        )
    }
}

} // verus!
