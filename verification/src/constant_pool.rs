//! The constant pool: its entries, its literals, and how a reference is
//! resolved into text.
//!
//! Slots are numbered from one.  Slot zero is never filled, and the slot
//! after a 64-bit constant is reserved: neither can be resolved.
use vstd::prelude::*;
use vstd::string::StringExecFns;
use std::collections::HashMap;
use crate::class_file_reader::{ClassFileReader, Index, ReaderView};
use crate::error::{outcome, Error, ErrorView};
use crate::text::{decimal, hex, u64_to_decimal, u64_to_hex};

verus! {

/// The kind of a constant.
#[derive(Clone, Copy, Debug, PartialEq, Eq, Structural)]
pub enum Tag {
    Utf8,
    Integer,
    Float,
    Long,
    Double,
    Class,
    String,
    FieldRef,
    MethodRef,
    InterfaceMethodRef,
    NameAndType,
    MethodHandle,
    MethodType,
    Dynamic,
    InvokeDynamic,
    Module,
    Package,
}

impl Tag {
    /// The byte that stands for the kind in a class file.
    pub open spec fn value(self) -> u8 {
        match self {
            Tag::Utf8 => 1,
            Tag::Integer => 3,
            Tag::Float => 4,
            Tag::Long => 5,
            Tag::Double => 6,
            Tag::Class => 7,
            Tag::String => 8,
            Tag::FieldRef => 9,
            Tag::MethodRef => 10,
            Tag::InterfaceMethodRef => 11,
            Tag::NameAndType => 12,
            Tag::MethodHandle => 15,
            Tag::MethodType => 16,
            Tag::Dynamic => 17,
            Tag::InvokeDynamic => 18,
            Tag::Module => 19,
            Tag::Package => 20,
        }
    }

    /// The kind that `byte` stands for, if it stands for one.
    pub open spec fn of(byte: u8) -> Option<Tag> {
        if byte == 1 {
            Some(Tag::Utf8)
        } else if byte == 3 {
            Some(Tag::Integer)
        } else if byte == 4 {
            Some(Tag::Float)
        } else if byte == 5 {
            Some(Tag::Long)
        } else if byte == 6 {
            Some(Tag::Double)
        } else if byte == 7 {
            Some(Tag::Class)
        } else if byte == 8 {
            Some(Tag::String)
        } else if byte == 9 {
            Some(Tag::FieldRef)
        } else if byte == 10 {
            Some(Tag::MethodRef)
        } else if byte == 11 {
            Some(Tag::InterfaceMethodRef)
        } else if byte == 12 {
            Some(Tag::NameAndType)
        } else if byte == 15 {
            Some(Tag::MethodHandle)
        } else if byte == 16 {
            Some(Tag::MethodType)
        } else if byte == 17 {
            Some(Tag::Dynamic)
        } else if byte == 18 {
            Some(Tag::InvokeDynamic)
        } else if byte == 19 {
            Some(Tag::Module)
        } else if byte == 20 {
            Some(Tag::Package)
        } else {
            None
        }
    }

    /// Whether a constant of this kind fills two slots.
    pub open spec fn is_wide(self) -> bool {
        self == Tag::Long || self == Tag::Double
    }

    /// Whether a constant of this kind holds a literal.
    pub open spec fn holds_literal(self) -> bool {
        self == Tag::Utf8 || self == Tag::Integer || self == Tag::Float || self == Tag::Long
            || self == Tag::Double
    }

    /// The name of the kind, padded for a listing.
    pub open spec fn name(self) -> Seq<char> {
        match self {
            Tag::Utf8 => "Utf8              "@,
            Tag::Integer => "Integer           "@,
            Tag::Float => "Float             "@,
            Tag::Long => "Long              "@,
            Tag::Double => "Double            "@,
            Tag::Class => "Class             "@,
            Tag::String => "String            "@,
            Tag::FieldRef => "FieldRef          "@,
            Tag::MethodRef => "MethodRef         "@,
            Tag::InterfaceMethodRef => "InterfaceMethodRef"@,
            Tag::NameAndType => "NameAndType       "@,
            Tag::MethodHandle => "MethodHandle      "@,
            Tag::MethodType => "MethodType        "@,
            Tag::Dynamic => "Dynamic     "@,
            Tag::InvokeDynamic => "InvokeDynamic     "@,
            Tag::Module => "Module            "@,
            Tag::Package => "Package           "@,
        }
    }

    /// The byte that stands for the kind in a class file.
    pub fn to_u8(&self) -> (r: u8)
        ensures
            r == self.value(),
    {
        match self {
            Tag::Utf8 => 1,
            Tag::Integer => 3,
            Tag::Float => 4,
            Tag::Long => 5,
            Tag::Double => 6,
            Tag::Class => 7,
            Tag::String => 8,
            Tag::FieldRef => 9,
            Tag::MethodRef => 10,
            Tag::InterfaceMethodRef => 11,
            Tag::NameAndType => 12,
            Tag::MethodHandle => 15,
            Tag::MethodType => 16,
            Tag::Dynamic => 17,
            Tag::InvokeDynamic => 18,
            Tag::Module => 19,
            Tag::Package => 20,
        }
    }

    /// The kind that `byte` stands for, if it stands for one.
    pub fn from_u8(byte: u8) -> (r: Option<Tag>)
        ensures
            r == Tag::of(byte),
    {
        match byte {
            1 => Some(Tag::Utf8),
            3 => Some(Tag::Integer),
            4 => Some(Tag::Float),
            5 => Some(Tag::Long),
            6 => Some(Tag::Double),
            7 => Some(Tag::Class),
            8 => Some(Tag::String),
            9 => Some(Tag::FieldRef),
            10 => Some(Tag::MethodRef),
            11 => Some(Tag::InterfaceMethodRef),
            12 => Some(Tag::NameAndType),
            15 => Some(Tag::MethodHandle),
            16 => Some(Tag::MethodType),
            17 => Some(Tag::Dynamic),
            18 => Some(Tag::InvokeDynamic),
            19 => Some(Tag::Module),
            20 => Some(Tag::Package),
            _ => None,
        }
    }

    /// Whether a constant of this kind fills two slots.
    pub fn fills_two_slots(&self) -> (r: bool)
        ensures
            r == self.is_wide(),
    {
        match self {
            Tag::Long | Tag::Double => true,
            _ => false,
        }
    }

    /// Renders the name of the kind, padded for a listing.
    pub fn to_string(&self) -> (r: String)
        ensures
            r@ == self.name(),
    {
        let name = match self {
            Tag::Utf8 => "Utf8              ",
            Tag::Integer => "Integer           ",
            Tag::Float => "Float             ",
            Tag::Long => "Long              ",
            Tag::Double => "Double            ",
            Tag::Class => "Class             ",
            Tag::String => "String            ",
            Tag::FieldRef => "FieldRef          ",
            Tag::MethodRef => "MethodRef         ",
            Tag::InterfaceMethodRef => "InterfaceMethodRef",
            Tag::NameAndType => "NameAndType       ",
            Tag::MethodHandle => "MethodHandle      ",
            Tag::MethodType => "MethodType        ",
            Tag::Dynamic => "Dynamic     ",
            Tag::InvokeDynamic => "InvokeDynamic     ",
            Tag::Module => "Module            ",
            Tag::Package => "Package           ",
        };
        String::from_str(name)
    }
}

/// A kind and the byte that stands for it determine each other.
pub proof fn lemma_tag_round_trip(tag: Tag, byte: u8)
    ensures
        Tag::of(tag.value()) == Some(tag),
        Tag::of(byte) matches Some(t) ==> t.value() == byte,
{
}

/// An entry of the pool: its kind and its payload.
#[derive(Clone, Copy, Debug, PartialEq, Eq, Structural)]
pub struct ConstantInfo(pub Tag, pub Index);

impl ConstantInfo {
    /// The entry as a listing shows it: the kind, a space, and the payload.
    pub open spec fn text(self) -> Seq<char> {
        self.0.name() + seq![' '] + self.1.text()
    }

    /// Renders the entry as a listing shows it.
    pub fn to_string(&self) -> (r: String)
        ensures
            r@ == self.text(),
    {
        proof {
            reveal_strlit(" ");
        }
        let mut s = self.0.to_string();
        s.append(" ");
        s.append(self.1.to_string().as_str());
        assert(s@ =~= self.text());
        s
    }
}

/// A literal of the pool.  Floating-point numbers are held as their bits.
#[derive(Debug, Clone, PartialEq, Eq)]
pub enum LiteralInfo {
    String(String),
    Integer(u32),
    Float(u32),
    Long(u64),
    Double(u64),
}

/// The mathematical value of a [`LiteralInfo`].
pub enum LiteralView {
    String(Seq<char>),
    Integer(u32),
    Float(u32),
    Long(u64),
    Double(u64),
}

impl DeepView for LiteralInfo {
    type V = LiteralView;

    open spec fn deep_view(&self) -> LiteralView {
        match *self {
            LiteralInfo::String(s) => LiteralView::String(s@),
            LiteralInfo::Integer(v) => LiteralView::Integer(v),
            LiteralInfo::Float(v) => LiteralView::Float(v),
            LiteralInfo::Long(v) => LiteralView::Long(v),
            LiteralInfo::Double(v) => LiteralView::Double(v),
        }
    }
}

impl LiteralView {
    /// The literal as text: a text as it is, an integer in decimal, and the
    /// bits of a floating-point number in hexadecimal after `0x`.
    pub open spec fn text(self) -> Seq<char> {
        match self {
            LiteralView::String(s) => s,
            LiteralView::Integer(v) => decimal(v as nat),
            LiteralView::Float(v) => seq!['0', 'x'] + hex(v as nat, 8),
            LiteralView::Long(v) => decimal(v as nat),
            LiteralView::Double(v) => seq!['0', 'x'] + hex(v as nat, 16),
        }
    }

    /// The kind of constant that holds such a literal.
    pub open spec fn tag(self) -> Tag {
        match self {
            LiteralView::String(_) => Tag::Utf8,
            LiteralView::Integer(_) => Tag::Integer,
            LiteralView::Float(_) => Tag::Float,
            LiteralView::Long(_) => Tag::Long,
            LiteralView::Double(_) => Tag::Double,
        }
    }
}

impl LiteralInfo {
    /// Renders the literal as text.
    pub fn to_string(&self) -> (r: String)
        ensures
            r@ == self.deep_view().text(),
    {
        proof {
            reveal_strlit("0x");
        }
        match self {
            LiteralInfo::String(s) => s.clone(),
            LiteralInfo::Integer(v) => u64_to_decimal(*v as u64),
            LiteralInfo::Float(v) => {
                let mut s = String::from_str("0x");
                s.append(u64_to_hex(*v as u64, 8).as_str());
                assert(s@ =~= self.deep_view().text());
                s
            },
            LiteralInfo::Long(v) => u64_to_decimal(*v),
            LiteralInfo::Double(v) => {
                let mut s = String::from_str("0x");
                s.append(u64_to_hex(*v, 16).as_str());
                assert(s@ =~= self.deep_view().text());
                s
            },
        }
    }

    /// A copy of the literal.
    pub fn duplicate(&self) -> (r: LiteralInfo)
        ensures
            r.deep_view() == self.deep_view(),
    {
        match self {
            LiteralInfo::String(s) => LiteralInfo::String(s.clone()),
            LiteralInfo::Integer(v) => LiteralInfo::Integer(*v),
            LiteralInfo::Float(v) => LiteralInfo::Float(*v),
            LiteralInfo::Long(v) => LiteralInfo::Long(*v),
            LiteralInfo::Double(v) => LiteralInfo::Double(*v),
        }
    }
}

/// A constant as it was decoded: the entry, and the literal that it holds
/// where it holds one.
#[derive(Debug, Clone, PartialEq, Eq)]
pub struct Constant {
    pub info: ConstantInfo,
    pub literal: Option<LiteralInfo>,
}

/// The mathematical value of a [`Constant`].
pub struct ConstantView {
    pub info: ConstantInfo,
    pub literal: Option<LiteralView>,
}

impl DeepView for Constant {
    type V = ConstantView;

    open spec fn deep_view(&self) -> ConstantView {
        ConstantView { info: self.info, literal: self.literal.deep_view() }
    }
}

/// The constant that a payload of kind `tag` makes, once it was read.
pub open spec fn entry_of(tag: Tag, r: (ReaderView, Result<Index, ErrorView>)) -> (
    ReaderView,
    Result<ConstantView, ErrorView>,
) {
    match r.1 {
        Ok(payload) => (r.0, Ok(ConstantView { info: ConstantInfo(tag, payload), literal: None })),
        Err(e) => (r.0, Err(e)),
    }
}

/// The constant that a literal in slot `index` makes, once it was read: its
/// payload is the slot itself.
pub open spec fn literal_of(index: u16, r: (ReaderView, Result<LiteralView, ErrorView>)) -> (
    ReaderView,
    Result<ConstantView, ErrorView>,
) {
    match r.1 {
        Ok(literal) => (
            r.0,
            Ok(
                ConstantView {
                    info: ConstantInfo(literal.tag(), Index::Single(index)),
                    literal: Some(literal),
                },
            ),
        ),
        Err(e) => (r.0, Err(e)),
    }
}

/// Reads a text with its 16-bit length in front.
pub open spec fn read_text(s: ReaderView) -> (ReaderView, Result<LiteralView, ErrorView>) {
    let (s1, r1) = s.labelled("utf8 len"@).read_u16();
    match r1 {
        Err(e) => (s1, Err(e)),
        Ok(len) => {
            let (s2, r2) = s1.read_string(len as int);
            match r2 {
                Err(e) => (s2, Err(e)),
                Ok(text) => (s2, Ok(LiteralView::String(text))),
            }
        },
    }
}

/// Reads a 32-bit integer constant.
pub open spec fn read_int(s: ReaderView) -> (ReaderView, Result<LiteralView, ErrorView>) {
    let (s1, r1) = s.labelled("integer"@).read_u32();
    match r1 {
        Err(e) => (s1, Err(e)),
        Ok(v) => (s1, Ok(LiteralView::Integer(v))),
    }
}

/// Reads a 32-bit floating-point constant.
pub open spec fn read_single(s: ReaderView) -> (ReaderView, Result<LiteralView, ErrorView>) {
    let (s1, r1) = s.labelled("float"@).read_f32();
    match r1 {
        Err(e) => (s1, Err(e)),
        Ok(v) => (s1, Ok(LiteralView::Float(v))),
    }
}

/// Reads a 64-bit integer constant.
pub open spec fn read_wide_int(s: ReaderView) -> (ReaderView, Result<LiteralView, ErrorView>) {
    let (s1, r1) = s.labelled("long"@).read_u64();
    match r1 {
        Err(e) => (s1, Err(e)),
        Ok(v) => (s1, Ok(LiteralView::Long(v))),
    }
}

/// Reads a 64-bit floating-point constant.
pub open spec fn read_wide_float(s: ReaderView) -> (ReaderView, Result<LiteralView, ErrorView>) {
    let (s1, r1) = s.labelled("double"@).read_f64();
    match r1 {
        Err(e) => (s1, Err(e)),
        Ok(v) => (s1, Ok(LiteralView::Double(v))),
    }
}

/// Reads what follows the tag of a constant of kind `tag` in slot `index`.
pub open spec fn read_constant_of(s: ReaderView, tag: Tag, index: u16) -> (
    ReaderView,
    Result<ConstantView, ErrorView>,
) {
    match tag {
        Tag::Utf8 => literal_of(index, read_text(s)),
        Tag::Integer => literal_of(index, read_int(s)),
        Tag::Float => literal_of(index, read_single(s)),
        Tag::Long => literal_of(index, read_wide_int(s)),
        Tag::Double => literal_of(index, read_wide_float(s)),
        Tag::Class => entry_of(tag, s.labelled("class index"@).read_constant_index()),
        Tag::String => entry_of(tag, s.labelled("string index"@).read_constant_index()),
        Tag::FieldRef | Tag::MethodRef | Tag::InterfaceMethodRef => entry_of(
            tag,
            s.read_constant_index_ref(),
        ),
        Tag::NameAndType => entry_of(tag, s.read_constant_index_pair()),
        Tag::MethodHandle => entry_of(tag, s.read_constant_index_handle()),
        Tag::MethodType => entry_of(tag, s.labelled("method type"@).read_constant_index()),
        Tag::Dynamic | Tag::InvokeDynamic => entry_of(tag, s.read_constant_index_dynamic()),
        Tag::Module => entry_of(tag, s.labelled("module"@).read_constant_index()),
        Tag::Package => entry_of(tag, s.labelled("package"@).read_constant_index()),
    }
}

/// Reads the constant of slot `index`: its tag, then what the tag calls for.
/// A byte that is the tag of no kind is a failure at the offset of the byte.
pub open spec fn read_constant(s: ReaderView, index: u16) -> (
    ReaderView,
    Result<ConstantView, ErrorView>,
) {
    let (s1, r1) = s.labelled("tag"@).read_u8();
    match r1 {
        Err(e) => (s1, Err(e)),
        Ok(byte) => match Tag::of(byte) {
            None => (s1, Err(ErrorView::InvalidConstantTag { offset: s.pos, tag: byte })),
            Some(tag) => read_constant_of(s1, tag, index),
        },
    }
}

/// The mathematical value of a [`ConstantPool`].
pub struct PoolView {
    /// The entry of each slot, by slot number; a slot that is not filled
    /// has none.
    pub entries: Seq<Option<ConstantInfo>>,
    /// The literals, by slot number.
    pub literals: Map<u16, LiteralView>,
}

impl PoolView {
    /// The pool before any constant was read: slot zero, which stays empty.
    pub open spec fn initial() -> PoolView {
        PoolView { entries: seq![None], literals: Map::empty() }
    }

    /// The pool with `constant` in its next slot.  A 64-bit constant takes
    /// the slot after it too, which stays empty.
    pub open spec fn with_constant(self, constant: ConstantView) -> PoolView {
        let slot = self.entries.len() as u16;
        let filled = self.entries.push(Some(constant.info));
        PoolView {
            entries: if constant.info.0.is_wide() {
                filled.push(None)
            } else {
                filled
            },
            literals: match constant.literal {
                Some(literal) => self.literals.insert(slot, literal),
                None => self.literals,
            },
        }
    }

    /// The entry of slot `index`, if the slot is filled.
    pub open spec fn entry(self, index: u16) -> Option<ConstantInfo> {
        if 0 < index < self.entries.len() {
            self.entries[index as int]
        } else {
            None
        }
    }

    /// Whether slot `index` holds nothing: no entry and no literal.
    pub open spec fn vacant(self, index: u16) -> bool {
        self.entry(index) is None && !self.literals.contains_key(index)
    }

    /// Whether slot `k` holds a 64-bit constant.
    pub open spec fn wide_at(self, k: int) -> bool {
        0 < k < self.entries.len() && (self.entries[k] matches Some(e) && e.0.is_wide())
    }

    /// What holds of every pool that was read from a class file: slot zero
    /// is empty, the slot after a 64-bit constant is empty, and the
    /// literals are exactly those of the entries that hold one.
    pub open spec fn wf(self) -> bool {
        &&& 1 <= self.entries.len() <= 0x1_0000
        &&& self.entries[0] is None
        &&& forall|k: u16| #[trigger]
            self.literals.contains_key(k) ==> self.entry(k) == Some(
                ConstantInfo(self.literals[k].tag(), Index::Single(k)),
            )
        &&& forall|k: u16|
            (#[trigger] self.entry(k) matches Some(e) && e.0.holds_literal())
                ==> self.literals.contains_key(k)
        &&& forall|k: int| #[trigger]
            self.wide_at(k) ==> k + 1 < self.entries.len() && self.entries[k + 1] is None
    }

    /// The literal of slot `index`.
    pub open spec fn literal(self, index: u16) -> Result<LiteralView, ErrorView> {
        if self.literals.contains_key(index) {
            Ok(self.literals[index])
        } else {
            Err(ErrorView::UnresolvedReference { index })
        }
    }

    /// The literal of slot `index` as text.
    pub open spec fn literal_text(self, index: u16) -> Result<Seq<char>, ErrorView> {
        match self.literal(index) {
            Ok(literal) => Ok(literal.text()),
            Err(e) => Err(e),
        }
    }

    /// The payload of the entry of slot `index`, in its notation.
    pub open spec fn payload_text(self, index: u16) -> Result<Seq<char>, ErrorView> {
        match self.entry(index) {
            Some(e) => Ok(e.1.text()),
            None => Err(ErrorView::UnresolvedReference { index }),
        }
    }

    /// What the entry of slot `index` resolves to, going at most `depth`
    /// entries deep.
    pub open spec fn target(self, index: u16, depth: nat) -> Result<Seq<char>, ErrorView>
        decreases depth, 0nat,
    {
        if depth == 0 {
            Err(ErrorView::UnresolvedReference { index })
        } else {
            match self.entry(index) {
                Some(e) => self.resolve(e.1, (depth - 1) as nat),
                None => Err(ErrorView::UnresolvedReference { index }),
            }
        }
    }

    /// What a payload resolves to, going at most `depth` entries deep:
    /// - one slot: its literal as text;
    /// - a name and a descriptor: the two literals with `:` between them;
    /// - a class and a name-and-type: what the two entries resolve to, with
    ///   `.` between them;
    /// - a bootstrap method and a name-and-type: the payload of the first
    ///   entry in its notation, `.`, and what the second resolves to;
    /// - a reference kind and a member: the kind in decimal, `.`, and what
    ///   the entry of the member resolves to.
    pub open spec fn resolve(self, info: Index, depth: nat) -> Result<Seq<char>, ErrorView>
        decreases depth, 1nat,
    {
        match info {
            Index::Single(index) => self.literal_text(index),
            Index::Pair(i1, i2) => join(self.literal_text(i1), ':', self.literal_text(i2)),
            Index::Ref(i1, i2) => join(self.target(i1, depth), '.', self.target(i2, depth)),
            Index::Dynamic(i1, i2) => join(self.payload_text(i1), '.', self.target(i2, depth)),
            Index::MethodHandle(kind, i2) => join(
                Ok(decimal(kind as nat)),
                '.',
                self.target(i2, depth),
            ),
        }
    }
}

/// Two texts with `separator` between them; the failure of the first, or
/// else of the second, where one of them failed.
pub open spec fn join(
    first: Result<Seq<char>, ErrorView>,
    separator: char,
    second: Result<Seq<char>, ErrorView>,
) -> Result<Seq<char>, ErrorView> {
    match first {
        Err(e) => Err(e),
        Ok(a) => match second {
            Err(e) => Err(e),
            Ok(b) => Ok(a + seq![separator] + b),
        },
    }
}

/// Reads the constants of the slots that `pool` lacks up to `count`, which
/// is one more than the number of the last slot.
pub open spec fn read_constants(s: ReaderView, pool: PoolView, count: u16) -> (
    ReaderView,
    Result<PoolView, ErrorView>,
)
    decreases count + 1 - pool.entries.len(),
{
    if pool.entries.len() >= count {
        (s, Ok(pool))
    } else {
        let (s1, r) = read_constant(s, pool.entries.len() as u16);
        match r {
            Ok(constant) => read_constants(s1, pool.with_constant(constant), count),
            Err(e) => (s1, Err(e)),
        }
    }
}

/// Reads a constant pool: the 16-bit count, which is one more than the
/// number of slots, and then the constants of slot one and the slots after
/// it.
pub open spec fn read_pool(s: ReaderView) -> (ReaderView, Result<PoolView, ErrorView>) {
    let (s1, r1) = s.labelled("constant count"@).read_u16();
    match r1 {
        Err(e) => (s1, Err(e)),
        Ok(count) => read_constants(s1, PoolView::initial(), count),
    }
}

/// How deep [`ConstantPool::get_item`] follows references.  A well-formed
/// pool needs two levels; a pool whose entries refer to each other in a
/// circle is given up on at this depth.
pub const MAX_DEPTH: u8 = 8;

/// The constant pool of a class.
pub struct ConstantPool {
    constant_info: Vec<Option<ConstantInfo>>,
    literal_pool: HashMap<u16, LiteralInfo>,
}

/// The literals of a table by their values.
pub open spec fn literal_views(table: Map<u16, LiteralInfo>) -> Map<u16, LiteralView> {
    table.map_values(|l: LiteralInfo| l.deep_view())
}

impl View for ConstantPool {
    type V = PoolView;

    closed spec fn view(&self) -> PoolView {
        PoolView { entries: self.constant_info@, literals: literal_views(self.literal_pool@) }
    }
}

impl DeepView for ConstantPool {
    type V = PoolView;

    open spec fn deep_view(&self) -> PoolView {
        self@
    }
}

impl ConstantView {
    /// Whether the constant can stand in slot `index`: a constant that holds
    /// a literal is of the kind of the literal and has the slot itself for
    /// its payload, and no other constant is of a kind that holds one.
    pub open spec fn fits(self, index: u16) -> bool {
        match self.literal {
            Some(literal) => self.info == ConstantInfo(literal.tag(), Index::Single(index)),
            None => !self.info.0.holds_literal(),
        }
    }
}

/// Whether the payload `info` refers to slot `slot`.
pub open spec fn mentions(info: Index, slot: u16) -> bool {
    match info {
        Index::Single(index) => index == slot,
        Index::Pair(i1, i2) => i1 == slot || i2 == slot,
        Index::Ref(i1, i2) => i1 == slot || i2 == slot,
        Index::Dynamic(i1, i2) => i1 == slot || i2 == slot,
        Index::MethodHandle(_, i2) => i2 == slot,
    }
}

/// A constant that was read for a slot fits the slot.
pub proof fn lemma_read_constant_fits(s: ReaderView, index: u16)
    ensures
        read_constant(s, index).1 matches Ok(constant) ==> constant.fits(index),
{
}

/// A well-formed pool stays well-formed when a constant that fits its next
/// slot is put there.
pub proof fn lemma_with_constant_wf(pool: PoolView, constant: ConstantView)
    requires
        pool.wf(),
        pool.entries.len() <= 0xfffe,
        constant.fits(pool.entries.len() as u16),
    ensures
        pool.with_constant(constant).wf(),
{
    let next = pool.with_constant(constant);
    let slot = pool.entries.len() as u16;
    assert forall|k: u16| #[trigger] next.literals.contains_key(k) implies next.entry(k) == Some(
        ConstantInfo(next.literals[k].tag(), Index::Single(k)),
    ) by {
        if k != slot {
            assert(pool.literals.contains_key(k));
        }
    }
    assert forall|k: u16|
        (#[trigger] next.entry(k) matches Some(e) && e.0.holds_literal())
            implies next.literals.contains_key(k) by {
        if k < slot {
            assert(pool.entry(k) == next.entry(k));
        }
    }
    assert forall|k: int| #[trigger] next.wide_at(k) implies k + 1 < next.entries.len()
        && next.entries[k + 1] is None by {
        if k < slot {
            assert(pool.wide_at(k));
        }
    }
}

/// Every pool that is read is well-formed, given that what was read before
/// is.
pub proof fn lemma_read_constants_wf(s: ReaderView, pool: PoolView, count: u16)
    requires
        pool.wf(),
        pool.entries.len() <= count + 1,
    ensures
        read_constants(s, pool, count).1 matches Ok(whole) ==> whole.wf(),
    decreases count + 1 - pool.entries.len(),
{
    if pool.entries.len() < count {
        let (s1, r) = read_constant(s, pool.entries.len() as u16);
        if let Ok(constant) = r {
            lemma_read_constant_fits(s, pool.entries.len() as u16);
            lemma_with_constant_wf(pool, constant);
            lemma_read_constants_wf(s1, pool.with_constant(constant), count);
        }
    }
}

/// Every pool that is read from a class file is well-formed.
pub proof fn lemma_read_pool_wf(s: ReaderView)
    ensures
        read_pool(s).1 matches Ok(pool) ==> pool.wf(),
{
    let (s1, r1) = s.labelled("constant count"@).read_u16();
    if let Ok(count) = r1 {
        lemma_read_constants_wf(s1, PoolView::initial(), count);
    }
}

/// Reading constants consumes input and changes nothing else of it: the
/// bytes stay, and the place does not go back.
pub proof fn lemma_read_constants_moves_forward(s: ReaderView, pool: PoolView, count: u16)
    requires
        0 <= s.pos,
    ensures
        read_constants(s, pool, count).0.bytes == s.bytes,
        read_constants(s, pool, count).0.pos >= s.pos,
    decreases count + 1 - pool.entries.len(),
{
    if pool.entries.len() < count {
        let (s1, r) = read_constant(s, pool.entries.len() as u16);
        if let Ok(constant) = r {
            lemma_read_constants_moves_forward(s1, pool.with_constant(constant), count);
        }
    }
}

/// Reading a pool consumes input and changes nothing else of it.
pub proof fn lemma_read_pool_moves_forward(s: ReaderView)
    requires
        0 <= s.pos,
    ensures
        read_pool(s).0.bytes == s.bytes,
        read_pool(s).0.pos >= s.pos,
{
    let (s1, r1) = s.labelled("constant count"@).read_u16();
    if let Ok(count) = r1 {
        lemma_read_constants_moves_forward(s1, PoolView::initial(), count);
    }
}

/// Constants are read blind to tracing: with tracing and without, the same
/// pool is read, or the same failure met, and the reader is left at the
/// same place.
pub proof fn lemma_read_constants_blind_to_tracing(s: ReaderView, pool: PoolView, count: u16)
    ensures
        read_constants(s, pool, count).1 == read_constants(s.untraced(), pool, count).1,
        read_constants(s, pool, count).0.untraced() == read_constants(
            s.untraced(),
            pool,
            count,
        ).0,
    decreases count + 1 - pool.entries.len(),
{
    if pool.entries.len() < count {
        let index = pool.entries.len() as u16;
        let (s1, r) = read_constant(s, index);
        assert(read_constant(s.untraced(), index) == (s1.untraced(), r));
        if let Ok(constant) = r {
            lemma_read_constants_blind_to_tracing(s1, pool.with_constant(constant), count);
            lemma_read_constants_blind_to_tracing(
                s1.untraced(),
                pool.with_constant(constant),
                count,
            );
        }
    }
}

/// A pool is read blind to tracing.
pub proof fn lemma_read_pool_blind_to_tracing(s: ReaderView)
    ensures
        read_pool(s).1 == read_pool(s.untraced()).1,
        read_pool(s).0.untraced() == read_pool(s.untraced()).0,
{
    let (s1, r1) = s.labelled("constant count"@).read_u16();
    if let Ok(count) = r1 {
        lemma_read_constants_blind_to_tracing(s1, PoolView::initial(), count);
    }
}

/// Slot zero of a well-formed pool is vacant.
pub proof fn lemma_slot_zero_vacant(pool: PoolView)
    requires
        pool.wf(),
    ensures
        pool.vacant(0),
{
    if pool.literals.contains_key(0u16) {
        assert(pool.entry(0u16) is Some);
    }
}

/// In a well-formed pool the slot after a 64-bit constant is vacant.
pub proof fn lemma_slot_after_wide_vacant(pool: PoolView, index: u16)
    requires
        pool.wf(),
        pool.entry(index) matches Some(e) && e.0.is_wide(),
    ensures
        index < 0xffff,
        pool.vacant((index + 1) as u16),
{
    assert(pool.wide_at(index as int));
    let after = (index + 1) as u16;
    if pool.literals.contains_key(after) {
        assert(pool.entry(after) is Some);
    }
}

/// Nothing resolves that refers to a vacant slot: resolution fails, and
/// fails as an unresolved reference, whatever the depth.
pub proof fn lemma_vacant_slot_unresolved(pool: PoolView, info: Index, slot: u16, depth: nat)
    requires
        pool.vacant(slot),
        mentions(info, slot),
    ensures
        pool.resolve(info, depth) matches Err(e) && e is UnresolvedReference,
{
    assert(pool.target(slot, depth) is Err);
    lemma_resolve_fails_unresolved(pool, info, depth);
}

/// Resolution knows one failure only: the unresolved reference.
pub proof fn lemma_resolve_fails_unresolved(pool: PoolView, info: Index, depth: nat)
    ensures
        pool.resolve(info, depth) matches Err(e) ==> e is UnresolvedReference,
    decreases depth, 1nat,
{
    match info {
        Index::Single(_) => {},
        Index::Pair(_, _) => {},
        Index::Ref(i1, i2) => {
            lemma_target_fails_unresolved(pool, i1, depth);
            lemma_target_fails_unresolved(pool, i2, depth);
        },
        Index::Dynamic(_, i2) => {
            lemma_target_fails_unresolved(pool, i2, depth);
        },
        Index::MethodHandle(_, i2) => {
            lemma_target_fails_unresolved(pool, i2, depth);
        },
    }
}

/// The entry of a slot resolves or fails as an unresolved reference.
pub proof fn lemma_target_fails_unresolved(pool: PoolView, index: u16, depth: nat)
    ensures
        pool.target(index, depth) matches Err(e) ==> e is UnresolvedReference,
    decreases depth, 0nat,
{
    if depth > 0 {
        if let Some(e) = pool.entry(index) {
            lemma_resolve_fails_unresolved(pool, e.1, (depth - 1) as nat);
        }
    }
}

/// Whether resolving the payload `info` calls for resolving the entry of
/// slot `slot`.
pub open spec fn follows(info: Index, slot: u16) -> bool {
    match info {
        Index::Single(_) => false,
        Index::Pair(_, _) => false,
        Index::Ref(i1, i2) => i1 == slot || i2 == slot,
        Index::Dynamic(_, i2) => i2 == slot,
        Index::MethodHandle(_, i2) => i2 == slot,
    }
}

/// Whether the slots of `circle` refer to each other in a circle: the entry
/// of each calls for resolving the entry of the next, and the entry of the
/// last for that of the first.
pub open spec fn is_circle(pool: PoolView, circle: Seq<u16>) -> bool {
    &&& circle.len() >= 1
    &&& forall|i: int|
        0 <= i < circle.len() ==> (#[trigger] pool.entry(circle[i]) matches Some(e) && follows(
            e.1,
            circle[(i + 1) % (circle.len() as int)],
        ))
}

/// No entry of a circle resolves, however deep references are followed: a
/// pool whose entries refer to each other in a circle is given up on, and
/// not followed for ever.
pub proof fn lemma_circle_unresolved(pool: PoolView, circle: Seq<u16>, i: int, depth: nat)
    requires
        is_circle(pool, circle),
        0 <= i < circle.len(),
    ensures
        pool.target(circle[i], depth) is Err,
    decreases depth,
{
    if depth > 0 {
        let next = (i + 1) % (circle.len() as int);
        lemma_circle_unresolved(pool, circle, next, (depth - 1) as nat);
        assert(pool.entry(circle[i]) is Some);
    }
}

/// Nothing resolves that calls for an entry of a circle.
pub proof fn lemma_into_circle_unresolved(
    pool: PoolView,
    circle: Seq<u16>,
    i: int,
    info: Index,
    depth: nat,
)
    requires
        is_circle(pool, circle),
        0 <= i < circle.len(),
        follows(info, circle[i]),
    ensures
        pool.resolve(info, depth) is Err,
{
    lemma_circle_unresolved(pool, circle, i, depth);
}

impl ConstantPool {
    #[verifier::type_invariant]
    spec fn well_formed(&self) -> bool {
        self@.wf()
    }

    /// Reads a constant pool: the 16-bit count, and then one constant for
    /// each slot that the count announces.
    pub fn new(reader: &mut ClassFileReader) -> (r: Result<Self, Error>)
        ensures
            (final(reader)@, outcome(r)) == read_pool(old(reader)@),
            r matches Ok(pool) ==> pool@.wf(),
    {
        let count = reader.context("constant count").read_u16()?;
        match Self::read_constant_pool(count, reader) {
            Ok(pool) => {
                proof {
                    use_type_invariant(&pool);
                }
                Ok(pool)
            },
            Err(e) => Err(e),
        }
    }

    /// Reads the constants of slot one and the slots after it, up to
    /// `count`.
    #[verifier::loop_isolation(false)]
    fn read_constant_pool(count: u16, reader: &mut ClassFileReader) -> (r: Result<Self, Error>)
        ensures
            (final(reader)@, outcome(r)) == read_constants(
                old(reader)@,
                PoolView::initial(),
                count,
            ),
    {
        broadcast use vstd::std_specs::hash::group_hash_axioms;

        let mut constant_info: Vec<Option<ConstantInfo>> = Vec::with_capacity(count as usize);
        constant_info.push(None);
        let mut literal_pool: HashMap<u16, LiteralInfo> = HashMap::new();
        let mut index: usize = 1;
        let ghost mut pool = PoolView::initial();
        assert(constant_info@ =~= pool.entries);
        assert(literal_views(literal_pool@) =~= pool.literals);
        while index < count as usize
            invariant
                index == constant_info.len(),
                index <= count + 1,
                pool.wf(),
                pool.entries == constant_info@,
                pool.literals == literal_views(literal_pool@),
                read_constants(old(reader)@, PoolView::initial(), count) == read_constants(
                    reader@,
                    pool,
                    count,
                ),
            decreases count + 1 - index,
        {
            let ghost before = reader@;
            let constant = Self::read_constant(index as u16, reader)?;
            proof {
                lemma_read_constant_fits(before, index as u16);
                lemma_with_constant_wf(pool, constant.deep_view());
                pool = pool.with_constant(constant.deep_view());
            }
            constant_info.push(Some(constant.info));
            if constant.info.0.fills_two_slots() {
                constant_info.push(None);
            }
            match constant.literal {
                Some(literal) => {
                    literal_pool.insert(index as u16, literal);
                },
                None => {},
            }
            assert(constant_info@ =~= pool.entries);
            assert(literal_views(literal_pool@) =~= pool.literals);
            index = constant_info.len();
        }
        Ok(ConstantPool { constant_info, literal_pool })
    }

    /// Reads the constant of slot `index`: its tag, then what the tag calls
    /// for.
    fn read_constant(index: u16, reader: &mut ClassFileReader) -> (r: Result<Constant, Error>)
        ensures
            (final(reader)@, outcome(r)) == read_constant(old(reader)@, index),
    {
        let offset = reader.position();
        let byte = reader.context("tag").read_u8()?;
        match Tag::from_u8(byte) {
            Some(Tag::Utf8) => Self::read_utf8(index, reader),
            Some(Tag::Integer) => Self::read_integer(index, reader),
            Some(Tag::Float) => Self::read_float(index, reader),
            Some(Tag::Long) => Self::read_long(index, reader),
            Some(Tag::Double) => Self::read_double(index, reader),
            Some(Tag::Class) => Self::read_class(reader),
            Some(Tag::String) => Self::read_string(reader),
            Some(Tag::FieldRef) => Self::read_field_ref(reader),
            Some(Tag::MethodRef) => Self::read_method_ref(reader),
            Some(Tag::InterfaceMethodRef) => Self::read_interface_method_ref(reader),
            Some(Tag::NameAndType) => Self::read_name_and_type(reader),
            Some(Tag::MethodHandle) => Self::read_method_handle(reader),
            Some(Tag::MethodType) => Self::read_method_type(reader),
            Some(Tag::Dynamic) => Self::read_dynamic(reader),
            Some(Tag::InvokeDynamic) => Self::read_invoke_dynamic(reader),
            Some(Tag::Module) => Self::read_module(reader),
            Some(Tag::Package) => Self::read_package(reader),
            None => Err(Error::InvalidConstantTag { offset, tag: byte }),
        }
    }

    fn read_method_ref(reader: &mut ClassFileReader) -> (r: Result<Constant, Error>)
        ensures
            (final(reader)@, outcome(r)) == read_constant_of(old(reader)@, Tag::MethodRef, 0),
    {
        let payload = reader.read_constant_index_ref()?;
        Ok(Constant { info: ConstantInfo(Tag::MethodRef, payload), literal: None })
    }

    fn read_field_ref(reader: &mut ClassFileReader) -> (r: Result<Constant, Error>)
        ensures
            (final(reader)@, outcome(r)) == read_constant_of(old(reader)@, Tag::FieldRef, 0),
    {
        let payload = reader.read_constant_index_ref()?;
        Ok(Constant { info: ConstantInfo(Tag::FieldRef, payload), literal: None })
    }

    fn read_interface_method_ref(reader: &mut ClassFileReader) -> (r: Result<Constant, Error>)
        ensures
            (final(reader)@, outcome(r)) == read_constant_of(
                old(reader)@,
                Tag::InterfaceMethodRef,
                0,
            ),
    {
        let payload = reader.read_constant_index_ref()?;
        Ok(Constant { info: ConstantInfo(Tag::InterfaceMethodRef, payload), literal: None })
    }

    fn read_utf8(index: u16, reader: &mut ClassFileReader) -> (r: Result<Constant, Error>)
        ensures
            (final(reader)@, outcome(r)) == read_constant_of(old(reader)@, Tag::Utf8, index),
    {
        let len = reader.context("utf8 len").read_u16()?;
        let string = reader.read_string(len as usize)?;
        Ok(
            Constant {
                info: ConstantInfo(Tag::Utf8, Index::Single(index)),
                literal: Some(LiteralInfo::String(string)),
            },
        )
    }

    fn read_integer(index: u16, reader: &mut ClassFileReader) -> (r: Result<Constant, Error>)
        ensures
            (final(reader)@, outcome(r)) == read_constant_of(old(reader)@, Tag::Integer, index),
    {
        let i = reader.context("integer").read_u32()?;
        Ok(
            Constant {
                info: ConstantInfo(Tag::Integer, Index::Single(index)),
                literal: Some(LiteralInfo::Integer(i)),
            },
        )
    }

    fn read_float(index: u16, reader: &mut ClassFileReader) -> (r: Result<Constant, Error>)
        ensures
            (final(reader)@, outcome(r)) == read_constant_of(old(reader)@, Tag::Float, index),
    {
        let f = reader.context("float").read_f32()?;
        Ok(
            Constant {
                info: ConstantInfo(Tag::Float, Index::Single(index)),
                literal: Some(LiteralInfo::Float(f)),
            },
        )
    }

    fn read_long(index: u16, reader: &mut ClassFileReader) -> (r: Result<Constant, Error>)
        ensures
            (final(reader)@, outcome(r)) == read_constant_of(old(reader)@, Tag::Long, index),
    {
        let l = reader.context("long").read_u64()?;
        Ok(
            Constant {
                info: ConstantInfo(Tag::Long, Index::Single(index)),
                literal: Some(LiteralInfo::Long(l)),
            },
        )
    }

    fn read_double(index: u16, reader: &mut ClassFileReader) -> (r: Result<Constant, Error>)
        ensures
            (final(reader)@, outcome(r)) == read_constant_of(old(reader)@, Tag::Double, index),
    {
        let d = reader.context("double").read_f64()?;
        Ok(
            Constant {
                info: ConstantInfo(Tag::Double, Index::Single(index)),
                literal: Some(LiteralInfo::Double(d)),
            },
        )
    }

    fn read_class(reader: &mut ClassFileReader) -> (r: Result<Constant, Error>)
        ensures
            (final(reader)@, outcome(r)) == read_constant_of(old(reader)@, Tag::Class, 0),
    {
        let payload = reader.context("class index").read_constant_index()?;
        Ok(Constant { info: ConstantInfo(Tag::Class, payload), literal: None })
    }

    fn read_string(reader: &mut ClassFileReader) -> (r: Result<Constant, Error>)
        ensures
            (final(reader)@, outcome(r)) == read_constant_of(old(reader)@, Tag::String, 0),
    {
        let payload = reader.context("string index").read_constant_index()?;
        Ok(Constant { info: ConstantInfo(Tag::String, payload), literal: None })
    }

    fn read_name_and_type(reader: &mut ClassFileReader) -> (r: Result<Constant, Error>)
        ensures
            (final(reader)@, outcome(r)) == read_constant_of(old(reader)@, Tag::NameAndType, 0),
    {
        let payload = reader.read_constant_index_pair()?;
        Ok(Constant { info: ConstantInfo(Tag::NameAndType, payload), literal: None })
    }

    fn read_method_handle(reader: &mut ClassFileReader) -> (r: Result<Constant, Error>)
        ensures
            (final(reader)@, outcome(r)) == read_constant_of(old(reader)@, Tag::MethodHandle, 0),
    {
        let payload = reader.read_constant_index_handle()?;
        Ok(Constant { info: ConstantInfo(Tag::MethodHandle, payload), literal: None })
    }

    fn read_method_type(reader: &mut ClassFileReader) -> (r: Result<Constant, Error>)
        ensures
            (final(reader)@, outcome(r)) == read_constant_of(old(reader)@, Tag::MethodType, 0),
    {
        let payload = reader.context("method type").read_constant_index()?;
        Ok(Constant { info: ConstantInfo(Tag::MethodType, payload), literal: None })
    }

    fn read_dynamic(reader: &mut ClassFileReader) -> (r: Result<Constant, Error>)
        ensures
            (final(reader)@, outcome(r)) == read_constant_of(old(reader)@, Tag::Dynamic, 0),
    {
        let payload = reader.read_constant_index_dynamic()?;
        Ok(Constant { info: ConstantInfo(Tag::Dynamic, payload), literal: None })
    }

    fn read_invoke_dynamic(reader: &mut ClassFileReader) -> (r: Result<Constant, Error>)
        ensures
            (final(reader)@, outcome(r)) == read_constant_of(old(reader)@, Tag::InvokeDynamic, 0),
    {
        let payload = reader.read_constant_index_dynamic()?;
        Ok(Constant { info: ConstantInfo(Tag::InvokeDynamic, payload), literal: None })
    }

    fn read_module(reader: &mut ClassFileReader) -> (r: Result<Constant, Error>)
        ensures
            (final(reader)@, outcome(r)) == read_constant_of(old(reader)@, Tag::Module, 0),
    {
        let payload = reader.context("module").read_constant_index()?;
        Ok(Constant { info: ConstantInfo(Tag::Module, payload), literal: None })
    }

    fn read_package(reader: &mut ClassFileReader) -> (r: Result<Constant, Error>)
        ensures
            (final(reader)@, outcome(r)) == read_constant_of(old(reader)@, Tag::Package, 0),
    {
        let payload = reader.context("package").read_constant_index()?;
        Ok(Constant { info: ConstantInfo(Tag::Package, payload), literal: None })
    }

    /// The number of slots, slot zero and reserved slots included.
    pub fn len(&self) -> (r: usize)
        ensures
            r == self@.entries.len(),
            self@.wf(),
    {
        proof {
            use_type_invariant(self);
        }
        self.constant_info.len()
    }

    /// The entry of slot `index`.  A slot that is not filled is an
    /// unresolved reference: slot zero, a slot after a 64-bit constant, and
    /// every slot beyond the last.
    pub fn get_constant(&self, index: u16) -> (r: Result<ConstantInfo, Error>)
        ensures
            match self@.entry(index) {
                Some(e) => r == Ok::<ConstantInfo, Error>(e),
                None => r matches Err(e) && e@ == (ErrorView::UnresolvedReference { index }),
            },
            self@.wf(),
    {
        proof {
            use_type_invariant(self);
        }
        if 0 < index && (index as usize) < self.constant_info.len() {
            match self.constant_info[index as usize] {
                Some(e) => Ok(e),
                None => Err(Error::UnresolvedReference { index }),
            }
        } else {
            Err(Error::UnresolvedReference { index })
        }
    }

    /// The literal of slot `index`.  A slot that holds no literal is an
    /// unresolved reference.
    pub fn get_literal(&self, index: u16) -> (r: Result<&LiteralInfo, Error>)
        ensures
            outcome(r) == self@.literal(index),
            self@.wf(),
    {
        broadcast use vstd::std_specs::hash::group_hash_axioms;

        proof {
            use_type_invariant(self);
        }
        match self.literal_pool.get(&index) {
            Some(literal) => Ok(literal),
            None => Err(Error::UnresolvedReference { index }),
        }
    }

    /// Resolves a payload into text, following references at most
    /// [`MAX_DEPTH`] entries deep.  A payload that refers to a vacant slot
    /// does not resolve.
    pub fn get_item(&self, info: &Index) -> (r: Result<String, Error>)
        ensures
            outcome(r) == self@.resolve(*info, MAX_DEPTH as nat),
            self@.wf(),
            forall|slot: u16| mentions(*info, slot) && #[trigger] self@.vacant(slot) ==> r is Err,
    {
        proof {
            use_type_invariant(self);
            assert forall|slot: u16| mentions(*info, slot) && #[trigger] self@.vacant(
                slot,
            ) implies self@.resolve(*info, MAX_DEPTH as nat) is Err by {
                lemma_vacant_slot_unresolved(self@, *info, slot, MAX_DEPTH as nat);
            }
        }
        self.resolve(info, MAX_DEPTH)
    }

    /// The literal of slot `index` as text.
    fn literal_text(&self, index: u16) -> (r: Result<String, Error>)
        ensures
            outcome(r) == self@.literal_text(index),
    {
        let literal = self.get_literal(index)?;
        Ok(literal.to_string())
    }

    /// What the entry of slot `index` resolves to.
    fn target(&self, index: u16, depth: u8) -> (r: Result<String, Error>)
        ensures
            outcome(r) == self@.target(index, depth as nat),
        decreases depth, 0nat,
    {
        if depth == 0 {
            Err(Error::UnresolvedReference { index })
        } else {
            let entry = self.get_constant(index)?;
            self.resolve(&entry.1, depth - 1)
        }
    }

    /// What a payload resolves to, going at most `depth` entries deep.
    fn resolve(&self, info: &Index, depth: u8) -> (r: Result<String, Error>)
        ensures
            outcome(r) == self@.resolve(*info, depth as nat),
        decreases depth, 1nat,
    {
        proof {
            reveal_strlit(":");
            reveal_strlit(".");
        }
        match *info {
            Index::Single(index) => self.literal_text(index),
            Index::Pair(i1, i2) => {
                let mut s = self.literal_text(i1)?;
                let second = self.literal_text(i2)?;
                let ghost first = s@;
                s.append(":");
                s.append(second.as_str());
                assert(s@ =~= first + seq![':'] + second@);
                Ok(s)
            },
            Index::Ref(i1, i2) => {
                let mut s = self.target(i1, depth)?;
                let second = self.target(i2, depth)?;
                let ghost first = s@;
                s.append(".");
                s.append(second.as_str());
                assert(s@ =~= first + seq!['.'] + second@);
                Ok(s)
            },
            Index::Dynamic(i1, i2) => {
                let mut s = self.get_constant(i1)?.1.to_string();
                let second = self.target(i2, depth)?;
                let ghost first = s@;
                s.append(".");
                s.append(second.as_str());
                assert(s@ =~= first + seq!['.'] + second@);
                Ok(s)
            },
            Index::MethodHandle(kind, i2) => {
                let mut s = u64_to_decimal(kind as u64);
                let second = self.target(i2, depth)?;
                let ghost first = s@;
                s.append(".");
                s.append(second.as_str());
                assert(s@ =~= first + seq!['.'] + second@);
                Ok(s)
            },
        }
    }
}

} // verus!
