//! A reader for compiled Java class files.
//!
//! The crate decodes the binary class-file format into a tree that can be
//! queried, resolves constant-pool references into text, and decodes method
//! bytecode into instructions.  Every function is verified against a
//! mathematical description of the format.
use vstd::prelude::*;
use vstd::slice::slice_to_vec;

pub mod error;
pub mod list;
pub mod text;
pub mod class_file_reader;
pub mod constant_pool;
pub mod attributes;
pub mod code;

use crate::attributes::{interpret_attributes, ClassAttributes, ClassAttributesView};
use crate::class_file_reader::{
    lemma_attributes_blind_to_tracing, lemma_members_blind_to_tracing, be_u16, be_u32, AttributeInfo, AttributeInfoView, ClassFileReader, FieldInfo, FieldInfoView,
    Index, JavaVersion, MethodInfo, MethodInfoView, ReaderView,
};
use crate::constant_pool::{
    lemma_read_pool_blind_to_tracing, lemma_read_pool_moves_forward, lemma_read_pool_wf, read_pool, ConstantPool, PoolView, MAX_DEPTH,
};
use crate::error::{outcome, Error, ErrorView};
use crate::list::convert_all;

verus! {

/// How much of what a reader consumes is recorded for tracing, and in which
/// notation the record is meant to be shown.
#[derive(Clone, Copy, Debug, PartialEq, Eq, Structural)]
pub enum Dump {
    /// Record every field; the bytes are meant to be shown in hexadecimal.
    Hex,
    /// Record every field; the bytes are meant to be shown in decimal.
    Byte,
    /// Record nothing.
    Off,
}

/// The number that every class file begins with.
pub const JAVA_MAGIC: u32 = 0xcafebabe;

/// A class file, decoded.
pub struct ClassFile {
    version: JavaVersion,
    constant_pool: ConstantPool,
    _access_flags: u16,
    _this_class: Index,
    _super_class: Index,
    interfaces: Vec<Index>,
    fields: Vec<FieldInfo>,
    methods: Vec<MethodInfo>,
    pub attributes: Vec<AttributeInfo>,
}

/// The mathematical value of a [`ClassFile`].
pub struct ClassFileView {
    pub version: JavaVersion,
    pub constant_pool: PoolView,
    pub access_flags: u16,
    pub this_class: Index,
    pub super_class: Index,
    pub interfaces: Seq<Index>,
    pub fields: Seq<FieldInfoView>,
    pub methods: Seq<MethodInfoView>,
    pub attributes: Seq<AttributeInfoView>,
}

impl View for ClassFile {
    type V = ClassFileView;

    closed spec fn view(&self) -> ClassFileView {
        ClassFileView {
            version: self.version,
            constant_pool: self.constant_pool@,
            access_flags: self._access_flags,
            this_class: self._this_class,
            super_class: self._super_class,
            interfaces: self.interfaces@,
            fields: self.fields.deep_view(),
            methods: self.methods.deep_view(),
            attributes: self.attributes.deep_view(),
        }
    }
}

impl DeepView for ClassFile {
    type V = ClassFileView;

    open spec fn deep_view(&self) -> ClassFileView {
        self@
    }
}

/// Reads the magic number and the version.  Any other number in the place
/// of the magic number is a failure.
pub open spec fn read_version(s: ReaderView) -> (ReaderView, Result<JavaVersion, ErrorView>) {
    let (s1, r1) = s.labelled("magic"@).read_u32();
    match r1 {
        Err(e) => (s1, Err(e)),
        Ok(magic) => if magic != JAVA_MAGIC {
            (s1, Err(ErrorView::NotAClassFile { magic }))
        } else {
            let (s2, r2) = s1.labelled("minor"@).read_u16();
            match r2 {
                Err(e) => (s2, Err(e)),
                Ok(minor) => {
                    let (s3, r3) = s2.labelled("major"@).read_u16();
                    match r3 {
                        Err(e) => (s3, Err(e)),
                        Ok(major) => (s3, Ok(JavaVersion(minor, major))),
                    }
                },
            }
        },
    }
}

/// Reads the access flags of the class, the slot of the class and the slot
/// of its superclass.
pub open spec fn read_identity(s: ReaderView) -> (ReaderView, Result<(u16, Index, Index), ErrorView>) {
    let (s1, r1) = s.labelled("access flags"@).read_u16();
    match r1 {
        Err(e) => (s1, Err(e)),
        Ok(access_flags) => {
            let (s2, r2) = s1.read_constant_index();
            match r2 {
                Err(e) => (s2, Err(e)),
                Ok(this_class) => {
                    let (s3, r3) = s2.read_constant_index();
                    match r3 {
                        Err(e) => (s3, Err(e)),
                        Ok(super_class) => (s3, Ok((access_flags, this_class, super_class))),
                    }
                },
            }
        },
    }
}

/// Reads the four lists that end a class file: the interfaces, the fields,
/// the methods and the attributes of the class.
pub open spec fn read_members(s: ReaderView) -> (
    ReaderView,
    Result<
        (Seq<Index>, Seq<FieldInfoView>, Seq<MethodInfoView>, Seq<AttributeInfoView>),
        ErrorView,
    >,
) {
    let (s1, r1) = s.read_interfaces();
    match r1 {
        Err(e) => (s1, Err(e)),
        Ok(interfaces) => {
            let (s2, r2) = s1.read_fields();
            match r2 {
                Err(e) => (s2, Err(e)),
                Ok(fields) => {
                    let (s3, r3) = s2.read_methods();
                    match r3 {
                        Err(e) => (s3, Err(e)),
                        Ok(methods) => {
                            let (s4, r4) = s3.read_attributes();
                            match r4 {
                                Err(e) => (s4, Err(e)),
                                Ok(attributes) => (
                                    s4,
                                    Ok((interfaces, fields, methods, attributes)),
                                ),
                            }
                        },
                    }
                },
            }
        },
    }
}

/// Reads a class file: the magic number and the version, the constant pool,
/// the identity of the class, and its four lists.
pub open spec fn read_class_file(s: ReaderView) -> (ReaderView, Result<ClassFileView, ErrorView>) {
    let (s1, r1) = read_version(s);
    match r1 {
        Err(e) => (s1, Err(e)),
        Ok(version) => {
            let (s2, r2) = read_pool(s1);
            match r2 {
                Err(e) => (s2, Err(e)),
                Ok(constant_pool) => {
                    let (s3, r3) = read_identity(s2);
                    match r3 {
                        Err(e) => (s3, Err(e)),
                        Ok(identity) => {
                            let (s4, r4) = read_members(s3);
                            match r4 {
                                Err(e) => (s4, Err(e)),
                                Ok(members) => (
                                    s4,
                                    Ok(
                                        ClassFileView {
                                            version,
                                            constant_pool,
                                            access_flags: identity.0,
                                            this_class: identity.1,
                                            super_class: identity.2,
                                            interfaces: members.0,
                                            fields: members.1,
                                            methods: members.2,
                                            attributes: members.3,
                                        },
                                    ),
                                ),
                            }
                        },
                    }
                },
            }
        },
    }
}

/// The head of a class that was read holds what stands in the input: the
/// magic number in the first four bytes, the minor and the major version in
/// the four bytes after them, and the access flags and the slots of the
/// class and of its superclass in the six bytes after the constant pool.
pub proof fn lemma_header_round_trip(s: ReaderView)
    requires
        0 <= s.pos,
    ensures
        read_class_file(s).1 matches Ok(class) ==> {
            let pool_end = read_pool(read_version(s).0).0.pos;
            &&& s.pos + 8 <= pool_end && pool_end + 6 <= s.bytes.len()
            &&& be_u32(s.bytes.subrange(s.pos, s.pos + 4)) == JAVA_MAGIC
            &&& class.version == JavaVersion(
                be_u16(s.bytes.subrange(s.pos + 4, s.pos + 6)),
                be_u16(s.bytes.subrange(s.pos + 6, s.pos + 8)),
            )
            &&& class.access_flags == be_u16(s.bytes.subrange(pool_end, pool_end + 2))
            &&& class.this_class == Index::Single(
                be_u16(s.bytes.subrange(pool_end + 2, pool_end + 4)),
            )
            &&& class.super_class == Index::Single(
                be_u16(s.bytes.subrange(pool_end + 4, pool_end + 6)),
            )
        },
{
    let (s1, r1) = read_version(s);
    if r1 is Ok {
        lemma_read_pool_moves_forward(s1);
    }
}

/// The constant pool of a class that was read is well-formed: its slot zero
/// and the slot after each of its 64-bit constants are vacant.
pub proof fn lemma_class_pool_wf(s: ReaderView)
    ensures
        read_class_file(s).1 matches Ok(class) ==> class.constant_pool.wf(),
{
    lemma_read_pool_wf(read_version(s).0);
}

/// Tracing is a side channel: with tracing and without, the same class is
/// read from the same input, or the same failure met, and the reader is
/// left at the same place.
pub proof fn lemma_class_file_blind_to_tracing(s: ReaderView)
    ensures
        read_class_file(s).1 == read_class_file(s.untraced()).1,
        read_class_file(s).0.untraced() == read_class_file(s.untraced()).0,
{
    let (s1, r1) = read_version(s);
    assert(read_version(s.untraced()) == (s1.untraced(), r1));
    if r1 is Ok {
        lemma_read_pool_blind_to_tracing(s1);
        let (s2, r2) = read_pool(s1);
        if r2 is Ok {
            let (s3, r3) = read_identity(s2);
            assert(read_identity(s2.untraced()) == (s3.untraced(), r3));
            if r3 is Ok {
                lemma_attributes_blind_to_tracing(s3);
                let (s4, r4) = s3.read_interfaces();
                if r4 is Ok {
                    lemma_members_blind_to_tracing(s4);
                    let (s5, r5) = s4.read_fields();
                    if r5 is Ok {
                        lemma_members_blind_to_tracing(s5);
                        let (s6, r6) = s5.read_methods();
                        if r6 is Ok {
                            lemma_attributes_blind_to_tracing(s6);
                        }
                    }
                }
            }
        }
    }
}

/// An attribute with its name resolved.
#[derive(Debug, Clone, PartialEq, Eq)]
pub struct Attribute {
    pub name: String,
    pub info: Vec<u8>,
}

/// The mathematical value of an [`Attribute`].
pub struct AttributeView {
    pub name: Seq<char>,
    pub info: Seq<u8>,
}

impl DeepView for Attribute {
    type V = AttributeView;

    open spec fn deep_view(&self) -> AttributeView {
        AttributeView { name: self.name@, info: self.info@ }
    }
}

/// A method with its name and its descriptor resolved.
#[derive(Debug, Clone, PartialEq, Eq)]
pub struct Method {
    flags: u16,
    name: String,
    descriptor: String,
    attributes: Vec<Attribute>,
}

/// The mathematical value of a [`Method`].
pub struct MethodView {
    pub flags: u16,
    pub name: Seq<char>,
    pub descriptor: Seq<char>,
    pub attributes: Seq<AttributeView>,
}

impl DeepView for Method {
    type V = MethodView;

    closed spec fn deep_view(&self) -> MethodView {
        MethodView {
            flags: self.flags,
            name: self.name@,
            descriptor: self.descriptor@,
            attributes: self.attributes.deep_view(),
        }
    }
}

impl Method {
    /// The access flags of the method.
    pub fn get_flags(&self) -> (r: &u16)
        ensures
            *r == self.deep_view().flags,
    {
        &self.flags
    }

    /// The name of the method.
    pub fn get_name(&self) -> (r: &String)
        ensures
            r@ == self.deep_view().name,
    {
        &self.name
    }

    /// The descriptor of the method: the types of its parameters and of its
    /// result.
    pub fn get_descriptor(&self) -> (r: &String)
        ensures
            r@ == self.deep_view().descriptor,
    {
        &self.descriptor
    }

    /// The attributes of the method, with their names resolved.
    pub fn get_attributes(&self) -> (r: &Vec<Attribute>)
        ensures
            r.deep_view() == self.deep_view().attributes,
    {
        &self.attributes
    }
}

/// A field with its name and its descriptor resolved.
#[derive(Debug, Clone, PartialEq, Eq)]
pub struct Field {
    flags: u16,
    name: String,
    descriptor: String,
}

/// The mathematical value of a [`Field`].
pub struct FieldView {
    pub flags: u16,
    pub name: Seq<char>,
    pub descriptor: Seq<char>,
}

impl DeepView for Field {
    type V = FieldView;

    closed spec fn deep_view(&self) -> FieldView {
        FieldView { flags: self.flags, name: self.name@, descriptor: self.descriptor@ }
    }
}

impl Field {
    /// The access flags of the field.
    pub fn get_flags(&self) -> (r: &u16)
        ensures
            *r == self.deep_view().flags,
    {
        &self.flags
    }

    /// The name of the field.
    pub fn get_name(&self) -> (r: &String)
        ensures
            r@ == self.deep_view().name,
    {
        &self.name
    }

    /// The descriptor of the field: its type.
    pub fn get_descriptor(&self) -> (r: &String)
        ensures
            r@ == self.deep_view().descriptor,
    {
        &self.descriptor
    }
}

/// An attribute with its name resolved against `pool`.
pub open spec fn resolve_attribute(pool: PoolView, a: AttributeInfoView) -> Result<
    AttributeView,
    ErrorView,
> {
    match pool.resolve(a.attribute_name_index, MAX_DEPTH as nat) {
        Ok(name) => Ok(AttributeView { name, info: a.info }),
        Err(e) => Err(e),
    }
}

/// How the attributes of a list are resolved against `pool`.
pub open spec fn attribute_resolver(pool: PoolView) -> spec_fn(AttributeInfoView) -> Result<
    AttributeView,
    ErrorView,
> {
    |a: AttributeInfoView| resolve_attribute(pool, a)
}

/// A list of attributes with their names resolved against `pool`.
pub open spec fn resolve_attributes(pool: PoolView, attributes: Seq<AttributeInfoView>) -> Result<
    Seq<AttributeView>,
    ErrorView,
> {
    convert_all(attributes, attribute_resolver(pool), 0, Seq::empty())
}

/// A field with its name and its descriptor resolved against `pool`.
pub open spec fn resolve_field(pool: PoolView, f: FieldInfoView) -> Result<FieldView, ErrorView> {
    match pool.resolve(f.name_index, MAX_DEPTH as nat) {
        Err(e) => Err(e),
        Ok(name) => match pool.resolve(f.descriptor_index, MAX_DEPTH as nat) {
            Err(e) => Err(e),
            Ok(descriptor) => Ok(FieldView { flags: f.access_flags, name, descriptor }),
        },
    }
}

/// How the fields of a list are resolved against `pool`.
pub open spec fn field_resolver(pool: PoolView) -> spec_fn(FieldInfoView) -> Result<
    FieldView,
    ErrorView,
> {
    |f: FieldInfoView| resolve_field(pool, f)
}

/// A method with its name, its descriptor and the names of its attributes
/// resolved against `pool`.
pub open spec fn resolve_method(pool: PoolView, m: MethodInfoView) -> Result<MethodView, ErrorView> {
    match pool.resolve(m.name_index, MAX_DEPTH as nat) {
        Err(e) => Err(e),
        Ok(name) => match pool.resolve(m.descriptor_index, MAX_DEPTH as nat) {
            Err(e) => Err(e),
            Ok(descriptor) => match resolve_attributes(pool, m.attributes) {
                Err(e) => Err(e),
                Ok(attributes) => Ok(
                    MethodView { flags: m.access_flags, name, descriptor, attributes },
                ),
            },
        },
    }
}

/// How the methods of a list are resolved against `pool`.
pub open spec fn method_resolver(pool: PoolView) -> spec_fn(MethodInfoView) -> Result<
    MethodView,
    ErrorView,
> {
    |m: MethodInfoView| resolve_method(pool, m)
}

impl ClassFile {
    /// Decodes a class file from `reader`.
    pub fn new(reader: &mut ClassFileReader) -> (r: Result<Self, Error>)
        ensures
            (final(reader)@, outcome(r)) == read_class_file(old(reader)@),
            r matches Ok(class_file) ==> class_file@.constant_pool.wf(),
    {
        let magic = reader.context("magic").read_u32()?;
        if magic != JAVA_MAGIC {
            return Err(Error::NotAClassFile { magic });
        }
        let minor = reader.context("minor").read_u16()?;
        let major = reader.context("major").read_u16()?;
        let constant_pool = ConstantPool::new(reader)?;
        let access_flags = reader.context("access flags").read_u16()?;
        let this_class = reader.read_constant_index()?;
        let super_class = reader.read_constant_index()?;
        let interfaces = reader.read_interfaces()?;
        let fields = reader.read_fields()?;
        let methods = reader.read_methods()?;
        let attributes = reader.read_attributes()?;
        assert(interfaces.deep_view() =~= interfaces@);
        Ok(
            ClassFile {
                version: JavaVersion(minor, major),
                constant_pool,
                _access_flags: access_flags,
                _this_class: this_class,
                _super_class: super_class,
                interfaces,
                fields,
                methods,
                attributes,
            },
        )
    }

    /// The version of the format, as it is usually written: the major
    /// number less 44, a dot, and the minor number.
    pub fn get_version(&self) -> (r: String)
        ensures
            r@ == self@.version.text(),
    {
        self.version.to_string()
    }

    /// The version of the format as it stands in the file.
    pub fn version(&self) -> (r: JavaVersion)
        ensures
            r == self@.version,
    {
        self.version
    }

    /// The constant pool.
    pub fn constant_pool(&self) -> (r: &ConstantPool)
        ensures
            r@ == self@.constant_pool,
    {
        &self.constant_pool
    }

    /// The access flags of the class.
    pub fn get_access_flags(&self) -> (r: u16)
        ensures
            r == self@.access_flags,
    {
        self._access_flags
    }

    /// The slot of the class.
    pub fn get_this_class(&self) -> (r: Index)
        ensures
            r == self@.this_class,
    {
        self._this_class
    }

    /// The slot of the superclass.
    pub fn get_super_class(&self) -> (r: Index)
        ensures
            r == self@.super_class,
    {
        self._super_class
    }

    /// The slots of the interfaces.
    pub fn get_interfaces(&self) -> (r: &Vec<Index>)
        ensures
            r@ == self@.interfaces,
    {
        &self.interfaces
    }

    /// The attributes of the class as they stand in the file.
    pub fn attributes(&self) -> (r: &Vec<AttributeInfo>)
        ensures
            r.deep_view() == self@.attributes,
    {
        &self.attributes
    }

    /// The attributes of the class that are interpreted.
    pub fn get_class_attributes(&self) -> (r: Result<ClassAttributes, Error>)
        ensures
            outcome(r) == interpret_attributes(
                self@.constant_pool,
                self@.attributes,
                0,
                ClassAttributesView { source_file: None, runtime_visible_annotations: None },
            ),
    {
        ClassAttributes::new(self)
    }

    /// The fields as they stand in the file.
    pub fn fields(&self) -> (r: &Vec<FieldInfo>)
        ensures
            r.deep_view() == self@.fields,
    {
        &self.fields
    }

    /// The methods as they stand in the file.
    pub fn methods(&self) -> (r: &Vec<MethodInfo>)
        ensures
            r.deep_view() == self@.methods,
    {
        &self.methods
    }

    /// The fields, with their names and descriptors resolved.
    pub fn get_fields(&self) -> (r: Result<Vec<Field>, Error>)
        ensures
            outcome(r) == convert_all(
                self@.fields,
                field_resolver(self@.constant_pool),
                0,
                Seq::empty(),
            ),
    {
        let mut fields: Vec<Field> = Vec::with_capacity(self.fields.len());
        let mut i: usize = 0;
        assert(fields.deep_view() =~= Seq::empty());
        while i < self.fields.len()
            invariant
                i <= self.fields.len(),
                convert_all(
                    self@.fields,
                    field_resolver(self@.constant_pool),
                    0,
                    Seq::empty(),
                ) == convert_all(
                    self@.fields,
                    field_resolver(self@.constant_pool),
                    i as int,
                    fields.deep_view(),
                ),
            decreases self.fields.len() - i,
        {
            let ghost before = fields.deep_view();
            let m = &self.fields[i];
            assert(self@.fields[i as int] == m.deep_view());
            let name = self.constant_pool.get_item(&m.name_index)?;
            let descriptor = self.constant_pool.get_item(&m.descriptor_index)?;
            let field = Field { flags: m.access_flags, name, descriptor };
            fields.push(field);
            assert(fields.deep_view() =~= before.push(field.deep_view()));
            i = i + 1;
        }
        Ok(fields)
    }

    /// The methods, with their names, their descriptors and the names of
    /// their attributes resolved.
    pub fn get_methods(&self) -> (r: Result<Vec<Method>, Error>)
        ensures
            outcome(r) == convert_all(
                self@.methods,
                method_resolver(self@.constant_pool),
                0,
                Seq::empty(),
            ),
    {
        let mut methods: Vec<Method> = Vec::with_capacity(self.methods.len());
        let mut i: usize = 0;
        assert(methods.deep_view() =~= Seq::empty());
        while i < self.methods.len()
            invariant
                i <= self.methods.len(),
                convert_all(
                    self@.methods,
                    method_resolver(self@.constant_pool),
                    0,
                    Seq::empty(),
                ) == convert_all(
                    self@.methods,
                    method_resolver(self@.constant_pool),
                    i as int,
                    methods.deep_view(),
                ),
            decreases self.methods.len() - i,
        {
            let ghost before = methods.deep_view();
            let m = &self.methods[i];
            assert(self@.methods[i as int] == m.deep_view());
            let name = self.constant_pool.get_item(&m.name_index)?;
            let descriptor = self.constant_pool.get_item(&m.descriptor_index)?;
            let attributes = self.get_attributes_vec(&m.attributes)?;
            let method = Method { flags: m.access_flags, name, descriptor, attributes };
            methods.push(method);
            assert(methods.deep_view() =~= before.push(method.deep_view()));
            i = i + 1;
        }
        Ok(methods)
    }

    /// The attributes of `a`, with their names resolved.
    pub fn get_attributes_vec(&self, a: &Vec<AttributeInfo>) -> (r: Result<Vec<Attribute>, Error>)
        ensures
            outcome(r) == resolve_attributes(self@.constant_pool, a.deep_view()),
    {
        let mut attributes: Vec<Attribute> = Vec::with_capacity(a.len());
        let mut i: usize = 0;
        assert(attributes.deep_view() =~= Seq::empty());
        while i < a.len()
            invariant
                i <= a.len(),
                resolve_attributes(self@.constant_pool, a.deep_view()) == convert_all(
                    a.deep_view(),
                    attribute_resolver(self@.constant_pool),
                    i as int,
                    attributes.deep_view(),
                ),
            decreases a.len() - i,
        {
            let ghost before = attributes.deep_view();
            let item = &a[i];
            assert(a.deep_view()[i as int] == item.deep_view());
            let name = self.constant_pool.get_item(&item.attribute_name_index)?;
            let attribute = Attribute { name, info: slice_to_vec(item.info.as_slice()) };
            attributes.push(attribute);
            assert(attributes.deep_view() =~= before.push(attribute.deep_view()));
            i = i + 1;
        }
        Ok(attributes)
    }
}

} // verus!
