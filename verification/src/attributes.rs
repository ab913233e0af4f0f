//! The attributes of a class that are interpreted: the name of the source
//! file, and the annotations that are visible at run time.
use vstd::prelude::*;
use vstd::string::StringExecFns;
use crate::class_file_reader::{be_u16, AttributeInfoView, Index};
use crate::constant_pool::{LiteralInfo, LiteralView, PoolView, MAX_DEPTH};
use crate::error::{outcome, Error, ErrorView};
use crate::list::read_list;
use crate::ClassFile;

verus! {

/// The mathematical value of an [`AnnotationReader`]: the content of the
/// attribute, and how much of it has been consumed.
pub struct AnnotationReaderView {
    pub bytes: Seq<u8>,
    pub pos: int,
}

impl AnnotationReaderView {
    /// The failure of a read of `n` bytes.
    pub open spec fn short(self, n: int) -> ErrorView {
        ErrorView::TruncatedInput { offset: self.pos, needed: n, label: None }
    }

    /// Reads a 16-bit unsigned integer, most significant byte first.
    pub open spec fn read_u16(self) -> (AnnotationReaderView, Result<u16, ErrorView>) {
        if 2 <= self.bytes.len() - self.pos {
            (
                AnnotationReaderView { pos: self.pos + 2, ..self },
                Ok(be_u16(self.bytes.subrange(self.pos, self.pos + 2))),
            )
        } else {
            (self, Err(self.short(2)))
        }
    }

    /// Reads one byte.
    pub open spec fn read_u8(self) -> (AnnotationReaderView, Result<u8, ErrorView>) {
        if 1 <= self.bytes.len() - self.pos {
            (AnnotationReaderView { pos: self.pos + 1, ..self }, Ok(self.bytes[self.pos]))
        } else {
            (self, Err(self.short(1)))
        }
    }
}

/// A sequential reader over the content of an attribute.
pub struct AnnotationReader<'a> {
    bytes: &'a [u8],
    pos: usize,
}

impl<'a> View for AnnotationReader<'a> {
    type V = AnnotationReaderView;

    closed spec fn view(&self) -> AnnotationReaderView {
        AnnotationReaderView { bytes: self.bytes@, pos: self.pos as int }
    }
}

impl<'a> AnnotationReader<'a> {
    #[verifier::type_invariant]
    spec fn within_input(&self) -> bool {
        self.pos <= self.bytes@.len()
    }

    /// A reader at the start of `info`.
    pub fn new(info: &'a Vec<u8>) -> (r: Self)
        ensures
            r@ == (AnnotationReaderView { bytes: info@, pos: 0 }),
    {
        Self { bytes: info.as_slice(), pos: 0 }
    }

    /// Reads a 16-bit unsigned integer, most significant byte first.
    pub fn read_u16(&mut self) -> (r: Result<u16, Error>)
        ensures
            (final(self)@, outcome(r)) == old(self)@.read_u16(),
    {
        proof {
            use_type_invariant(&*self);
        }
        if 2 <= self.bytes.len() - self.pos {
            let v = (self.bytes[self.pos] as u16) * 0x100 + (self.bytes[self.pos + 1] as u16);
            self.pos = self.pos + 2;
            Ok(v)
        } else {
            Err(Error::TruncatedInput { offset: self.pos, needed: 2, label: None })
        }
    }

    /// Reads one byte.
    pub fn read_u8(&mut self) -> (r: Result<u8, Error>)
        ensures
            (final(self)@, outcome(r)) == old(self)@.read_u8(),
    {
        proof {
            use_type_invariant(&*self);
        }
        if 1 <= self.bytes.len() - self.pos {
            let v = self.bytes[self.pos];
            self.pos = self.pos + 1;
            Ok(v)
        } else {
            Err(Error::TruncatedInput { offset: self.pos, needed: 1, label: None })
        }
    }
}

/// One element of an annotation: its name, and its value.
#[derive(Debug, Clone, PartialEq, Eq)]
pub struct ValuePair {
    name: String,
    value: LiteralInfo,
}

/// The mathematical value of a [`ValuePair`].
pub struct ValuePairView {
    pub name: Seq<char>,
    pub value: LiteralView,
}

impl DeepView for ValuePair {
    type V = ValuePairView;

    closed spec fn deep_view(&self) -> ValuePairView {
        ValuePairView { name: self.name@, value: self.value.deep_view() }
    }
}

/// An annotation that is visible at run time: the name of its type, and its
/// elements in the order of the file.
#[derive(Debug, Clone, PartialEq, Eq)]
pub struct Annotation {
    annotation_type: String,
    value_pair: Vec<ValuePair>,
}

/// The mathematical value of an [`Annotation`].
pub struct AnnotationView {
    pub annotation_type: Seq<char>,
    pub value_pair: Seq<ValuePairView>,
}

impl DeepView for Annotation {
    type V = AnnotationView;

    closed spec fn deep_view(&self) -> AnnotationView {
        AnnotationView { annotation_type: self.annotation_type@, value_pair: self.value_pair.deep_view() }
    }
}

/// Whether `tag` marks an element whose value is a constant of the pool:
/// one of the letters `B`, `C`, `D`, `F`, `I`, `J`, `S`, `Z` and `s`.
pub open spec fn is_constant_element(tag: u8) -> bool {
    tag == 66 || tag == 67 || tag == 68 || tag == 70 || tag == 73 || tag == 74 || tag == 83 || tag
        == 90 || tag == 115
}

/// Reads one element of an annotation: the slot of its name, the tag of
/// its value, and the slot of the literal that is its value.  An element of
/// any other tag is a failure.
pub open spec fn read_value_pair(pool: PoolView, s: AnnotationReaderView) -> (
    AnnotationReaderView,
    Result<ValuePairView, ErrorView>,
) {
    let (s1, r1) = s.read_u16();
    match r1 {
        Err(e) => (s1, Err(e)),
        Ok(index) => match pool.resolve(Index::Single(index), MAX_DEPTH as nat) {
            Err(e) => (s1, Err(e)),
            Ok(name) => {
                let (s2, r2) = s1.read_u8();
                match r2 {
                    Err(e) => (s2, Err(e)),
                    Ok(tag) => if !is_constant_element(tag) {
                        (s2, Err(ErrorView::UnsupportedAttributeValue { tag }))
                    } else {
                        let (s3, r3) = s2.read_u16();
                        match r3 {
                            Err(e) => (s3, Err(e)),
                            Ok(value_index) => match pool.literal(value_index) {
                                Err(e) => (s3, Err(e)),
                                Ok(value) => (s3, Ok(ValuePairView { name, value })),
                            },
                        }
                    },
                }
            },
        },
    }
}

/// How the elements of an annotation are read.
pub open spec fn value_pair_reader(pool: PoolView) -> spec_fn(AnnotationReaderView) -> (
    AnnotationReaderView,
    Result<ValuePairView, ErrorView>,
) {
    |s: AnnotationReaderView| read_value_pair(pool, s)
}

/// Reads one annotation: the slot of the name of its type, the count of its
/// elements, and the elements.
pub open spec fn read_annotation(pool: PoolView, s: AnnotationReaderView) -> (
    AnnotationReaderView,
    Result<AnnotationView, ErrorView>,
) {
    let (s1, r1) = s.read_u16();
    match r1 {
        Err(e) => (s1, Err(e)),
        Ok(index) => match pool.resolve(Index::Single(index), MAX_DEPTH as nat) {
            Err(e) => (s1, Err(e)),
            Ok(annotation_type) => {
                let (s2, r2) = s1.read_u16();
                match r2 {
                    Err(e) => (s2, Err(e)),
                    Ok(num) => {
                        let (s3, r3) = read_list(
                            s2,
                            num as int,
                            value_pair_reader(pool),
                            Seq::empty(),
                        );
                        match r3 {
                            Err(e) => (s3, Err(e)),
                            Ok(value_pair) => (s3, Ok(AnnotationView { annotation_type, value_pair })),
                        }
                    },
                }
            },
        },
    }
}

/// How the annotations of a list are read.
pub open spec fn annotation_reader(pool: PoolView) -> spec_fn(AnnotationReaderView) -> (
    AnnotationReaderView,
    Result<AnnotationView, ErrorView>,
) {
    |s: AnnotationReaderView| read_annotation(pool, s)
}

/// The annotations that the content `info` of an attribute holds: a count,
/// and then that many annotations.
pub open spec fn annotations_of(pool: PoolView, info: Seq<u8>) -> Result<
    Seq<AnnotationView>,
    ErrorView,
> {
    let (s1, r1) = (AnnotationReaderView { bytes: info, pos: 0 }).read_u16();
    match r1 {
        Err(e) => Err(e),
        Ok(num) => read_list(s1, num as int, annotation_reader(pool), Seq::empty()).1,
    }
}

/// The name of the source file that the content `info` of an attribute
/// refers to: `info` begins with the slot of the name.
pub open spec fn source_file_of(pool: PoolView, info: Seq<u8>) -> Result<Seq<char>, ErrorView> {
    match (AnnotationReaderView { bytes: info, pos: 0 }).read_u16().1 {
        Err(e) => Err(e),
        Ok(index) => pool.resolve(Index::Single(index), MAX_DEPTH as nat),
    }
}

impl ValuePair {
    /// Reads one element of an annotation.
    pub fn new(reader: &mut AnnotationReader, class_file: &ClassFile) -> (r: Result<Self, Error>)
        ensures
            (final(reader)@, outcome(r)) == read_value_pair(
                class_file@.constant_pool,
                old(reader)@,
            ),
    {
        let index = reader.read_u16()?;
        let name = class_file.constant_pool().get_item(&Index::Single(index))?;
        let tag = reader.read_u8()?;
        match tag {
            66 | 67 | 68 | 70 | 73 | 74 | 83 | 90 | 115 => {
                let value_index = reader.read_u16()?;
                let value = class_file.constant_pool().get_literal(value_index)?.duplicate();
                Ok(Self { name, value })
            },
            _ => Err(Error::UnsupportedAttributeValue { tag }),
        }
    }

    /// The name of the element.
    pub fn name(&self) -> (r: &String)
        ensures
            r@ == self.deep_view().name,
    {
        &self.name
    }

    /// The value of the element.
    pub fn value(&self) -> (r: &LiteralInfo)
        ensures
            r.deep_view() == self.deep_view().value,
    {
        &self.value
    }
}

impl Annotation {
    /// Reads one annotation.
    #[verifier::loop_isolation(false)]
    pub fn new(reader: &mut AnnotationReader, class_file: &ClassFile) -> (r: Result<Self, Error>)
        ensures
            (final(reader)@, outcome(r)) == read_annotation(
                class_file@.constant_pool,
                old(reader)@,
            ),
    {
        let index = reader.read_u16()?;
        let annotation_type = class_file.constant_pool().get_item(&Index::Single(index))?;
        let mut pairs = Vec::<ValuePair>::new();
        let num = reader.read_u16()?;
        let ghost start = reader@;
        let ghost pool = class_file@.constant_pool;
        let mut i: u16 = 0;
        assert(pairs.deep_view() =~= Seq::empty());
        while i < num
            invariant
                i <= num,
                read_list(start, num as int, value_pair_reader(pool), Seq::empty()) == read_list(
                    reader@,
                    num - i,
                    value_pair_reader(pool),
                    pairs.deep_view(),
                ),
            decreases num - i,
        {
            let ghost before = pairs.deep_view();
            let pair = ValuePair::new(reader, class_file)?;
            pairs.push(pair);
            assert(pairs.deep_view() =~= before.push(pair.deep_view()));
            i = i + 1;
        }
        Ok(Self { annotation_type, value_pair: pairs })
    }

    /// The name of the type of the annotation.
    pub fn annotation_type(&self) -> (r: &String)
        ensures
            r@ == self.deep_view().annotation_type,
    {
        &self.annotation_type
    }

    /// The elements of the annotation.
    pub fn value_pairs(&self) -> (r: &Vec<ValuePair>)
        ensures
            r.deep_view() == self.deep_view().value_pair,
    {
        &self.value_pair
    }
}

/// The attributes of a class that are interpreted.
#[derive(Debug, Default, Clone, PartialEq, Eq)]
pub struct ClassAttributes {
    pub source_file: Option<String>,
    pub runtime_visible_annotations: Option<Vec<Annotation>>,
}

/// The mathematical value of a [`ClassAttributes`].
pub struct ClassAttributesView {
    pub source_file: Option<Seq<char>>,
    pub runtime_visible_annotations: Option<Seq<AnnotationView>>,
}

impl DeepView for ClassAttributes {
    type V = ClassAttributesView;

    open spec fn deep_view(&self) -> ClassAttributesView {
        ClassAttributesView {
            source_file: self.source_file.deep_view(),
            runtime_visible_annotations: self.runtime_visible_annotations.deep_view(),
        }
    }
}

/// What is known of the attributes of a class once the attribute `a` is
/// taken into account, where `acc` was known before:
/// - `SourceFile` gives the name of the source file;
/// - `RuntimeVisibleAnnotations` gives the annotations;
/// - `SourceDebugExtension`, `InnerClasses` and `BootstrapMethods` give
///   nothing;
/// - an attribute of any other name is a failure.
pub open spec fn interpret_attribute(
    pool: PoolView,
    a: AttributeInfoView,
    acc: ClassAttributesView,
) -> Result<ClassAttributesView, ErrorView> {
    match pool.resolve(a.attribute_name_index, MAX_DEPTH as nat) {
        Err(e) => Err(e),
        Ok(name) => if name == "SourceFile"@ {
            match source_file_of(pool, a.info) {
                Err(e) => Err(e),
                Ok(source_file) => Ok(
                    ClassAttributesView { source_file: Some(source_file), ..acc },
                ),
            }
        } else if name == "RuntimeVisibleAnnotations"@ {
            match annotations_of(pool, a.info) {
                Err(e) => Err(e),
                Ok(annotations) => Ok(
                    ClassAttributesView { runtime_visible_annotations: Some(annotations), ..acc },
                ),
            }
        } else if name == "SourceDebugExtension"@ || name == "InnerClasses"@ || name
            == "BootstrapMethods"@ {
            Ok(acc)
        } else {
            Err(ErrorView::UnknownAttribute { name })
        },
    }
}

/// What is known of the attributes of a class once the attributes from the
/// one at `done` on are taken into account, in order, where `acc` was known
/// before.  The first failure is the outcome.
pub open spec fn interpret_attributes(
    pool: PoolView,
    attributes: Seq<AttributeInfoView>,
    done: int,
    acc: ClassAttributesView,
) -> Result<ClassAttributesView, ErrorView>
    decreases attributes.len() - done,
{
    if done < 0 || done >= attributes.len() {
        Ok(acc)
    } else {
        match interpret_attribute(pool, attributes[done], acc) {
            Ok(next) => interpret_attributes(pool, attributes, done + 1, next),
            Err(e) => Err(e),
        }
    }
}

/// Whether `name` is the text `literal`.
fn is_named(name: &String, literal: &str) -> (r: bool)
    ensures
        r == (name@ == literal@),
{
    let other = String::from_str(literal);
    *name == other
}

impl ClassAttributes {
    /// Interprets the attributes of `class_file`, in the order of the file.
    pub fn new(class_file: &ClassFile) -> (r: Result<Self, Error>)
        ensures
            outcome(r) == interpret_attributes(
                class_file@.constant_pool,
                class_file@.attributes,
                0,
                ClassAttributesView { source_file: None, runtime_visible_annotations: None },
            ),
    {
        let mut source_file: Option<String> = None;
        let mut runtime_visible_annotations: Option<Vec<Annotation>> = None;
        let attributes = class_file.attributes();
        let ghost pool = class_file@.constant_pool;
        let mut i: usize = 0;
        while i < attributes.len()
            invariant
                i <= attributes.len(),
                attributes.deep_view() == class_file@.attributes,
                pool == class_file@.constant_pool,
                interpret_attributes(
                    pool,
                    class_file@.attributes,
                    0,
                    ClassAttributesView { source_file: None, runtime_visible_annotations: None },
                ) == interpret_attributes(
                    pool,
                    class_file@.attributes,
                    i as int,
                    ClassAttributesView {
                        source_file: source_file.deep_view(),
                        runtime_visible_annotations: runtime_visible_annotations.deep_view(),
                    },
                ),
            decreases attributes.len() - i,
        {
            let a = &attributes[i];
            assert(class_file@.attributes[i as int] == a.deep_view());
            let name = class_file.constant_pool().get_item(&a.attribute_name_index)?;
            if is_named(&name, "SourceFile") {
                let mut reader = AnnotationReader::new(&a.info);
                let index = reader.read_u16()?;
                source_file = Some(class_file.constant_pool().get_item(&Index::Single(index))?);
            } else if is_named(&name, "RuntimeVisibleAnnotations") {
                runtime_visible_annotations = Some(
                    ClassAttributes::get_annotations(class_file, &a.info)?,
                );
            } else if is_named(&name, "SourceDebugExtension") || is_named(&name, "InnerClasses")
                || is_named(&name, "BootstrapMethods") {
            } else {
                return Err(Error::UnknownAttribute { name });
            }
            i = i + 1;
        }
        Ok(Self { source_file, runtime_visible_annotations })
    }

    /// Decodes the annotations that the content `info` of an attribute
    /// holds.
    #[verifier::loop_isolation(false)]
    pub fn get_annotations(class_file: &ClassFile, info: &Vec<u8>) -> (r: Result<
        Vec<Annotation>,
        Error,
    >)
        ensures
            outcome(r) == annotations_of(class_file@.constant_pool, info@),
    {
        let mut reader = AnnotationReader::new(info);
        let num = reader.read_u16()?;
        let ghost start = reader@;
        let ghost pool = class_file@.constant_pool;
        let mut annotations = Vec::<Annotation>::with_capacity(num as usize);
        let mut i: u16 = 0;
        assert(annotations.deep_view() =~= Seq::empty());
        while i < num
            invariant
                i <= num,
                read_list(start, num as int, annotation_reader(pool), Seq::empty()) == read_list(
                    reader@,
                    num - i,
                    annotation_reader(pool),
                    annotations.deep_view(),
                ),
            decreases num - i,
        {
            let ghost before = annotations.deep_view();
            let annotation = Annotation::new(&mut reader, class_file)?;
            annotations.push(annotation);
            assert(annotations.deep_view() =~= before.push(annotation.deep_view()));
            i = i + 1;
        }
        Ok(annotations)
    }
}

} // verus!
