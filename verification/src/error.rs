//! The ways in which decoding can fail.
use vstd::prelude::*;

verus! {

/// A failure to decode.  Every failure is local to the structure being
/// decoded and says where in the input it arose.
#[derive(Debug, Clone, PartialEq, Eq)]
pub enum Error {
    /// The input does not begin with the class-file magic number.
    NotAClassFile { magic: u32 },
    /// The input ended inside a field: `needed` bytes were wanted at
    /// `offset`, and `label` names the field where one was given.
    TruncatedInput { offset: usize, needed: usize, label: Option<String> },
    /// The byte at `offset` is not the tag of any kind of constant.
    InvalidConstantTag { offset: usize, tag: u8 },
    /// The text constant whose bytes begin at `offset` is not valid UTF-8.
    MalformedUtf8 { offset: usize },
    /// Slot `index` of the constant pool holds nothing that can be resolved,
    /// or resolving it went deeper than any well-formed pool requires.
    UnresolvedReference { index: u16 },
    /// The opcode at `offset` lies in the undefined range.
    UnsupportedOpcode { offset: usize, opcode: u8 },
    /// The input ended inside the operands of the instruction `opcode`;
    /// `offset` is where the missing bytes should have begun.
    TruncatedInstruction { offset: usize, opcode: u8 },
    /// The instruction region of `length` bytes ends inside an instruction;
    /// `consumed` bytes had been decoded when that was noticed.
    MisalignedInstructionStream { length: u32, consumed: usize },
    /// An annotation element carries a value of a kind that is not decoded.
    UnsupportedAttributeValue { tag: u8 },
    /// A class attribute has a name that is not known.
    UnknownAttribute { name: String },
}

/// The mathematical value of an [`Error`].
pub enum ErrorView {
    NotAClassFile { magic: u32 },
    TruncatedInput { offset: int, needed: int, label: Option<Seq<char>> },
    InvalidConstantTag { offset: int, tag: u8 },
    MalformedUtf8 { offset: int },
    UnresolvedReference { index: u16 },
    UnsupportedOpcode { offset: int, opcode: u8 },
    TruncatedInstruction { offset: int, opcode: u8 },
    MisalignedInstructionStream { length: u32, consumed: int },
    UnsupportedAttributeValue { tag: u8 },
    UnknownAttribute { name: Seq<char> },
}

impl DeepView for Error {
    type V = ErrorView;

    open spec fn deep_view(&self) -> ErrorView {
        match *self {
            Error::NotAClassFile { magic } => ErrorView::NotAClassFile { magic },
            Error::TruncatedInput { offset, needed, label } => ErrorView::TruncatedInput {
                offset: offset as int,
                needed: needed as int,
                label: label.deep_view(),
            },
            Error::InvalidConstantTag { offset, tag } => ErrorView::InvalidConstantTag {
                offset: offset as int,
                tag,
            },
            Error::MalformedUtf8 { offset } => ErrorView::MalformedUtf8 { offset: offset as int },
            Error::UnresolvedReference { index } => ErrorView::UnresolvedReference { index },
            Error::UnsupportedOpcode { offset, opcode } => ErrorView::UnsupportedOpcode {
                offset: offset as int,
                opcode,
            },
            Error::TruncatedInstruction { offset, opcode } => ErrorView::TruncatedInstruction {
                offset: offset as int,
                opcode,
            },
            Error::MisalignedInstructionStream { length, consumed } => {
                ErrorView::MisalignedInstructionStream { length, consumed: consumed as int }
            },
            Error::UnsupportedAttributeValue { tag } => ErrorView::UnsupportedAttributeValue {
                tag,
            },
            Error::UnknownAttribute { name } => ErrorView::UnknownAttribute { name: name@ },
        }
    }
}

impl View for Error {
    type V = ErrorView;

    open spec fn view(&self) -> ErrorView {
        self.deep_view()
    }
}

/// The mathematical value of the outcome of a decoding step: the value of
/// what was decoded, or the value of the failure.
pub open spec fn outcome<T: DeepView>(r: Result<T, Error>) -> Result<T::V, ErrorView> {
    match r {
        Ok(v) => Ok(v.deep_view()),
        Err(e) => Err(e.deep_view()),
    }
}

} // verus!
