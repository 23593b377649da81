use vstd::prelude::*;

verus! {

/// A section index that names no section of the container.
#[derive(Debug, Clone, Copy, PartialEq, Eq, Structural)]
pub struct OffsetError;

impl OffsetError {
    /// A short description of the error.
    pub fn message(&self) -> (r: &'static str)
        ensures
            r@ == "bad offset"@,
    {
        "bad offset"
    }
}

/// The region of a container in which parsing failed.
#[derive(Debug, Clone, Copy, PartialEq, Eq, Structural)]
pub enum CoffError {
    BadFileHeader,
    BadOptionalHeader,
    BadSections,
    BadSymbols,
    BadStrings,
}

impl CoffError {
    /// The text shown to a user for this error.
    pub fn message(&self) -> (r: &'static str)
        ensures
            *self == CoffError::BadFileHeader ==> r@ == "bad file header"@,
            *self == CoffError::BadOptionalHeader ==> r@ == "bad optional header"@,
            *self == CoffError::BadSections ==> r@ == "bad section headers"@,
            *self == CoffError::BadSymbols ==> r@ == "bad symbols table"@,
            *self == CoffError::BadStrings ==> r@ == "bad strings table"@,
    {
        match self {
            CoffError::BadFileHeader => "bad file header",
            CoffError::BadOptionalHeader => "bad optional header",
            CoffError::BadSections => "bad section headers",
            CoffError::BadSymbols => "bad symbols table",
            CoffError::BadStrings => "bad strings table",
        }
    }

    /// A short description of the error; both header errors read alike.
    pub fn description(&self) -> (r: &'static str)
        ensures
            *self == CoffError::BadFileHeader ==> r@ == "bad file header"@,
            *self == CoffError::BadOptionalHeader ==> r@ == "bad file header"@,
            *self == CoffError::BadSections ==> r@ == "bad section headers"@,
            *self == CoffError::BadSymbols ==> r@ == "bad symbols table"@,
            *self == CoffError::BadStrings ==> r@ == "bad strings table"@,
    {
        match self {
            CoffError::BadFileHeader => "bad file header",
            CoffError::BadOptionalHeader => "bad file header",
            CoffError::BadSections => "bad section headers",
            CoffError::BadSymbols => "bad symbols table",
            CoffError::BadStrings => "bad strings table",
        }
    }
}

/// An error while decoding the instruction stream.
#[derive(Debug, Clone, Copy, PartialEq, Eq, Structural)]
pub enum DecodeError {
    /// The stream ended before the instruction did.
    IoExhausted,
    /// An unknown opcode, a reserved descriptor encoding or an illegal operand.
    ParseError,
}

impl DecodeError {
    /// The text shown to a user for this error.
    pub fn message(&self) -> (r: &'static str)
        ensures
            *self == DecodeError::IoExhausted ==> r@ == "io error on decode"@,
            *self == DecodeError::ParseError ==> r@ == "parse error on decode"@,
    {
        match self {
            DecodeError::IoExhausted => "io error on decode",
            DecodeError::ParseError => "parse error on decode",
        }
    }
}

} // verus!
