use vstd::prelude::*;
use vstd::string::StringExecFns;

verus! {

/// The kinds of failure a conversion can end with.
#[derive(PartialEq, Eq, Structural, Clone, Copy, Debug)]
pub enum ErrorKind {
    Io,
    Archive,
    SheetNotFound,
    Decode,
    MalformedIndex,
    IndexOutOfRange,
    MalformedDocument,
}

/// A failure of a conversion, with what is known of its cause.
#[derive(Clone, Debug)]
pub enum ConvertError {
    /// Reading the archive or writing the output failed.
    Io(String),
    /// The input is no archive, or a required part cannot be opened.
    Archive(String),
    /// The requested worksheet has no part in the archive.
    SheetNotFound(String),
    /// The XML of a part is not well formed.
    Decode(String),
    /// A string-typed cell holds something other than a non-negative integer.
    MalformedIndex(String),
    /// A string-typed cell refers past the end of the shared-string table.
    IndexOutOfRange(String),
    /// The worksheet ends inside a row.
    MalformedDocument,
}

/// The name under which a kind of failure is reported.
pub open spec fn kind_label(k: ErrorKind) -> Seq<char> {
    match k {
        ErrorKind::Io => "i/o error"@,
        ErrorKind::Archive => "archive error"@,
        ErrorKind::SheetNotFound => "sheet not found"@,
        ErrorKind::Decode => "decode error"@,
        ErrorKind::MalformedIndex => "malformed shared-string index"@,
        ErrorKind::IndexOutOfRange => "shared-string index out of range"@,
        ErrorKind::MalformedDocument => "malformed document"@,
    }
}

impl ConvertError {
    pub open spec fn spec_kind(&self) -> ErrorKind {
        match self {
            ConvertError::Io(_) => ErrorKind::Io,
            ConvertError::Archive(_) => ErrorKind::Archive,
            ConvertError::SheetNotFound(_) => ErrorKind::SheetNotFound,
            ConvertError::Decode(_) => ErrorKind::Decode,
            ConvertError::MalformedIndex(_) => ErrorKind::MalformedIndex,
            ConvertError::IndexOutOfRange(_) => ErrorKind::IndexOutOfRange,
            ConvertError::MalformedDocument => ErrorKind::MalformedDocument,
        }
    }

    /// The text that the failure carries; for an unterminated row, a fixed one.
    pub open spec fn spec_detail(&self) -> Seq<char> {
        match self {
            ConvertError::Io(m) => m@,
            ConvertError::Archive(m) => m@,
            ConvertError::SheetNotFound(m) => m@,
            ConvertError::Decode(m) => m@,
            ConvertError::MalformedIndex(m) => m@,
            ConvertError::IndexOutOfRange(m) => m@,
            ConvertError::MalformedDocument => "the worksheet ends inside a row"@,
        }
    }

    /// A message for a person: what kind of failure, then its text.
    pub fn message(&self) -> (r: String)
        ensures
            r@ == kind_label(self.spec_kind()) + ": "@ + self.spec_detail(),
    {
        let (label, detail) = match self {
            ConvertError::Io(m) => (String::from_str("i/o error"), m.clone()),
            ConvertError::Archive(m) => (String::from_str("archive error"), m.clone()),
            ConvertError::SheetNotFound(m) => (String::from_str("sheet not found"), m.clone()),
            ConvertError::Decode(m) => (String::from_str("decode error"), m.clone()),
            ConvertError::MalformedIndex(m) => (String::from_str("malformed shared-string index"), m.clone()),
            ConvertError::IndexOutOfRange(m) => (String::from_str("shared-string index out of range"), m.clone()),
            ConvertError::MalformedDocument => (
                String::from_str("malformed document"),
                String::from_str("the worksheet ends inside a row"),
            ),
        };
        let mut r = label;
        r.append(": ");
        r.append(detail.as_str());
        r
    }

    #[verifier::when_used_as_spec(spec_kind)]
    pub fn kind(&self) -> (k: ErrorKind)
        ensures
            k == self.spec_kind(),
    {
        match self {
            ConvertError::Io(_) => ErrorKind::Io,
            ConvertError::Archive(_) => ErrorKind::Archive,
            ConvertError::SheetNotFound(_) => ErrorKind::SheetNotFound,
            ConvertError::Decode(_) => ErrorKind::Decode,
            ConvertError::MalformedIndex(_) => ErrorKind::MalformedIndex,
            ConvertError::IndexOutOfRange(_) => ErrorKind::IndexOutOfRange,
            ConvertError::MalformedDocument => ErrorKind::MalformedDocument,
        }
    }
}

} // verus!
