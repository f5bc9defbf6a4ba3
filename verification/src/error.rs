//! The errors of the store.

use vstd::prelude::*;
use vstd::string::*;
use crate::lazy_type::LazyType;
use crate::version::Version;

verus! {

/// What the store was doing when an error came up.
#[derive(Debug)]
pub enum LDBErrContext<'a> {
    /// Compressing the pack at this path.
    WhileZipping(&'a str),
    /// Compressing the file at this path.
    WhileZippingFile(&'a str),
    /// Packing the directory at this path.
    WhileBuildingTarBall(&'a str),
    /// Something that has no name here.
    Undefined,
}

/// `walkdir::Error`, the error of a directory walk. Values of it are carried
/// through as they are; nothing is claimed of what they hold.
#[verifier::external_type_specification]
#[verifier::external_body]
pub struct ExWalkDirError(walkdir::Error);

/// `std::io::Error`, the error of an input or output operation. Values of it
/// are carried through as they are; nothing is claimed of what they hold.
#[verifier::external_type_specification]
#[verifier::external_body]
pub struct ExIoError(std::io::Error);

/// Every way in which an operation of the store can fail.
#[derive(Debug)]
pub enum LDBError {
    /// Reading or writing the disk failed.
    IOError(std::io::Error),
    /// Walking a directory tree failed.
    WalkDirError(walkdir::Error),
    /// No file stands at this path.
    FileNotFound(String),
    /// No directory stands at this path.
    DirNotFound(String),
    /// The stored bytes end before their type tag does.
    MissingLazyType,
    /// The stored bytes open with a byte that is no type tag.
    InvalidLazyType(u8),
    /// A value was asked for as one type and is stored as another.
    IncorrectType { expected: LazyType, found: LazyType },
    /// The payload of a string or a link is not valid UTF-8.
    InvalidUTF8String(Vec<u8>),
    /// The payload is `length` bytes long where its type takes `width`
    /// bytes, or a multiple of `width` bytes for an array.
    InvalidPayloadLength { length: usize, width: usize },
    /// The database has no version stamp: no file stands at this path, where
    /// the stamp belongs.
    MissingMetadata(String),
    /// The version stamp at this path is not made of exactly three bytes.
    InvalidMetaVersion(String),
    /// The database was written in a format of another major version.
    IncompatibleVersion(Version),
    /// The caller answered a request with a reply of the wrong kind.
    UnexpectedReply,
}

/// An error as contracts see it: texts as sequences of characters, bytes as
/// sequences of bytes.
pub enum LDBErrorView {
    IOError(std::io::Error),
    WalkDirError(walkdir::Error),
    FileNotFound(Seq<char>),
    DirNotFound(Seq<char>),
    MissingLazyType,
    InvalidLazyType(u8),
    IncorrectType { expected: LazyType, found: LazyType },
    InvalidUTF8String(Seq<u8>),
    InvalidPayloadLength { length: usize, width: usize },
    MissingMetadata(Seq<char>),
    InvalidMetaVersion(Seq<char>),
    IncompatibleVersion(Version),
    UnexpectedReply,
}

impl View for LDBError {
    type V = LDBErrorView;

    open spec fn view(&self) -> LDBErrorView {
        match *self {
            LDBError::IOError(e) => LDBErrorView::IOError(e),
            LDBError::WalkDirError(e) => LDBErrorView::WalkDirError(e),
            LDBError::FileNotFound(p) => LDBErrorView::FileNotFound(p@),
            LDBError::DirNotFound(p) => LDBErrorView::DirNotFound(p@),
            LDBError::MissingLazyType => LDBErrorView::MissingLazyType,
            LDBError::InvalidLazyType(tag) => LDBErrorView::InvalidLazyType(tag),
            LDBError::IncorrectType { expected, found } => LDBErrorView::IncorrectType {
                expected,
                found,
            },
            LDBError::InvalidUTF8String(bytes) => LDBErrorView::InvalidUTF8String(bytes@),
            LDBError::InvalidPayloadLength { length, width } =>
                LDBErrorView::InvalidPayloadLength { length, width },
            LDBError::MissingMetadata(p) => LDBErrorView::MissingMetadata(p@),
            LDBError::InvalidMetaVersion(p) => LDBErrorView::InvalidMetaVersion(p@),
            LDBError::IncompatibleVersion(v) => LDBErrorView::IncompatibleVersion(v),
            LDBError::UnexpectedReply => LDBErrorView::UnexpectedReply,
        }
    }
}

/// The debug text of an input or output error, as the `Debug` impl of
/// `std::io::Error` writes it. Nothing is claimed of the text.
#[verifier::external_body]
fn io_error_text(error: &std::io::Error) -> (text: String) {
    format!("{:?}", error)
}

/// The debug text of a directory walk's error, as the `Debug` impl of
/// `walkdir::Error` writes it. Nothing is claimed of the text.
#[verifier::external_body]
fn walkdir_error_text(error: &walkdir::Error) -> (text: String) {
    format!("{:?}", error)
}

impl LDBErrorView {
    /// The fixed text that opens the message of this error.
    pub open spec fn message_head(self) -> Seq<char> {
        match self {
            LDBErrorView::IOError(_) => "IO Error: "@,
            LDBErrorView::WalkDirError(_) => "WalkDir Error: "@,
            LDBErrorView::FileNotFound(_) => "File '"@,
            LDBErrorView::DirNotFound(_) => "Directory '"@,
            LDBErrorView::MissingLazyType => "The data ends before its type tag"@,
            LDBErrorView::InvalidLazyType(_) => "The data opens with an unknown type tag"@,
            LDBErrorView::IncorrectType { .. } => "The data holds a value of another type"@,
            LDBErrorView::InvalidUTF8String(_) => "The text is not valid UTF-8"@,
            LDBErrorView::InvalidPayloadLength { .. } =>
                "The length of the data does not fit its type"@,
            LDBErrorView::MissingMetadata(_) => "No version stamp in '"@,
            LDBErrorView::InvalidMetaVersion(_) => "Invalid version stamp in '"@,
            LDBErrorView::IncompatibleVersion(_) =>
                "The database has an incompatible major version"@,
            LDBErrorView::UnexpectedReply => "A request was answered by the wrong kind of reply"@,
        }
    }

    /// Whether `message` is a message of this error: the head, then the path
    /// in quotes where the error names one, then for a missing file or
    /// directory the words "not found". For the two errors that wrap an
    /// outside error, any text may follow the head.
    pub open spec fn has_message(self, message: Seq<char>) -> bool {
        match self {
            LDBErrorView::IOError(_) | LDBErrorView::WalkDirError(_) => exists|detail: Seq<char>|
                message == self.message_head() + detail,
            LDBErrorView::FileNotFound(p) | LDBErrorView::DirNotFound(p) => message
                == self.message_head() + p + "' not found"@,
            LDBErrorView::MissingMetadata(p) | LDBErrorView::InvalidMetaVersion(p) => message
                == self.message_head() + p + "'"@,
            _ => message == self.message_head(),
        }
    }
}

impl LDBError {
    /// The message of this error, for a person to read.
    pub fn message(&self) -> (message: String)
        ensures
            self@.has_message(message@),
    {
        match self {
            LDBError::IOError(e) => {
                let detail = io_error_text(e);
                let message = String::from_str("IO Error: ").concat(detail.as_str());
                assert(message@ == self@.message_head() + detail@);
                message
            },
            LDBError::WalkDirError(e) => {
                let detail = walkdir_error_text(e);
                let message = String::from_str("WalkDir Error: ").concat(detail.as_str());
                assert(message@ == self@.message_head() + detail@);
                message
            },
            LDBError::FileNotFound(p) => String::from_str("File '").concat(p.as_str()).concat(
                "' not found",
            ),
            LDBError::DirNotFound(p) => String::from_str("Directory '").concat(p.as_str()).concat(
                "' not found",
            ),
            LDBError::MissingLazyType => String::from_str("The data ends before its type tag"),
            LDBError::InvalidLazyType(_) => String::from_str(
                "The data opens with an unknown type tag",
            ),
            LDBError::IncorrectType { .. } => String::from_str(
                "The data holds a value of another type",
            ),
            LDBError::InvalidUTF8String(_) => String::from_str("The text is not valid UTF-8"),
            LDBError::InvalidPayloadLength { .. } => String::from_str(
                "The length of the data does not fit its type",
            ),
            LDBError::MissingMetadata(p) => String::from_str("No version stamp in '").concat(
                p.as_str(),
            ).concat("'"),
            LDBError::InvalidMetaVersion(p) => String::from_str(
                "Invalid version stamp in '",
            ).concat(p.as_str()).concat("'"),
            LDBError::IncompatibleVersion(_) => String::from_str(
                "The database has an incompatible major version",
            ),
            LDBError::UnexpectedReply => String::from_str(
                "A request was answered by the wrong kind of reply",
            ),
        }
    }
}

} // verus!
