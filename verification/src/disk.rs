//! What the store asks of the disk, and what the disk answers.
//!
//! The store never touches a disk. Where an operation needs one, it hands
//! its caller a [`Request`]; the caller performs it and hands back a
//! [`Reply`].

use vstd::prelude::*;
use crate::error::{LDBError, LDBErrorView};

verus! {

/// One thing to look up or to do on the disk.
#[derive(Clone, Debug, PartialEq, Eq)]
pub enum Request {
    /// Is there a directory at this path?
    IsDir(String),
    /// Is there a file at this path?
    IsFile(String),
    /// Read the whole file at this path.
    ReadFile(String),
    /// Create the file at this path, or empty it, and write the bytes.
    WriteFile(String, Vec<u8>),
    /// Create the directory at this path, and those above it.
    CreateDirAll(String),
    /// Remove the file at this path.
    RemoveFile(String),
    /// Remove the directory at this path with all that it holds.
    RemoveDirAll(String),
    /// Pack the directory tree at `dir` into the one file `tar`.
    BuildTar { dir: String, tar: String },
    /// Compress the file `from` into the file `to`.
    CompressFile { from: String, to: String },
    /// Decompress the file `from` into the file `to`.
    DecompressFile { from: String, to: String },
    /// Unpack the file `tar` into the directory tree at `dir`.
    UnpackTar { tar: String, dir: String },
}

/// A request as contracts see it.
pub enum RequestView {
    IsDir(Seq<char>),
    IsFile(Seq<char>),
    ReadFile(Seq<char>),
    WriteFile(Seq<char>, Seq<u8>),
    CreateDirAll(Seq<char>),
    RemoveFile(Seq<char>),
    RemoveDirAll(Seq<char>),
    BuildTar { dir: Seq<char>, tar: Seq<char> },
    CompressFile { from: Seq<char>, to: Seq<char> },
    DecompressFile { from: Seq<char>, to: Seq<char> },
    UnpackTar { tar: Seq<char>, dir: Seq<char> },
}

impl View for Request {
    type V = RequestView;

    open spec fn view(&self) -> RequestView {
        match *self {
            Request::IsDir(path) => RequestView::IsDir(path@),
            Request::IsFile(path) => RequestView::IsFile(path@),
            Request::ReadFile(path) => RequestView::ReadFile(path@),
            Request::WriteFile(path, bytes) => RequestView::WriteFile(path@, bytes@),
            Request::CreateDirAll(path) => RequestView::CreateDirAll(path@),
            Request::RemoveFile(path) => RequestView::RemoveFile(path@),
            Request::RemoveDirAll(path) => RequestView::RemoveDirAll(path@),
            Request::BuildTar { dir, tar } => RequestView::BuildTar { dir: dir@, tar: tar@ },
            Request::CompressFile { from, to } => RequestView::CompressFile {
                from: from@,
                to: to@,
            },
            Request::DecompressFile { from, to } => RequestView::DecompressFile {
                from: from@,
                to: to@,
            },
            Request::UnpackTar { tar, dir } => RequestView::UnpackTar { tar: tar@, dir: dir@ },
        }
    }
}

/// The disk's answer to one request.
#[derive(Debug)]
pub enum Reply {
    /// The answer to a question: yes or no.
    Flag(bool),
    /// The bytes of the file that was to be read.
    Bytes(Vec<u8>),
    /// What was to be done has been done.
    Done,
    /// The request could not be carried out.
    Failed(LDBError),
}

/// A reply as contracts see it.
pub enum ReplyView {
    Flag(bool),
    Bytes(Seq<u8>),
    Done,
    Failed(LDBErrorView),
}

impl View for Reply {
    type V = ReplyView;

    open spec fn view(&self) -> ReplyView {
        match *self {
            Reply::Flag(flag) => ReplyView::Flag(flag),
            Reply::Bytes(bytes) => ReplyView::Bytes(bytes@),
            Reply::Done => ReplyView::Done,
            Reply::Failed(error) => ReplyView::Failed(error@),
        }
    }
}

} // verus!
