//! Stored values as the caller handles them: an in-memory file to write a
//! value into, and a handle on a stored value that decodes it on demand.

use vstd::prelude::*;
use vstd::slice::*;
use crate::codec::{
    append_bytes, decode_body, decode_tag, law_decode_as_other_type, law_decode_of_encode,
    law_encoding_opens_with_tag, law_tag_is_in_the_head, spec_decode_body, spec_decode_payload,
    spec_decode_tag, value_result_view, LazyValue, LazyValueView,
};
use crate::disk::{Request, RequestView};
use crate::error::{LDBError, LDBErrorView};
use crate::lazy_type::LazyType;

pub mod writing;
pub mod collecting;

verus! {

/// One file, held in memory: its path, and the bytes that have been written
/// and not been read yet. Writing appends at the end, reading takes from the
/// front.
#[derive(Debug)]
pub struct FileWrapper {
    path: String,
    bytes: Vec<u8>,
}

/// A file as contracts see it.
pub struct FileWrapperView {
    /// The path of the file.
    pub path: Seq<char>,
    /// The bytes that have been written and not been read yet.
    pub bytes: Seq<u8>,
}

impl FileWrapperView {
    /// The file after `bytes` were written to it: at the same path, with
    /// the bytes at its end.
    pub open spec fn written(self, bytes: Seq<u8>) -> FileWrapperView {
        FileWrapperView { path: self.path, bytes: self.bytes + bytes }
    }

    /// The file after its first `count` bytes were read, or all of them
    /// where it holds fewer: at the same path, without those bytes.
    pub open spec fn read(self, count: nat) -> FileWrapperView {
        FileWrapperView {
            path: self.path,
            bytes: if count <= self.bytes.len() {
                self.bytes.subrange(count as int, self.bytes.len() as int)
            } else {
                Seq::empty()
            },
        }
    }
}

impl View for FileWrapper {
    type V = FileWrapperView;

    closed spec fn view(&self) -> FileWrapperView {
        FileWrapperView { path: self.path@, bytes: self.bytes@ }
    }
}

impl FileWrapper {
    /// An empty file to write into, to stand at `path`.
    pub fn new_writer(path: &str) -> (file: FileWrapper)
        ensures
            file@ == (FileWrapperView { path: path@, bytes: Seq::empty() }),
    {
        FileWrapper { path: path.to_owned(), bytes: Vec::new() }
    }

    /// The file that was read at `path`, with its bytes.
    pub fn new_reader(path: &str, bytes: Vec<u8>) -> (file: FileWrapper)
        ensures
            file@ == (FileWrapperView { path: path@, bytes: bytes@ }),
    {
        FileWrapper { path: path.to_owned(), bytes }
    }

    /// The path of the file.
    pub fn path(&self) -> (path: &str)
        ensures
            path@ == self@.path,
    {
        self.path.as_str()
    }

    /// Appends `bytes` to the file.
    pub fn write(&mut self, bytes: &[u8])
        ensures
            final(self)@ == old(self)@.written(bytes@),
    {
        append_bytes(&mut self.bytes, bytes);
    }

    /// Takes the first `count` bytes off the file, or all of them where the
    /// file holds fewer.
    pub fn read(&mut self, count: usize) -> (bytes: Vec<u8>)
        ensures
            bytes@ == if count <= old(self)@.bytes.len() {
                old(self)@.bytes.subrange(0, count as int)
            } else {
                old(self)@.bytes
            },
            final(self)@ == old(self)@.read(count as nat),
    {
        let total: usize = self.bytes.len();
        if count >= total {
            let mut taken: Vec<u8> = Vec::new();
            taken.append(&mut self.bytes);
            proof {
                let before = old(self)@.bytes;
                assert(taken@ =~= before);
                assert(before.subrange(0, total as int) =~= before);
                assert(before.subrange(total as int, total as int) =~= Seq::<u8>::empty());
            }
            taken
        } else {
            let taken = slice_to_vec(slice_subrange(self.bytes.as_slice(), 0, count));
            let left = slice_to_vec(slice_subrange(self.bytes.as_slice(), count, total));
            self.bytes = left;
            taken
        }
    }

    /// Takes all bytes off the file.
    pub fn read_to_end(&mut self) -> (bytes: Vec<u8>)
        ensures
            bytes@ == old(self)@.bytes,
            final(self)@ == (FileWrapperView { path: old(self)@.path, bytes: Seq::empty() }),
    {
        let mut taken: Vec<u8> = Vec::new();
        taken.append(&mut self.bytes);
        proof {
            assert(taken@ =~= old(self)@.bytes);
        }
        taken
    }

    /// The bytes of the file.
    pub fn into_bytes(self) -> (bytes: Vec<u8>)
        ensures
            bytes@ == self@.bytes,
    {
        self.bytes
    }

    /// The request that puts this file on the disk: the file at its path is
    /// created, or emptied, and gets the bytes.
    pub fn store(self) -> (request: Request)
        ensures
            request@ == RequestView::WriteFile(self@.path, self@.bytes),
    {
        Request::WriteFile(self.path, self.bytes)
    }
}

/// A stored value whose tag has been read and whose payload has not been
/// decoded yet.
#[derive(Debug)]
pub struct LazyData {
    /// The tag that the stored value opens with.
    pub lazy_type: LazyType,
    /// The file, read up to the end of the tag.
    pub wrapper: FileWrapper,
}

impl LazyData {
    /// The bytes that follow the tag.
    pub open spec fn payload(&self) -> Seq<u8> {
        self.wrapper@.bytes
    }

    /// What collecting this value as a value of the type `expected` gives:
    /// the error that names both types when the stored tag belongs to
    /// another type, and else what the payload spells under the stored tag.
    pub open spec fn value_as(&self, expected: LazyType) -> Result<LazyValueView, LDBErrorView> {
        if !self.lazy_type.spec_same_type(expected) {
            Err(LDBErrorView::IncorrectType { expected, found: self.lazy_type })
        } else {
            spec_decode_body(self.lazy_type, self.payload())
        }
    }

    /// What opening a file with the given bytes gives: the tag that the
    /// bytes open with, and the bytes after it as the payload.
    pub open spec fn opens(&self, bytes: Seq<u8>) -> bool {
        &&& spec_decode_tag(bytes) == Ok::<LazyType, LDBErrorView>(self.lazy_type)
        &&& self.payload() == bytes.subrange(
            self.lazy_type.spec_tag_bytes().len() as int,
            bytes.len() as int,
        )
    }

    /// Opens a stored value: reads its tag and leaves the payload unread.
    /// The handle keeps the file's path.
    ///
    /// This fails exactly when the file does not open with a tag.
    pub fn load(file: FileWrapper) -> (result: Result<LazyData, LDBError>)
        ensures
            match result {
                Ok(data) => data.opens(file@.bytes) && data.wrapper@.path == file@.path,
                Err(error) => spec_decode_tag(file@.bytes) == Err::<LazyType, LDBErrorView>(
                    error@,
                ),
            },
    {
        let mut file = file;
        match decode_tag(file.bytes.as_slice()) {
            Ok(lazy_type) => {
                let _tag = file.read(lazy_type.tag_len());
                Ok(LazyData { lazy_type, wrapper: file })
            },
            Err(error) => Err(error),
        }
    }

    /// Decodes the payload as a value of the type `expected`. The handle is
    /// used up.
    pub fn collect_as(self, expected: LazyType) -> (result: Result<LazyValue, LDBError>)
        ensures
            value_result_view(result) == self.value_as(expected),
    {
        if !self.lazy_type.same_type(expected) {
            return Err(LDBError::IncorrectType { expected, found: self.lazy_type });
        }
        let mut wrapper = self.wrapper;
        let payload = wrapper.read_to_end();
        decode_body(self.lazy_type, payload.as_slice())
    }

    /// What was written comes back, and as nothing else: a handle that
    /// was opened on the stored form of a value carries the value's tag;
    /// collected as a value of its own type it gives the value, and
    /// collected as a value of another type it gives the error that names
    /// both types.
    pub proof fn law_collect_of_written(value: LazyValueView, data: LazyData, expected: LazyType)
        requires
            data.opens(value.encoding()),
        ensures
            data.lazy_type == value.lazy_type(),
            value.lazy_type().spec_same_type(expected) ==> data.value_as(expected) == Ok::<
                LazyValueView,
                LDBErrorView,
            >(value),
            !value.lazy_type().spec_same_type(expected) ==> data.value_as(expected) == Err::<
                LazyValueView,
                LDBErrorView,
            >(LDBErrorView::IncorrectType { expected, found: value.lazy_type() }),
    {
        law_encoding_opens_with_tag(value);
        LazyData::law_load_then_collect(value.encoding(), data, expected);
        if value.lazy_type().spec_same_type(expected) {
            law_decode_of_encode(value, expected);
        } else {
            law_decode_as_other_type(value, expected);
        }
    }

    /// A value can be opened on the head of its file and be given the rest
    /// before it is collected: a handle that was opened on the first two
    /// bytes of a file, or on all of them, carries the tag of the whole
    /// file, and its payload with the rest of the file after it is the
    /// payload of the whole file.
    pub proof fn law_head_then_rest(bytes: Seq<u8>, count: int, data: LazyData)
        requires
            0 <= count <= bytes.len(),
            count >= 2 || count == bytes.len(),
            data.opens(bytes.subrange(0, count)),
        ensures
            spec_decode_tag(bytes) == Ok::<LazyType, LDBErrorView>(data.lazy_type),
            data.payload() + bytes.subrange(count, bytes.len() as int) == bytes.subrange(
                data.lazy_type.spec_tag_bytes().len() as int,
                bytes.len() as int,
            ),
    {
        law_tag_is_in_the_head(bytes, count);
        let skip = data.lazy_type.spec_tag_bytes().len() as int;
        assert(data.payload() + bytes.subrange(count, bytes.len() as int) =~= bytes.subrange(
            skip,
            bytes.len() as int,
        ));
    }

    /// Opening a file and collecting the value is reading the file's bytes
    /// with the codec.
    pub proof fn law_load_then_collect(bytes: Seq<u8>, data: LazyData, expected: LazyType)
        requires
            data.opens(bytes),
        ensures
            data.value_as(expected) == spec_decode_payload(bytes, expected),
    {
    }
}

} // verus!
