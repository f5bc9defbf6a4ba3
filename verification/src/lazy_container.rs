//! The container tree: directories that hold named values and named
//! containers.
//!
//! A container is known by its path alone. Nothing is remembered of what a
//! directory held: whoever resolves a name looks on the disk at that moment
//! and tells what is there.

use vstd::prelude::*;
use crate::error::{LDBError, LDBErrorView};
use crate::lazy_data::{FileWrapper, FileWrapperView, LazyData};
use crate::lazy_type::LazyType;
use crate::codec::spec_decode_tag;
use crate::path::{join_path, joined_path};

verus! {

/// A directory of the store.
#[derive(Clone, Debug, PartialEq, Eq)]
pub struct LazyContainer {
    path: String,
}

impl View for LazyContainer {
    type V = Seq<char>;

    /// The path of the directory.
    closed spec fn view(&self) -> Seq<char> {
        self.path@
    }
}

impl LazyContainer {
    /// The container at `path`, where `is_dir` tells whether a directory
    /// stands there. There is no container where there is no directory.
    pub fn load(path: &str, is_dir: bool) -> (result: Result<LazyContainer, LDBError>)
        ensures
            match result {
                Ok(container) => is_dir && container@ == path@,
                Err(error) => !is_dir && error@ == LDBErrorView::DirNotFound(path@),
            },
    {
        if !is_dir {
            return Err(LDBError::DirNotFound(path.to_owned()));
        }
        Ok(LazyContainer { path: path.to_owned() })
    }

    /// The path of the directory.
    pub fn path(&self) -> (path: &str)
        ensures
            path@ == self@,
    {
        self.path.as_str()
    }

    /// The path at which the child or the value called `name` stands: the
    /// container's path with the name joined to it.
    pub fn child_path(&self, name: &str) -> (path: String)
        ensures
            path@ == joined_path(self@, name@),
    {
        join_path(self.path.as_str(), name)
    }

    /// The child container called `name`, where `is_dir` tells whether a
    /// directory stands at its path. A name that is no directory is no
    /// container.
    pub fn child_container(&self, name: &str, is_dir: bool) -> (result: Result<
        LazyContainer,
        LDBError,
    >)
        ensures
            match result {
                Ok(child) => is_dir && child@ == joined_path(self@, name@),
                Err(error) => !is_dir && error@ == LDBErrorView::DirNotFound(
                    joined_path(self@, name@),
                ),
            },
    {
        let path = self.child_path(name);
        LazyContainer::load(path.as_str(), is_dir)
    }

    /// An empty file to write the value called `name` into. Nothing is
    /// created on the disk, and no directory above the file, until the
    /// file's `store` request is carried out.
    pub fn data_writer(&self, name: &str) -> (file: FileWrapper)
        ensures
            file@ == (FileWrapperView { path: joined_path(self@, name@), bytes: Seq::empty() }),
    {
        let path = self.child_path(name);
        FileWrapper::new_writer(path.as_str())
    }

    /// Opens the value stored at `path`, where `found` holds the bytes of
    /// the file that stands there, if one does.
    ///
    /// Where there is no file the value is not found; where there is one,
    /// opening fails exactly when the bytes do not open with a tag.
    pub fn read_leaf(path: &str, found: Option<Vec<u8>>) -> (result: Result<LazyData, LDBError>)
        ensures
            match result {
                Ok(data) => found matches Some(bytes) && data.opens(bytes@)
                    && data.wrapper@.path == path@,
                Err(error) => match found {
                    None => error@ == LDBErrorView::FileNotFound(path@),
                    Some(bytes) => spec_decode_tag(bytes@) == Err::<LazyType, LDBErrorView>(
                        error@,
                    ),
                },
            },
    {
        match found {
            None => Err(LDBError::FileNotFound(path.to_owned())),
            Some(bytes) => LazyData::load(FileWrapper::new_reader(path, bytes)),
        }
    }

    /// Opens the value called `name`, where `found` holds the bytes of the
    /// file that stands at its path, if one does. A name that is no file is
    /// no value.
    pub fn read_data(&self, name: &str, found: Option<Vec<u8>>) -> (result: Result<
        LazyData,
        LDBError,
    >)
        ensures
            match result {
                Ok(data) => found matches Some(bytes) && data.opens(bytes@)
                    && data.wrapper@.path == joined_path(self@, name@),
                Err(error) => match found {
                    None => error@ == LDBErrorView::FileNotFound(joined_path(self@, name@)),
                    Some(bytes) => spec_decode_tag(bytes@) == Err::<LazyType, LDBErrorView>(
                        error@,
                    ),
                },
            },
    {
        let path = self.child_path(name);
        LazyContainer::read_leaf(path.as_str(), found)
    }
}

} // verus!
