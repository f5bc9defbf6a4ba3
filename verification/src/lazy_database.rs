//! The life cycle of a database: a directory with a version stamp, and the
//! compressed archive that it can be packed into.
//!
//! A database is created, opened, packed and unpacked in several steps on
//! the disk, and what happens next depends on how the last step went. Such
//! an operation is a [`Task`]: it names the one request that it waits for,
//! and `resume` takes the reply and says how the operation goes on.

use vstd::prelude::*;
use crate::codec::{encode, law_decode_of_encode, spec_decode_payload, LazyValue, LazyValueView};
use crate::disk::{Reply, ReplyView, Request, RequestView};
use crate::error::{LDBError, LDBErrorView};
use crate::lazy_container::LazyContainer;
use crate::lazy_data::{FileWrapper, LazyData};
use crate::lazy_type::LazyType;
use crate::path::{
    below, is_below, is_child, is_outside, join_path, joined_path, lemma_below_within,
    lemma_store_extensions, lies_below, lies_outside, path_with_extension, with_extension,
};
use crate::version::{Version, VERSION_BUILD, VERSION_MAJOR, VERSION_MINOR};

pub mod script;
pub mod model;

verus! {

/// A handle on an open database.
#[derive(Debug)]
pub struct LazyDB {
    path: String,
    compressed: bool,
}

/// A database handle as contracts see it.
pub struct LazyDBView {
    /// The directory that holds the database.
    pub path: Seq<char>,
    /// Whether the directory is the unpacked form of an archive, to be
    /// packed again and removed when the handle is disposed of.
    pub compiled: bool,
}

impl View for LazyDB {
    type V = LazyDBView;

    closed spec fn view(&self) -> LazyDBView {
        LazyDBView { path: self.path@, compiled: self.compressed }
    }
}

/// The places of one database on the disk.
#[derive(Clone, Debug, PartialEq, Eq)]
pub struct Layout {
    /// The directory that holds the database.
    pub dir: String,
    /// The file in that directory that holds the version stamp.
    pub meta: String,
    /// The compressed archive.
    pub archive: String,
    /// The uncompressed pack that stands between the two for a moment.
    pub tar: String,
}

/// A layout as contracts see it.
pub struct LayoutView {
    pub dir: Seq<char>,
    pub meta: Seq<char>,
    pub archive: Seq<char>,
    pub tar: Seq<char>,
}

impl View for Layout {
    type V = LayoutView;

    open spec fn view(&self) -> LayoutView {
        LayoutView { dir: self.dir@, meta: self.meta@, archive: self.archive@, tar: self.tar@ }
    }
}

impl LayoutView {
    /// The layout of the database in the directory `dir`: the stamp is the
    /// file `.meta` in it, the archive and the pack stand beside it under
    /// its name with the extensions `ldb` and `tmp.tar`.
    pub open spec fn of_directory(dir: Seq<char>) -> LayoutView {
        LayoutView {
            dir,
            meta: joined_path(dir, ".meta"@),
            archive: path_with_extension(dir, "ldb"@),
            tar: path_with_extension(dir, "tmp.tar"@),
        }
    }

    /// The layout of the database in the archive `archive`: the directory
    /// and the pack stand beside it under its name with the extensions
    /// `modb` and `tmp.tar`.
    pub open spec fn of_archive(archive: Seq<char>) -> LayoutView {
        LayoutView {
            dir: path_with_extension(archive, "modb"@),
            meta: joined_path(path_with_extension(archive, "modb"@), ".meta"@),
            archive,
            tar: path_with_extension(archive, "tmp.tar"@),
        }
    }

    /// The layout for packing the directory `dir` into the archive
    /// `archive`: the pack stands beside the directory.
    pub open spec fn packing(dir: Seq<char>, archive: Seq<char>) -> LayoutView {
        LayoutView {
            dir,
            meta: joined_path(dir, ".meta"@),
            archive,
            tar: path_with_extension(dir, "tmp.tar"@),
        }
    }

    /// The layout for unpacking the archive `archive` into the directory
    /// `dir`: the pack stands beside the archive.
    pub open spec fn unpacking(archive: Seq<char>, dir: Seq<char>) -> LayoutView {
        LayoutView {
            dir,
            meta: joined_path(dir, ".meta"@),
            archive,
            tar: path_with_extension(archive, "tmp.tar"@),
        }
    }
}

/// The stamp of a database stands in its directory itself: its path is
/// that of `.meta` within the directory, where the directory's path is not
/// empty and does not end in `/`.
pub proof fn law_stamp_lies_in_directory(dir: Seq<char>)
    requires
        dir.len() > 0,
        dir.last() != '/',
    ensures
        LayoutView::of_directory(dir).meta == below(dir, ".meta"@),
        is_child(dir, LayoutView::of_directory(dir).meta),
{
    reveal_strlit(".meta");
    lemma_below_within(dir, ".meta"@);
}

impl LayoutView {
    /// Whether the places keep apart: the stamp lies in the directory, the
    /// archive and the pack are two files, and both have no part in the
    /// directory. Packing then leaves the directory as it is, and removing
    /// the pack or the directory does not remove the archive.
    pub open spec fn keeps_apart(self) -> bool {
        &&& is_below(self.dir, self.meta)
        &&& self.archive != self.tar
        &&& is_outside(self.dir, self.archive)
        &&& is_outside(self.dir, self.tar)
    }
}

impl Layout {
    /// Whether the places keep apart.
    pub fn keeps_apart(&self) -> (apart: bool)
        ensures
            apart == self@.keeps_apart(),
    {
        let two_files: bool = !(self.archive == self.tar);
        lies_below(self.dir.as_str(), self.meta.as_str()) && two_files && lies_outside(
            self.dir.as_str(),
            self.archive.as_str(),
        ) && lies_outside(self.dir.as_str(), self.tar.as_str())
    }

    /// The layout of the database in the directory `dir`.
    pub fn of_directory(dir: &str) -> (layout: Layout)
        ensures
            layout@ == LayoutView::of_directory(dir@),
    {
        proof {
            lemma_store_extensions();
        }
        Layout {
            dir: dir.to_owned(),
            meta: join_path(dir, ".meta"),
            archive: with_extension(dir, "ldb"),
            tar: with_extension(dir, "tmp.tar"),
        }
    }

    /// The layout of the database in the archive `archive`.
    pub fn of_archive(archive: &str) -> (layout: Layout)
        ensures
            layout@ == LayoutView::of_archive(archive@),
    {
        proof {
            lemma_store_extensions();
        }
        let dir = with_extension(archive, "modb");
        let meta = join_path(dir.as_str(), ".meta");
        Layout { dir, meta, archive: archive.to_owned(), tar: with_extension(archive, "tmp.tar") }
    }

    /// The layout for packing the directory `dir` into the archive
    /// `archive`.
    pub fn packing(dir: &str, archive: &str) -> (layout: Layout)
        ensures
            layout@ == LayoutView::packing(dir@, archive@),
    {
        proof {
            lemma_store_extensions();
        }
        Layout {
            dir: dir.to_owned(),
            meta: join_path(dir, ".meta"),
            archive: archive.to_owned(),
            tar: with_extension(dir, "tmp.tar"),
        }
    }

    /// The layout for unpacking the archive `archive` into the directory
    /// `dir`.
    pub fn unpacking(archive: &str, dir: &str) -> (layout: Layout)
        ensures
            layout@ == LayoutView::unpacking(archive@, dir@),
    {
        proof {
            lemma_store_extensions();
        }
        Layout {
            dir: dir.to_owned(),
            meta: join_path(dir, ".meta"),
            archive: archive.to_owned(),
            tar: with_extension(archive, "tmp.tar"),
        }
    }
}

/// Where an operation stands: each stage is named after the operation and
/// the request that it waits for.
#[derive(Clone, Copy, Debug, PartialEq, Eq, Structural)]
pub enum Stage {
    /// Creating a database: is the directory there?
    InitIsDir,
    /// Creating a database: the directory is being created.
    InitCreateDir,
    /// Creating a database: is the stamp there?
    InitIsFile,
    /// Creating a database: the stamp is being written.
    InitWriteMeta,
    /// Opening a directory: is the directory there?
    LoadIsDir,
    /// Opening a directory: is the stamp there?
    LoadIsFile,
    /// Opening a directory: the stamp is being read.
    LoadReadMeta,
    /// Opening an archive: is its unpacked directory there already?
    OpenIsDir,
    /// Opening an archive: is the archive there?
    OpenIsFile,
    /// Opening an archive: the archive is being decompressed into the pack.
    OpenDecompress,
    /// Opening an archive: the pack is being unpacked into the directory.
    OpenUnpack,
    /// Opening an archive: the pack is being removed.
    OpenRemoveTar,
    /// Unpacking an archive: is the archive there?
    UnpackIsFile,
    /// Unpacking an archive: the archive is being decompressed into the pack.
    UnpackDecompress,
    /// Unpacking an archive: the pack is being unpacked into the directory.
    UnpackUnpack,
    /// Unpacking an archive: the pack is being removed.
    UnpackRemoveTar,
    /// Packing a directory: the directory is being packed.
    PackBuildTar,
    /// Packing a directory: the pack is being compressed into the archive.
    PackCompress,
    /// Packing a directory: the pack is being removed.
    PackRemoveTar,
    /// Disposing of a handle: the directory is being packed.
    CloseBuildTar,
    /// Disposing of a handle: the pack is being compressed into the archive.
    CloseCompress,
    /// Disposing of a handle: the pack is being removed.
    CloseRemoveTar,
    /// Disposing of a handle: the directory is being removed.
    CloseRemoveDir,
}

/// The stored form of the running version's stamp: a byte string of the
/// three version numbers.
pub open spec fn stamp_bytes() -> Seq<u8> {
    LazyValueView::Binary(seq![VERSION_MAJOR, VERSION_MINOR, VERSION_BUILD]).encoding()
}

impl Stage {
    /// The request that an operation waits for at this stage.
    pub open spec fn request(self, layout: LayoutView) -> RequestView {
        match self {
            Stage::InitIsDir | Stage::LoadIsDir | Stage::OpenIsDir => RequestView::IsDir(
                layout.dir,
            ),
            Stage::InitCreateDir => RequestView::CreateDirAll(layout.dir),
            Stage::InitIsFile | Stage::LoadIsFile => RequestView::IsFile(layout.meta),
            Stage::InitWriteMeta => RequestView::WriteFile(layout.meta, stamp_bytes()),
            Stage::LoadReadMeta => RequestView::ReadFile(layout.meta),
            Stage::OpenIsFile | Stage::UnpackIsFile => RequestView::IsFile(layout.archive),
            Stage::OpenDecompress | Stage::UnpackDecompress => RequestView::DecompressFile {
                from: layout.archive,
                to: layout.tar,
            },
            Stage::OpenUnpack | Stage::UnpackUnpack => RequestView::UnpackTar {
                tar: layout.tar,
                dir: layout.dir,
            },
            Stage::OpenRemoveTar | Stage::UnpackRemoveTar | Stage::PackRemoveTar
            | Stage::CloseRemoveTar => RequestView::RemoveFile(layout.tar),
            Stage::PackBuildTar | Stage::CloseBuildTar => RequestView::BuildTar {
                dir: layout.dir,
                tar: layout.tar,
            },
            Stage::PackCompress | Stage::CloseCompress => RequestView::CompressFile {
                from: layout.tar,
                to: layout.archive,
            },
            Stage::CloseRemoveDir => RequestView::RemoveDirAll(layout.dir),
        }
    }
}

/// An operation on a database that waits for the reply to one request.
#[derive(Debug)]
pub struct Task {
    stage: Stage,
    layout: Layout,
    compiled: bool,
}

/// A task as contracts see it.
pub struct TaskView {
    pub stage: Stage,
    pub layout: LayoutView,
    /// Whether the handle that the task ends with is that of an unpacked
    /// archive.
    pub compiled: bool,
}

impl View for Task {
    type V = TaskView;

    closed spec fn view(&self) -> TaskView {
        TaskView { stage: self.stage, layout: self.layout@, compiled: self.compiled }
    }
}

/// How an operation goes on after a reply.
#[derive(Debug)]
pub enum Step {
    /// The operation waits for the reply to the task's request.
    Pending(Task),
    /// The operation has ended with an open database.
    Opened(LazyDB),
    /// The operation has ended, and there is nothing to hand over.
    Completed,
    /// The operation has failed.
    Failed(LDBError),
}

/// A step as contracts see it.
pub enum StepView {
    Pending(TaskView),
    Opened(LazyDBView),
    Completed,
    Failed(LDBErrorView),
}

impl View for Step {
    type V = StepView;

    open spec fn view(&self) -> StepView {
        match *self {
            Step::Pending(task) => StepView::Pending(task@),
            Step::Opened(db) => StepView::Opened(db@),
            Step::Completed => StepView::Completed,
            Step::Failed(error) => StepView::Failed(error@),
        }
    }
}

impl TaskView {
    /// The request that the task waits for.
    pub open spec fn request(self) -> RequestView {
        self.stage.request(self.layout)
    }

    /// The operation goes on to another stage.
    pub open spec fn goes_to(self, stage: Stage) -> StepView {
        StepView::Pending(TaskView { stage, layout: self.layout, compiled: self.compiled })
    }

    /// The operation ends with the open database.
    pub open spec fn opened(self) -> StepView {
        StepView::Opened(LazyDBView { path: self.layout.dir, compiled: self.compiled })
    }

    /// The operation fails on a reply that lets it not go on: with the
    /// error of a request that failed, or because the reply is of the wrong
    /// kind for the request.
    pub open spec fn refused(reply: ReplyView) -> StepView {
        match reply {
            ReplyView::Failed(error) => StepView::Failed(error),
            _ => StepView::Failed(LDBErrorView::UnexpectedReply),
        }
    }

    /// What the bytes of a version stamp say of the database.
    ///
    /// The stamp must be a stored byte string of exactly three bytes, and
    /// its first byte, the major version, must be that of the running
    /// version. The other two bytes are free.
    pub open spec fn stamp_read(self, bytes: Seq<u8>) -> StepView {
        match spec_decode_payload(bytes, LazyType::Binary) {
            Err(error) => StepView::Failed(error),
            Ok(value) => match value {
                LazyValueView::Binary(stamp) => if stamp.len() != 3 {
                    StepView::Failed(LDBErrorView::InvalidMetaVersion(self.layout.meta))
                } else if stamp[0] != VERSION_MAJOR {
                    StepView::Failed(
                        LDBErrorView::IncompatibleVersion(
                            Version { major: stamp[0], minor: stamp[1], build: stamp[2] },
                        ),
                    )
                } else {
                    self.opened()
                },
                _ => StepView::Failed(LDBErrorView::InvalidMetaVersion(self.layout.meta)),
            },
        }
    }

    /// How the operation goes on after the reply to its request.
    ///
    /// Creating a database makes the directory where there is none and
    /// writes the stamp where there is none. Opening a directory wants the
    /// directory, then the stamp, then a stamp of the running major
    /// version. Opening an archive opens its unpacked directory where that
    /// is there already, and else unpacks the archive first. Packing and
    /// unpacking go through their three steps. All of these fail at the
    /// first request that fails. Disposing of a handle packs the directory
    /// and then removes it; where a step fails it ends quietly and leaves
    /// the directory as it is.
    pub open spec fn resume(self, reply: ReplyView) -> StepView {
        match self.stage {
            Stage::InitIsDir => match reply {
                ReplyView::Flag(is_dir) => if is_dir {
                    self.goes_to(Stage::InitIsFile)
                } else {
                    self.goes_to(Stage::InitCreateDir)
                },
                _ => TaskView::refused(reply),
            },
            Stage::InitCreateDir => match reply {
                ReplyView::Done => self.goes_to(Stage::InitIsFile),
                _ => TaskView::refused(reply),
            },
            Stage::InitIsFile => match reply {
                ReplyView::Flag(is_file) => if is_file {
                    self.opened()
                } else {
                    self.goes_to(Stage::InitWriteMeta)
                },
                _ => TaskView::refused(reply),
            },
            Stage::InitWriteMeta => match reply {
                ReplyView::Done => self.opened(),
                _ => TaskView::refused(reply),
            },
            Stage::LoadIsDir => match reply {
                ReplyView::Flag(is_dir) => if is_dir {
                    self.goes_to(Stage::LoadIsFile)
                } else {
                    StepView::Failed(LDBErrorView::DirNotFound(self.layout.dir))
                },
                _ => TaskView::refused(reply),
            },
            Stage::LoadIsFile => match reply {
                ReplyView::Flag(is_file) => if is_file {
                    self.goes_to(Stage::LoadReadMeta)
                } else {
                    StepView::Failed(LDBErrorView::MissingMetadata(self.layout.meta))
                },
                _ => TaskView::refused(reply),
            },
            Stage::LoadReadMeta => match reply {
                ReplyView::Bytes(bytes) => self.stamp_read(bytes),
                _ => TaskView::refused(reply),
            },
            Stage::OpenIsDir => match reply {
                ReplyView::Flag(is_dir) => if is_dir {
                    self.goes_to(Stage::LoadIsDir)
                } else {
                    self.goes_to(Stage::OpenIsFile)
                },
                _ => TaskView::refused(reply),
            },
            Stage::OpenIsFile => match reply {
                ReplyView::Flag(is_file) => if is_file {
                    self.goes_to(Stage::OpenDecompress)
                } else {
                    StepView::Failed(LDBErrorView::FileNotFound(self.layout.archive))
                },
                _ => TaskView::refused(reply),
            },
            Stage::OpenDecompress => match reply {
                ReplyView::Done => self.goes_to(Stage::OpenUnpack),
                _ => TaskView::refused(reply),
            },
            Stage::OpenUnpack => match reply {
                ReplyView::Done => self.goes_to(Stage::OpenRemoveTar),
                _ => TaskView::refused(reply),
            },
            Stage::OpenRemoveTar => match reply {
                ReplyView::Done => self.goes_to(Stage::LoadIsDir),
                _ => TaskView::refused(reply),
            },
            Stage::UnpackIsFile => match reply {
                ReplyView::Flag(is_file) => if is_file {
                    self.goes_to(Stage::UnpackDecompress)
                } else {
                    StepView::Failed(LDBErrorView::FileNotFound(self.layout.archive))
                },
                _ => TaskView::refused(reply),
            },
            Stage::UnpackDecompress => match reply {
                ReplyView::Done => self.goes_to(Stage::UnpackUnpack),
                _ => TaskView::refused(reply),
            },
            Stage::UnpackUnpack => match reply {
                ReplyView::Done => self.goes_to(Stage::UnpackRemoveTar),
                _ => TaskView::refused(reply),
            },
            Stage::UnpackRemoveTar => match reply {
                ReplyView::Done => StepView::Completed,
                _ => TaskView::refused(reply),
            },
            Stage::PackBuildTar => match reply {
                ReplyView::Done => self.goes_to(Stage::PackCompress),
                _ => TaskView::refused(reply),
            },
            Stage::PackCompress => match reply {
                ReplyView::Done => self.goes_to(Stage::PackRemoveTar),
                _ => TaskView::refused(reply),
            },
            Stage::PackRemoveTar => match reply {
                ReplyView::Done => StepView::Completed,
                _ => TaskView::refused(reply),
            },
            Stage::CloseBuildTar => match reply {
                ReplyView::Done => self.goes_to(Stage::CloseCompress),
                _ => StepView::Completed,
            },
            Stage::CloseCompress => match reply {
                ReplyView::Done => self.goes_to(Stage::CloseRemoveTar),
                _ => StepView::Completed,
            },
            Stage::CloseRemoveTar => match reply {
                ReplyView::Done => self.goes_to(Stage::CloseRemoveDir),
                _ => StepView::Completed,
            },
            Stage::CloseRemoveDir => StepView::Completed,
        }
    }

    /// Creating the database in the directory `path`.
    pub open spec fn init(path: Seq<char>) -> TaskView {
        TaskView {
            stage: Stage::InitIsDir,
            layout: LayoutView::of_directory(path),
            compiled: false,
        }
    }

    /// Creating the database that belongs to the archive `path`, in the
    /// directory beside it.
    pub open spec fn init_db(path: Seq<char>) -> TaskView {
        TaskView {
            stage: Stage::InitIsDir,
            layout: LayoutView::of_directory(path_with_extension(path, "modb"@)),
            compiled: true,
        }
    }

    /// Opening the database in the directory `path`.
    pub open spec fn load_dir(path: Seq<char>) -> TaskView {
        TaskView {
            stage: Stage::LoadIsDir,
            layout: LayoutView::of_directory(path),
            compiled: false,
        }
    }

    /// Opening the database in the archive `path`.
    pub open spec fn load_db(path: Seq<char>) -> TaskView {
        TaskView { stage: Stage::OpenIsDir, layout: LayoutView::of_archive(path), compiled: true }
    }

    /// Packing the directory `dir` into the archive `out_path`.
    pub open spec fn compile(dir: Seq<char>, out_path: Seq<char>) -> TaskView {
        TaskView {
            stage: Stage::PackBuildTar,
            layout: LayoutView::packing(dir, out_path),
            compiled: false,
        }
    }

    /// Unpacking the archive `path` into the directory `out_path`.
    pub open spec fn decompile(path: Seq<char>, out_path: Seq<char>) -> TaskView {
        TaskView {
            stage: Stage::UnpackIsFile,
            layout: LayoutView::unpacking(path, out_path),
            compiled: false,
        }
    }

    /// Disposing of a handle on the unpacked archive in the directory
    /// `dir`.
    pub open spec fn dispose(dir: Seq<char>) -> TaskView {
        TaskView {
            stage: Stage::CloseBuildTar,
            layout: LayoutView::of_directory(dir),
            compiled: true,
        }
    }
}

impl Task {
    /// The task that stands at `stage` with the given places.
    pub fn begin(stage: Stage, layout: Layout, compiled: bool) -> (task: Task)
        ensures
            task@ == (TaskView { stage, layout: layout@, compiled }),
    {
        Task { stage, layout, compiled }
    }

    /// The places that the operation works on.
    pub fn layout(&self) -> (layout: &Layout)
        ensures
            layout@ == self@.layout,
    {
        &self.layout
    }

    /// The task, if its places keep apart, and nothing if they do not.
    ///
    /// The paths of the directory, the archive and the pack are made from
    /// one another by renaming, and a path without a file name renames to
    /// itself. Whoever wants to be sure that packing cannot touch the
    /// directory or the archive asks here before the first request.
    pub fn kept_apart(self) -> (kept: Option<Task>)
        ensures
            match kept {
                Some(task) => task@ == self@ && self@.layout.keeps_apart(),
                None => !self@.layout.keeps_apart(),
            },
    {
        if self.layout.keeps_apart() {
            Some(self)
        } else {
            None
        }
    }

    /// Where the operation stands.
    pub fn stage(&self) -> (stage: Stage)
        ensures
            stage == self@.stage,
    {
        self.stage
    }

    /// The request that the task waits for.
    pub fn request(&self) -> (request: Request)
        ensures
            request@ == self@.request(),
    {
        let layout = &self.layout;
        match self.stage {
            Stage::InitIsDir | Stage::LoadIsDir | Stage::OpenIsDir => Request::IsDir(
                layout.dir.clone(),
            ),
            Stage::InitCreateDir => Request::CreateDirAll(layout.dir.clone()),
            Stage::InitIsFile | Stage::LoadIsFile => Request::IsFile(layout.meta.clone()),
            Stage::InitWriteMeta => {
                let stamp = encode(
                    &LazyValue::Binary(vec![VERSION_MAJOR, VERSION_MINOR, VERSION_BUILD]),
                );
                Request::WriteFile(layout.meta.clone(), stamp)
            },
            Stage::LoadReadMeta => Request::ReadFile(layout.meta.clone()),
            Stage::OpenIsFile | Stage::UnpackIsFile => Request::IsFile(layout.archive.clone()),
            Stage::OpenDecompress | Stage::UnpackDecompress => Request::DecompressFile {
                from: layout.archive.clone(),
                to: layout.tar.clone(),
            },
            Stage::OpenUnpack | Stage::UnpackUnpack => Request::UnpackTar {
                tar: layout.tar.clone(),
                dir: layout.dir.clone(),
            },
            Stage::OpenRemoveTar | Stage::UnpackRemoveTar | Stage::PackRemoveTar
            | Stage::CloseRemoveTar => Request::RemoveFile(layout.tar.clone()),
            Stage::PackBuildTar | Stage::CloseBuildTar => Request::BuildTar {
                dir: layout.dir.clone(),
                tar: layout.tar.clone(),
            },
            Stage::PackCompress | Stage::CloseCompress => Request::CompressFile {
                from: layout.tar.clone(),
                to: layout.archive.clone(),
            },
            Stage::CloseRemoveDir => Request::RemoveDirAll(layout.dir.clone()),
        }
    }

    fn goes_to(self, stage: Stage) -> (step: Step)
        ensures
            step@ == self@.goes_to(stage),
    {
        Step::Pending(Task { stage, layout: self.layout, compiled: self.compiled })
    }

    fn opened(self) -> (step: Step)
        ensures
            step@ == self@.opened(),
    {
        Step::Opened(LazyDB { path: self.layout.dir, compressed: self.compiled })
    }

    fn refused(reply: Reply) -> (step: Step)
        ensures
            step@ == TaskView::refused(reply@),
    {
        match reply {
            Reply::Failed(error) => Step::Failed(error),
            _ => Step::Failed(LDBError::UnexpectedReply),
        }
    }

    /// Goes on to `next` when the reply says that the request was carried
    /// out, and fails on any other reply.
    fn after_done(self, reply: Reply, next: Stage) -> (step: Step)
        ensures
            step@ == match reply@ {
                ReplyView::Done => self@.goes_to(next),
                _ => TaskView::refused(reply@),
            },
    {
        match reply {
            Reply::Done => self.goes_to(next),
            other => Task::refused(other),
        }
    }

    /// Ends when the reply says that the request was carried out, and fails
    /// on any other reply.
    fn ends_after_done(reply: Reply) -> (step: Step)
        ensures
            step@ == match reply@ {
                ReplyView::Done => StepView::Completed,
                _ => TaskView::refused(reply@),
            },
    {
        match reply {
            Reply::Done => Step::Completed,
            other => Task::refused(other),
        }
    }

    /// Goes on to `next` when the reply says that the request was carried
    /// out, and ends quietly on any other reply.
    fn quietly_after_done(self, reply: Reply, next: Stage) -> (step: Step)
        ensures
            step@ == match reply@ {
                ReplyView::Done => self@.goes_to(next),
                _ => StepView::Completed,
            },
    {
        match reply {
            Reply::Done => self.goes_to(next),
            _ => Step::Completed,
        }
    }

    /// What the bytes of a version stamp say of the database.
    fn stamp_read(self, bytes: Vec<u8>) -> (step: Step)
        ensures
            step@ == self@.stamp_read(bytes@),
    {
        let file = FileWrapper::new_reader(self.layout.meta.as_str(), bytes);
        let data = match LazyData::load(file) {
            Ok(data) => data,
            Err(error) => {
                return Step::Failed(error);
            },
        };
        proof {
            LazyData::law_load_then_collect(bytes@, data, LazyType::Binary);
        }
        let stamp = match data.collect_binary() {
            Ok(stamp) => stamp,
            Err(error) => {
                return Step::Failed(error);
            },
        };
        if stamp.len() != 3 {
            return Step::Failed(LDBError::InvalidMetaVersion(self.layout.meta));
        }
        let stored = Version::new(stamp[0], stamp[1], stamp[2]);
        if !Version::current().is_compatible(&stored) {
            return Step::Failed(LDBError::IncompatibleVersion(stored));
        }
        self.opened()
    }

    /// Takes the reply to the task's request and says how the operation
    /// goes on.
    pub fn resume(self, reply: Reply) -> (step: Step)
        ensures
            step@ == self@.resume(reply@),
    {
        match self.stage {
            Stage::InitIsDir => match reply {
                Reply::Flag(is_dir) => if is_dir {
                    self.goes_to(Stage::InitIsFile)
                } else {
                    self.goes_to(Stage::InitCreateDir)
                },
                other => Task::refused(other),
            },
            Stage::InitCreateDir => self.after_done(reply, Stage::InitIsFile),
            Stage::InitIsFile => match reply {
                Reply::Flag(is_file) => if is_file {
                    self.opened()
                } else {
                    self.goes_to(Stage::InitWriteMeta)
                },
                other => Task::refused(other),
            },
            Stage::InitWriteMeta => match reply {
                Reply::Done => self.opened(),
                other => Task::refused(other),
            },
            Stage::LoadIsDir => match reply {
                Reply::Flag(is_dir) => if is_dir {
                    self.goes_to(Stage::LoadIsFile)
                } else {
                    Step::Failed(LDBError::DirNotFound(self.layout.dir))
                },
                other => Task::refused(other),
            },
            Stage::LoadIsFile => match reply {
                Reply::Flag(is_file) => if is_file {
                    self.goes_to(Stage::LoadReadMeta)
                } else {
                    Step::Failed(LDBError::MissingMetadata(self.layout.meta))
                },
                other => Task::refused(other),
            },
            Stage::LoadReadMeta => match reply {
                Reply::Bytes(bytes) => self.stamp_read(bytes),
                other => Task::refused(other),
            },
            Stage::OpenIsDir => match reply {
                Reply::Flag(is_dir) => if is_dir {
                    self.goes_to(Stage::LoadIsDir)
                } else {
                    self.goes_to(Stage::OpenIsFile)
                },
                other => Task::refused(other),
            },
            Stage::OpenIsFile => match reply {
                Reply::Flag(is_file) => if is_file {
                    self.goes_to(Stage::OpenDecompress)
                } else {
                    Step::Failed(LDBError::FileNotFound(self.layout.archive))
                },
                other => Task::refused(other),
            },
            Stage::OpenDecompress => self.after_done(reply, Stage::OpenUnpack),
            Stage::OpenUnpack => self.after_done(reply, Stage::OpenRemoveTar),
            Stage::OpenRemoveTar => self.after_done(reply, Stage::LoadIsDir),
            Stage::UnpackIsFile => match reply {
                Reply::Flag(is_file) => if is_file {
                    self.goes_to(Stage::UnpackDecompress)
                } else {
                    Step::Failed(LDBError::FileNotFound(self.layout.archive))
                },
                other => Task::refused(other),
            },
            Stage::UnpackDecompress => self.after_done(reply, Stage::UnpackUnpack),
            Stage::UnpackUnpack => self.after_done(reply, Stage::UnpackRemoveTar),
            Stage::UnpackRemoveTar => Task::ends_after_done(reply),
            Stage::PackBuildTar => self.after_done(reply, Stage::PackCompress),
            Stage::PackCompress => self.after_done(reply, Stage::PackRemoveTar),
            Stage::PackRemoveTar => Task::ends_after_done(reply),
            Stage::CloseBuildTar => self.quietly_after_done(reply, Stage::CloseCompress),
            Stage::CloseCompress => self.quietly_after_done(reply, Stage::CloseRemoveTar),
            Stage::CloseRemoveTar => self.quietly_after_done(reply, Stage::CloseRemoveDir),
            Stage::CloseRemoveDir => Step::Completed,
        }
    }
}

impl LazyDB {
    /// Creates a database in the directory `path`.
    ///
    /// The task creates the directory, and those above it, where it is not
    /// there, and writes the stamp of the running version where the
    /// directory has none. It ends with a handle on the directory.
    pub fn init(path: &str) -> (task: Task)
        ensures
            task@ == TaskView::init(path@),
    {
        Task::begin(Stage::InitIsDir, Layout::of_directory(path), false)
    }

    /// Creates a database that is kept as an archive: its directory stands
    /// beside `path` with the extension `modb`, and it is packed when the
    /// handle is disposed of.
    pub fn init_db(path: &str) -> (task: Task)
        ensures
            task@ == TaskView::init_db(path@),
    {
        proof {
            lemma_store_extensions();
        }
        let dir = with_extension(path, "modb");
        Task::begin(Stage::InitIsDir, Layout::of_directory(dir.as_str()), true)
    }

    /// Opens the database in the directory `path`.
    ///
    /// The task fails where there is no such directory, where the directory
    /// has no stamp, where the stamp is not a byte string of three bytes,
    /// and where its major version is not the running one.
    pub fn load_dir(path: &str) -> (task: Task)
        ensures
            task@ == TaskView::load_dir(path@),
    {
        Task::begin(Stage::LoadIsDir, Layout::of_directory(path), false)
    }

    /// Opens the database in the archive `path`.
    ///
    /// Where the directory beside the archive, with the extension `modb`,
    /// is there already, the task opens it as it is. Else it unpacks the
    /// archive into that directory first. Either way it ends with a handle
    /// that packs the directory again when it is disposed of.
    ///
    /// A directory that is there is not held against the archive: its stamp
    /// is checked like that of any directory, but the archive may be newer or
    /// older than what the directory holds.
    pub fn load_db(path: &str) -> (task: Task)
        ensures
            task@ == TaskView::load_db(path@),
    {
        Task::begin(Stage::OpenIsDir, Layout::of_archive(path), true)
    }

    /// The root container of the database, where `is_dir` tells whether the
    /// database's directory still stands on the disk.
    pub fn as_container(&self, is_dir: bool) -> (result: Result<LazyContainer, LDBError>)
        ensures
            match result {
                Ok(container) => is_dir && container@ == self@.path,
                Err(error) => !is_dir && error@ == LDBErrorView::DirNotFound(self@.path),
            },
    {
        LazyContainer::load(self.path.as_str(), is_dir)
    }

    /// The directory that holds the database.
    pub fn path(&self) -> (path: &str)
        ensures
            path@ == self@.path,
    {
        self.path.as_str()
    }

    /// Whether the directory is the unpacked form of an archive.
    pub fn is_compiled(&self) -> (compiled: bool)
        ensures
            compiled == self@.compiled,
    {
        self.compressed
    }

    /// Packs the database's directory into the archive `out_path`: the
    /// directory is packed, the pack is compressed into the archive, and the
    /// pack is removed. The directory stays.
    pub fn compile(&self, out_path: &str) -> (task: Task)
        ensures
            task@ == TaskView::compile(self@.path, out_path@),
    {
        Task::begin(Stage::PackBuildTar, Layout::packing(self.path.as_str(), out_path), false)
    }

    /// Unpacks the archive `path` into the directory `out_path`: the archive
    /// is decompressed into a pack, the pack is unpacked into the directory,
    /// and the pack is removed. The archive stays. The task fails where
    /// there is no such archive.
    pub fn decompile(path: &str, out_path: &str) -> (task: Task)
        ensures
            task@ == TaskView::decompile(path@, out_path@),
    {
        Task::begin(Stage::UnpackIsFile, Layout::unpacking(path, out_path), false)
    }

    /// Disposes of the handle.
    ///
    /// For a handle on a plain directory there is nothing to do. For a
    /// handle on an unpacked archive the directory is packed into the
    /// archive beside it, with the extension `ldb`, and then removed. Where
    /// packing fails the operation ends quietly, and the directory stays as
    /// it is.
    pub fn dispose(self) -> (step: Step)
        ensures
            step@ == if self@.compiled {
                StepView::Pending(TaskView::dispose(self@.path))
            } else {
                StepView::Completed
            },
    {
        if !self.compressed {
            return Step::Completed;
        }
        let layout = Layout::of_directory(self.path.as_str());
        Step::Pending(Task::begin(Stage::CloseBuildTar, layout, true))
    }
}

/// The stored form of a stamp that records the version `stored`.
pub open spec fn stamp_of(stored: Version) -> Seq<u8> {
    LazyValueView::Binary(seq![stored.major, stored.minor, stored.build]).encoding()
}

impl TaskView {
    /// Where a request fails, every operation but the disposal of a handle
    /// fails with that request's error.
    pub proof fn law_failure_surfaces(self, error: LDBErrorView)
        requires
            self.stage != Stage::CloseBuildTar,
            self.stage != Stage::CloseCompress,
            self.stage != Stage::CloseRemoveTar,
            self.stage != Stage::CloseRemoveDir,
        ensures
            self.resume(ReplyView::Failed(error)) == StepView::Failed(error),
    {
    }

    /// The stamp that creating a database writes is the stamp of the
    /// running version.
    pub proof fn law_stamp_is_of_running_version()
        ensures
            stamp_bytes() == stamp_of(Version::running()),
    {
    }

    /// A stamp that is a byte string of another length than three is
    /// corrupt.
    pub proof fn law_stamp_wants_three_bytes(self, stamp: Seq<u8>)
        requires
            stamp.len() != 3,
        ensures
            self.stamp_read(LazyValueView::Binary(stamp).encoding()) == StepView::Failed(
                LDBErrorView::InvalidMetaVersion(self.layout.meta),
            ),
    {
        law_decode_of_encode(LazyValueView::Binary(stamp), LazyType::Binary);
    }

    /// The version gate: a stamp of the running major version opens the
    /// database, whatever its minor and build numbers are, and a stamp of
    /// any other major version is refused as incompatible.
    pub proof fn law_version_gate(self, stored: Version)
        ensures
            self.stamp_read(stamp_of(stored)) == if stored.major == VERSION_MAJOR {
                self.opened()
            } else {
                StepView::Failed(LDBErrorView::IncompatibleVersion(stored))
            },
    {
        let stamp = seq![stored.major, stored.minor, stored.build];
        law_decode_of_encode(LazyValueView::Binary(stamp), LazyType::Binary);
    }
}

} // verus!
