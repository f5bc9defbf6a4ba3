//! A model of the disk, to say what the operations on a database achieve.
//!
//! The model is a map from paths to what stands there: a file with its
//! bytes, or a directory. What a directory holds is read off the paths: all
//! that stands at a path made of the directory's path, a `/` and more. A
//! directory is created together with every directory above it, where no
//! file stands in the way. A file is written where no directory stands in
//! its place and the directories above it stand. The archive backend is a
//! parameter, and the laws ask of it only what they need: that it brings
//! back the one tree that was packed.

use vstd::prelude::*;
use vstd::pervasive::arbitrary;
use crate::disk::{ReplyView, RequestView};
use crate::error::LDBErrorView;
use crate::lazy_database::{stamp_bytes, stamp_of, Stage, StepView, TaskView};
use crate::path::{
    are_apart, below, has_head, is_above, is_below, is_child, is_outside, lemma_above_of_child,
    lemma_apart_directories, lemma_below_within, lemma_heads_chain, lemma_within_below, within,
};
use crate::version::{Version, VERSION_MAJOR};

verus! {

/// What stands at a path.
pub enum NodeView {
    File(Seq<u8>),
    Dir,
}

/// What a directory holds: every file and directory below it, by its path
/// within the directory.
pub struct TreeView {
    pub nodes: Map<Seq<char>, NodeView>,
}

/// An archive backend: a way to pack a directory into bytes and to compress
/// bytes, with the ways back.
pub struct Backend {
    pub pack: spec_fn(TreeView) -> Seq<u8>,
    pub unpack: spec_fn(Seq<u8>) -> TreeView,
    pub compress: spec_fn(Seq<u8>) -> Seq<u8>,
    pub decompress: spec_fn(Seq<u8>) -> Seq<u8>,
}

impl Backend {
    /// The bytes of the archive that holds a tree.
    pub open spec fn archived(self, tree: TreeView) -> Seq<u8> {
        (self.compress)((self.pack)(tree))
    }

    /// The tree that the bytes of an archive hold.
    pub open spec fn unarchived(self, bytes: Seq<u8>) -> TreeView {
        (self.unpack)((self.decompress)(bytes))
    }

    /// Whether the backend brings this tree back: what the archive of the
    /// tree holds is the tree.
    pub open spec fn restores(self, tree: TreeView) -> bool {
        self.unarchived(self.archived(tree)) == tree
    }
}

/// The error of a request that the disk could not carry out. Nothing is
/// known of it but that it is an error of input or output.
pub open spec fn disk_error() -> LDBErrorView {
    LDBErrorView::IOError(arbitrary())
}

/// A disk: what stands at each path.
pub struct DiskModel {
    pub nodes: Map<Seq<char>, NodeView>,
}

impl DiskModel {
    /// Whether a directory stands at `path`.
    pub open spec fn is_dir(self, path: Seq<char>) -> bool {
        self.nodes.contains_key(path) && self.nodes[path] is Dir
    }

    /// Whether a file stands at `path`.
    pub open spec fn is_file(self, path: Seq<char>) -> bool {
        self.nodes.contains_key(path) && self.nodes[path] is File
    }

    /// The bytes of the file at `path`.
    pub open spec fn bytes(self, path: Seq<char>) -> Seq<u8> {
        self.nodes[path]->File_0
    }

    /// Whether nothing stands below the directory `dir`.
    pub open spec fn is_empty_below(self, dir: Seq<char>) -> bool {
        forall|path: Seq<char>| is_below(dir, path) ==> !self.nodes.contains_key(path)
    }

    /// What the directory `dir` holds.
    pub open spec fn tree(self, dir: Seq<char>) -> TreeView {
        TreeView {
            nodes: Map::new(
                |inner: Seq<char>| inner.len() > 0 && self.nodes.contains_key(below(dir, inner)),
                |inner: Seq<char>| self.nodes[below(dir, inner)],
            ),
        }
    }

    /// The disk with a file at `path` that has the bytes.
    pub open spec fn with_file(self, path: Seq<char>, bytes: Seq<u8>) -> DiskModel {
        DiskModel { nodes: self.nodes.insert(path, NodeView::File(bytes)) }
    }

    /// The disk with nothing at `path`.
    pub open spec fn without(self, path: Seq<char>) -> DiskModel {
        DiskModel { nodes: self.nodes.remove(path) }
    }

    /// Whether a directory stands at `path` and at every path above it.
    pub open spec fn holds_dir(self, path: Seq<char>) -> bool {
        &&& self.is_dir(path)
        &&& forall|above: Seq<char>| is_above(above, path) ==> self.is_dir(above)
    }

    /// Whether a directory can be created at `path`: no file stands there,
    /// and none at a path above it.
    pub open spec fn admits_dir(self, path: Seq<char>) -> bool {
        &&& !self.is_file(path)
        &&& forall|above: Seq<char>| is_above(above, path) ==> !self.is_file(above)
    }

    /// Whether a file can be written at `path`: no directory stands there,
    /// and a directory stands at every path above it.
    pub open spec fn admits_file(self, path: Seq<char>) -> bool {
        &&& !self.is_dir(path)
        &&& forall|above: Seq<char>| is_above(above, path) ==> self.is_dir(above)
    }

    /// The disk with a directory at `path` and at every path above it.
    pub open spec fn with_dirs(self, path: Seq<char>) -> DiskModel {
        DiskModel {
            nodes: Map::new(
                |at: Seq<char>| at == path || is_above(at, path) || self.nodes.contains_key(at),
                |at: Seq<char>|
                    if at == path || is_above(at, path) {
                        NodeView::Dir
                    } else {
                        self.nodes[at]
                    },
            ),
        }
    }

    /// The disk and the reply after a file with the bytes was to be put at
    /// `path`: the file stands there, where the disk admits it.
    pub open spec fn put_file(self, path: Seq<char>, bytes: Seq<u8>) -> (DiskModel, ReplyView) {
        if self.admits_file(path) {
            (self.with_file(path, bytes), ReplyView::Done)
        } else {
            (self, ReplyView::Failed(disk_error()))
        }
    }

    /// The disk with a directory at `dir` that holds the tree, over what
    /// stood at the same paths before.
    pub open spec fn with_tree(self, dir: Seq<char>, tree: TreeView) -> DiskModel {
        DiskModel {
            nodes: Map::new(
                |path: Seq<char>|
                    path == dir || (is_below(dir, path) && tree.nodes.contains_key(
                        within(dir, path),
                    )) || self.nodes.contains_key(path),
                |path: Seq<char>|
                    if path == dir {
                        NodeView::Dir
                    } else if is_below(dir, path) && tree.nodes.contains_key(within(dir, path)) {
                        tree.nodes[within(dir, path)]
                    } else {
                        self.nodes[path]
                    },
            ),
        }
    }

    /// The disk without the directory `dir` and all that stood below it.
    pub open spec fn without_tree(self, dir: Seq<char>) -> DiskModel {
        DiskModel {
            nodes: Map::new(
                |path: Seq<char>|
                    self.nodes.contains_key(path) && path != dir && !is_below(dir, path),
                |path: Seq<char>| self.nodes[path],
            ),
        }
    }

    /// The disk after a request, and the reply to the request.
    ///
    /// A question changes nothing. A file is written, or made by packing,
    /// compressing or decompressing, where no directory stands at its path
    /// and a directory stands at every path above it. A directory is
    /// created, or unpacked, together with every directory above it, where
    /// no file stands at its path or above. Reading, removing, packing,
    /// compressing and their ways back want the file or directory that they
    /// work on. A request that cannot be carried out fails and changes
    /// nothing.
    pub open spec fn answer(self, backend: Backend, request: RequestView) -> (
        DiskModel,
        ReplyView,
    ) {
        let failed = (self, ReplyView::Failed(disk_error()));
        match request {
            RequestView::IsDir(path) => (self, ReplyView::Flag(self.is_dir(path))),
            RequestView::IsFile(path) => (self, ReplyView::Flag(self.is_file(path))),
            RequestView::ReadFile(path) => if self.is_file(path) {
                (self, ReplyView::Bytes(self.bytes(path)))
            } else {
                failed
            },
            RequestView::WriteFile(path, bytes) => self.put_file(path, bytes),
            RequestView::CreateDirAll(path) => if self.admits_dir(path) {
                (self.with_dirs(path), ReplyView::Done)
            } else {
                failed
            },
            RequestView::RemoveFile(path) => if self.is_file(path) {
                (self.without(path), ReplyView::Done)
            } else {
                failed
            },
            RequestView::RemoveDirAll(path) => if self.is_dir(path) {
                (self.without_tree(path), ReplyView::Done)
            } else {
                failed
            },
            RequestView::BuildTar { dir, tar } => if self.is_dir(dir) {
                self.put_file(tar, (backend.pack)(self.tree(dir)))
            } else {
                failed
            },
            RequestView::CompressFile { from, to } => if self.is_file(from) {
                self.put_file(to, (backend.compress)(self.bytes(from)))
            } else {
                failed
            },
            RequestView::DecompressFile { from, to } => if self.is_file(from) {
                self.put_file(to, (backend.decompress)(self.bytes(from)))
            } else {
                failed
            },
            RequestView::UnpackTar { tar, dir } => if self.is_file(tar) && self.admits_dir(dir) {
                (
                    self.with_dirs(dir).with_tree(dir, (backend.unpack)(self.bytes(tar))),
                    ReplyView::Done,
                )
            } else {
                failed
            },
        }
    }

    /// What a directory holds does not change where directories are created
    /// at a path that does not lie below it, and above that path.
    pub proof fn lemma_tree_with_dirs(self, dir: Seq<char>, path: Seq<char>)
        requires
            !is_below(dir, path),
        ensures
            self.with_dirs(path).tree(dir) == self.tree(dir),
    {
        assert forall|inner: Seq<char>| inner.len() > 0 implies below(dir, inner) != path
            && !is_above(below(dir, inner), path) by {
            lemma_below_within(dir, inner);
            if is_above(below(dir, inner), path) {
                assert(path.subrange(0, dir.len() as int + 1) =~= path.subrange(
                    0,
                    below(dir, inner).len() as int + 1,
                ).subrange(0, dir.len() as int + 1));
                assert((below(dir, inner) + seq!['/']).subrange(0, dir.len() as int + 1)
                    =~= below(dir, inner).subrange(0, dir.len() as int + 1));
            }
        }
        assert(self.with_dirs(path).tree(dir).nodes =~= self.tree(dir).nodes);
    }

    /// What a directory holds does not change where a file is written
    /// outside of it.
    pub proof fn lemma_tree_with_file(self, dir: Seq<char>, path: Seq<char>, bytes: Seq<u8>)
        requires
            !is_below(dir, path),
        ensures
            self.with_file(path, bytes).tree(dir) == self.tree(dir),
    {
        assert forall|inner: Seq<char>| inner.len() > 0 implies below(dir, inner) != path by {
            lemma_below_within(dir, inner);
        }
        assert(self.with_file(path, bytes).tree(dir).nodes =~= self.tree(dir).nodes);
    }

    /// What a directory holds does not change where something is removed
    /// outside of it.
    pub proof fn lemma_tree_without(self, dir: Seq<char>, path: Seq<char>)
        requires
            !is_below(dir, path),
        ensures
            self.without(path).tree(dir) == self.tree(dir),
    {
        assert forall|inner: Seq<char>| inner.len() > 0 implies below(dir, inner) != path by {
            lemma_below_within(dir, inner);
        }
        assert(self.without(path).tree(dir).nodes =~= self.tree(dir).nodes);
    }

    /// A directory that is unpacked where nothing stood holds exactly the
    /// tree that was unpacked, where that tree is one that a directory can
    /// hold.
    pub proof fn lemma_tree_with_tree(self, dir: Seq<char>, source: DiskModel, from: Seq<char>)
        requires
            self.is_empty_below(dir),
        ensures
            self.with_tree(dir, source.tree(from)).tree(dir) == source.tree(from),
    {
        let tree = source.tree(from);
        let after = self.with_tree(dir, tree);
        assert forall|inner: Seq<char>|
            after.tree(dir).nodes.dom().contains(inner) <==> tree.nodes.dom().contains(
                inner,
            ) by {
            if inner.len() > 0 {
                lemma_below_within(dir, inner);
            }
        }
        assert forall|inner: Seq<char>| tree.nodes.dom().contains(inner) implies after.tree(
            dir,
        ).nodes[inner] == tree.nodes[inner] by {
            lemma_below_within(dir, inner);
        }
        assert(after.tree(dir).nodes =~= tree.nodes);
    }

    /// What a directory holds does not change where a tree is unpacked
    /// apart from it.
    pub proof fn lemma_tree_apart(self, dir: Seq<char>, other: Seq<char>, tree: TreeView)
        requires
            forall|path: Seq<char>|
                is_below(dir, path) ==> path != other && !is_below(other, path),
        ensures
            self.with_tree(other, tree).tree(dir) == self.tree(dir),
    {
        assert forall|inner: Seq<char>| inner.len() > 0 implies below(dir, inner) != other
            && !is_below(other, below(dir, inner)) by {
            lemma_below_within(dir, inner);
        }
        assert(self.with_tree(other, tree).tree(dir).nodes =~= self.tree(dir).nodes);
    }
}

/// Two directories that hold the same tree hold the same at every path
/// within them.
pub proof fn lemma_same_tree_same_nodes(
    a: DiskModel,
    a_dir: Seq<char>,
    b: DiskModel,
    b_dir: Seq<char>,
    inner: Seq<char>,
)
    requires
        a.tree(a_dir) == b.tree(b_dir),
        inner.len() > 0,
    ensures
        a.nodes.contains_key(below(a_dir, inner)) == b.nodes.contains_key(below(b_dir, inner)),
        a.nodes.contains_key(below(a_dir, inner)) ==> a.nodes[below(a_dir, inner)]
            == b.nodes[below(b_dir, inner)],
{
    let held_a = a.tree(a_dir).nodes;
    let held_b = b.tree(b_dir).nodes;
    assert(held_a.contains_key(inner) == a.nodes.contains_key(below(a_dir, inner)));
    assert(held_b.contains_key(inner) == b.nodes.contains_key(below(b_dir, inner)));
    if held_a.contains_key(inner) {
        assert(held_a[inner] == a.nodes[below(a_dir, inner)]);
        assert(held_b[inner] == b.nodes[below(b_dir, inner)]);
    }
}

impl Stage {
    /// The most requests that an operation at this stage still makes, this
    /// stage's request counted.
    pub open spec fn steps_left(self) -> nat {
        match self {
            Stage::InitIsDir => 4,
            Stage::InitCreateDir => 3,
            Stage::InitIsFile => 2,
            Stage::InitWriteMeta => 1,
            Stage::LoadIsDir => 3,
            Stage::LoadIsFile => 2,
            Stage::LoadReadMeta => 1,
            Stage::OpenIsDir => 8,
            Stage::OpenIsFile => 7,
            Stage::OpenDecompress => 6,
            Stage::OpenUnpack => 5,
            Stage::OpenRemoveTar => 4,
            Stage::UnpackIsFile => 4,
            Stage::UnpackDecompress => 3,
            Stage::UnpackUnpack => 2,
            Stage::UnpackRemoveTar => 1,
            Stage::PackBuildTar => 3,
            Stage::PackCompress => 2,
            Stage::PackRemoveTar => 1,
            Stage::CloseBuildTar => 4,
            Stage::CloseCompress => 3,
            Stage::CloseRemoveTar => 2,
            Stage::CloseRemoveDir => 1,
        }
    }
}

impl TaskView {
    /// Every step brings an operation nearer to its end.
    pub proof fn law_every_step_counts(self, reply: ReplyView)
        ensures
            self.resume(reply) matches StepView::Pending(next) ==> next.stage.steps_left()
                < self.stage.steps_left(),
    {
    }

    /// The operation carried out on a disk, to its end: the disk that it
    /// leaves, and how it ended.
    pub open spec fn run_on(self, disk: DiskModel, backend: Backend) -> (DiskModel, StepView)
        decreases self.stage.steps_left(),
    {
        let (after, reply) = disk.answer(backend, self.request());
        match self.resume(reply) {
            StepView::Pending(next) => next.run_on(after, backend),
            ended => (after, ended),
        }
    }

    /// An operation on a disk always comes to an end.
    pub proof fn law_every_task_ends(self, disk: DiskModel, backend: Backend)
        ensures
            !(self.run_on(disk, backend).1 is Pending),
        decreases self.stage.steps_left(),
    {
        let (after, reply) = disk.answer(backend, self.request());
        self.law_every_step_counts(reply);
        match self.resume(reply) {
            StepView::Pending(next) => {
                next.law_every_task_ends(after, backend);
            },
            _ => {},
        }
    }

    /// Opening a directory reads the disk and changes nothing on it. It
    /// fails where the directory is not there, then where the stamp is not
    /// there, and else ends as the stamp's bytes say.
    pub proof fn law_load_dir_on_disk(self, disk: DiskModel, backend: Backend)
        requires
            self.stage == Stage::LoadIsDir,
        ensures
            self.run_on(disk, backend) == (
                disk,
                if !disk.is_dir(self.layout.dir) {
                    StepView::Failed(LDBErrorView::DirNotFound(self.layout.dir))
                } else if !disk.is_file(self.layout.meta) {
                    StepView::Failed(LDBErrorView::MissingMetadata(self.layout.meta))
                } else {
                    self.stamp_read(disk.bytes(self.layout.meta))
                },
            ),
    {
        reveal_with_fuel(TaskView::run_on, 4);
    }

    /// The version gate, on a disk: a directory whose stamp records the
    /// version `stored` opens when the major version is the running one,
    /// whatever the minor and build numbers are, and is refused as
    /// incompatible when it is not.
    pub proof fn law_version_gate_on_disk(
        self,
        stored: Version,
        disk: DiskModel,
        backend: Backend,
    )
        requires
            self.stage == Stage::LoadIsDir,
            disk.is_dir(self.layout.dir),
            disk.is_file(self.layout.meta),
            disk.bytes(self.layout.meta) == stamp_of(stored),
        ensures
            self.run_on(disk, backend).1 == if stored.major == VERSION_MAJOR {
                self.opened()
            } else {
                StepView::Failed(LDBErrorView::IncompatibleVersion(stored))
            },
    {
        self.law_load_dir_on_disk(disk, backend);
        self.law_version_gate(stored);
    }

    /// The operation fails with the error of the disk.
    pub open spec fn failed() -> StepView {
        StepView::Failed(disk_error())
    }

    /// How creating a database ends on a disk where the directory stands:
    /// a stamp that is there stays as it is, and else the stamp of the
    /// running version is written, where the disk admits it.
    pub open spec fn stamped_on(self, disk: DiskModel) -> (DiskModel, StepView) {
        if disk.is_file(self.layout.meta) {
            (disk, self.opened())
        } else if disk.admits_file(self.layout.meta) {
            (disk.with_file(self.layout.meta, stamp_bytes()), self.opened())
        } else {
            (disk, TaskView::failed())
        }
    }

    /// Creating a database leaves a directory that stands as it is, and
    /// else creates it together with every directory above it; then it sees
    /// to the stamp. It fails, and changes nothing, where a file stands at
    /// the directory's path or above it.
    pub proof fn law_init_on_disk(self, disk: DiskModel, backend: Backend)
        requires
            self.stage == Stage::InitIsDir,
        ensures
            self.run_on(disk, backend) == if disk.is_dir(self.layout.dir) {
                self.stamped_on(disk)
            } else if disk.admits_dir(self.layout.dir) {
                self.stamped_on(disk.with_dirs(self.layout.dir))
            } else {
                (disk, TaskView::failed())
            },
    {
        reveal_with_fuel(TaskView::run_on, 5);
    }

    /// Creating a database where nothing stands yet gives a handle on the
    /// directory. After it directories stand at the directory's path and at
    /// every path above it, and the stamp of the running version stands in
    /// the directory. Nothing else on the disk has changed.
    ///
    /// This holds where no file stands at the directory's path or above
    /// it, and where the stamp's place is in the directory itself and
    /// nothing stands there.
    pub proof fn law_init_creates_on_disk(self, disk: DiskModel, backend: Backend)
        requires
            self.stage == Stage::InitIsDir,
            !disk.is_dir(self.layout.dir),
            disk.admits_dir(self.layout.dir),
            is_child(self.layout.dir, self.layout.meta),
            !disk.nodes.contains_key(self.layout.meta),
        ensures
            ({
                let (after, step) = self.run_on(disk, backend);
                &&& step == self.opened()
                &&& after == disk.with_dirs(self.layout.dir).with_file(
                    self.layout.meta,
                    stamp_bytes(),
                )
                &&& after.is_dir(self.layout.dir)
                &&& forall|above: Seq<char>|
                    is_above(above, self.layout.dir) ==> after.is_dir(above)
                &&& after.is_file(self.layout.meta)
                &&& after.bytes(self.layout.meta) == stamp_bytes()
                &&& forall|other: Seq<char>|
                    other != self.layout.dir && other != self.layout.meta && !is_above(
                        other,
                        self.layout.dir,
                    ) ==> after.nodes.contains_key(other) == disk.nodes.contains_key(other) && (
                    disk.nodes.contains_key(other) ==> after.nodes[other] == disk.nodes[other])
            }),
    {
        self.law_init_on_disk(disk, backend);
        self.lemma_made_admits_stamp(disk.with_dirs(self.layout.dir));
    }

    /// The stamp can be written into a directory that stands with all
    /// above it, where the stamp's place is in the directory itself and no
    /// directory stands there.
    proof fn lemma_made_admits_stamp(self, made: DiskModel)
        requires
            made.holds_dir(self.layout.dir),
            is_child(self.layout.dir, self.layout.meta),
            !made.is_dir(self.layout.meta),
        ensures
            made.admits_file(self.layout.meta),
    {
        assert forall|above: Seq<char>| is_above(above, self.layout.meta) implies made.is_dir(
            above,
        ) by {
            lemma_above_of_child(self.layout.dir, self.layout.meta, above);
        }
    }

    /// A database that was created where no stamp stood can be opened.
    ///
    /// This holds where the directory stands with all above it or can be
    /// created, and where the stamp's place is in the directory itself and
    /// nothing stands there.
    pub proof fn law_created_opens_on_disk(self, disk: DiskModel, backend: Backend)
        requires
            self.stage == Stage::InitIsDir,
            disk.holds_dir(self.layout.dir) || (!disk.is_dir(self.layout.dir)
                && disk.admits_dir(self.layout.dir)),
            is_child(self.layout.dir, self.layout.meta),
            !disk.nodes.contains_key(self.layout.meta),
        ensures
            self.run_on(disk, backend).1 == self.opened(),
            self.at(Stage::LoadIsDir).run_on(self.run_on(disk, backend).0, backend).1
                == self.opened(),
    {
        let after = self.run_on(disk, backend).0;
        self.law_init_on_disk(disk, backend);
        if disk.is_dir(self.layout.dir) {
            self.lemma_made_admits_stamp(disk);
        } else {
            self.lemma_made_admits_stamp(disk.with_dirs(self.layout.dir));
        }
        self.at(Stage::LoadIsDir).law_load_dir_on_disk(after, backend);
        self.at(Stage::LoadIsDir).law_version_gate(Version::running());
    }

    /// Whether the directory can be packed on the disk: it stands, and the
    /// disk admits a file in the place of the pack and of the archive.
    pub open spec fn can_pack_on(self, disk: DiskModel) -> bool {
        &&& disk.is_dir(self.layout.dir)
        &&& disk.admits_file(self.layout.tar)
        &&& disk.admits_file(self.layout.archive)
    }

    /// Whether an archive can be unpacked on the disk: the disk admits a
    /// file in the place of the pack and a directory at the directory's
    /// path, and the pack has no part in the directory.
    pub open spec fn can_unpack_on(self, disk: DiskModel) -> bool {
        &&& disk.admits_file(self.layout.tar)
        &&& disk.admits_dir(self.layout.dir)
        &&& is_outside(self.layout.dir, self.layout.tar)
    }

    /// The disk after the directory was packed into the archive: the
    /// compressed pack stands in the archive, and the pack is gone again.
    pub open spec fn packed_on(self, disk: DiskModel, backend: Backend) -> DiskModel {
        disk.with_file(self.layout.tar, (backend.pack)(disk.tree(self.layout.dir))).with_file(
            self.layout.archive,
            backend.archived(disk.tree(self.layout.dir)),
        ).without(self.layout.tar)
    }

    /// The disk after the archive was unpacked into the directory: the
    /// directory stands with every directory above it and holds what the
    /// archive held, over what stood at the same paths, and the pack is
    /// gone again.
    pub open spec fn unpacked_on(self, disk: DiskModel, backend: Backend) -> DiskModel {
        disk.with_file(
            self.layout.tar,
            (backend.decompress)(disk.bytes(self.layout.archive)),
        ).with_dirs(self.layout.dir).with_tree(
            self.layout.dir,
            backend.unarchived(disk.bytes(self.layout.archive)),
        ).without(self.layout.tar)
    }

    /// Packing a directory writes the pack, writes the compressed pack into
    /// the archive, and removes the pack. Packing a directory that is not
    /// there fails and changes nothing.
    ///
    /// This holds where the disk admits a file in the place of the pack and
    /// of the archive.
    pub proof fn law_compile_on_disk(self, disk: DiskModel, backend: Backend)
        requires
            self.stage == Stage::PackBuildTar,
            disk.admits_file(self.layout.tar),
            disk.admits_file(self.layout.archive),
        ensures
            self.run_on(disk, backend) == if disk.is_dir(self.layout.dir) {
                (self.packed_on(disk, backend), StepView::Completed)
            } else {
                (disk, TaskView::failed())
            },
    {
        reveal_with_fuel(TaskView::run_on, 4);
    }

    /// Unpacking an archive writes the pack, creates the directory with
    /// every directory above it, unpacks the pack into it, and removes the
    /// pack. Unpacking an archive that is not there fails and changes
    /// nothing.
    ///
    /// This holds where the archive can be unpacked on the disk.
    pub proof fn law_decompile_on_disk(self, disk: DiskModel, backend: Backend)
        requires
            self.stage == Stage::UnpackIsFile,
            self.can_unpack_on(disk),
        ensures
            self.run_on(disk, backend) == if disk.is_file(self.layout.archive) {
                (self.unpacked_on(disk, backend), StepView::Completed)
            } else {
                (disk, StepView::Failed(LDBErrorView::FileNotFound(self.layout.archive)))
            },
    {
        reveal_with_fuel(TaskView::run_on, 5);
    }

    /// What the directory holds after an archive was unpacked into it, where
    /// nothing stood below it, is what the archive held, where that is the
    /// tree of a directory.
    pub proof fn lemma_unpacked_tree(
        self,
        disk: DiskModel,
        backend: Backend,
        source: DiskModel,
        from: Seq<char>,
    )
        requires
            is_outside(self.layout.dir, self.layout.tar),
            disk.is_empty_below(self.layout.dir),
            backend.unarchived(disk.bytes(self.layout.archive)) == source.tree(from),
        ensures
            self.unpacked_on(disk, backend).is_dir(self.layout.dir),
            self.unpacked_on(disk, backend).tree(self.layout.dir) == source.tree(from),
    {
        let dir = self.layout.dir;
        let plain = (backend.decompress)(disk.bytes(self.layout.archive));
        let made = disk.with_file(self.layout.tar, plain).with_dirs(dir);
        assert(made.is_empty_below(dir));
        made.lemma_tree_with_tree(dir, source, from);
        made.with_tree(dir, source.tree(from)).lemma_tree_without(dir, self.layout.tar);
    }

    /// Unpacking what was packed gives the directory back: where a
    /// directory is packed into an archive and that archive is unpacked into
    /// a directory below which nothing stood, the second directory holds
    /// exactly what the first one held: the same files and directories at
    /// the same paths within it, each file with the same bytes, and nothing
    /// else.
    ///
    /// This holds with every backend that brings the packed tree back,
    /// where the directory can be packed and the archive can be unpacked on
    /// the disk, and where the archive is not the very file of the first
    /// pack and has no part in the second directory.
    pub proof fn law_decompile_of_compile(
        self,
        unpacking: TaskView,
        disk: DiskModel,
        backend: Backend,
    )
        requires
            self.stage == Stage::PackBuildTar,
            unpacking.stage == Stage::UnpackIsFile,
            unpacking.layout.archive == self.layout.archive,
            self.layout.archive != self.layout.tar,
            is_outside(unpacking.layout.dir, self.layout.archive),
            self.can_pack_on(disk),
            unpacking.can_unpack_on(disk),
            disk.is_empty_below(unpacking.layout.dir),
            backend.restores(disk.tree(self.layout.dir)),
        ensures
            ({
                let (packed, first) = self.run_on(disk, backend);
                let (unpacked, second) = unpacking.run_on(packed, backend);
                &&& first == StepView::Completed
                &&& second == StepView::Completed
                &&& unpacked.is_dir(unpacking.layout.dir)
                &&& unpacked.tree(unpacking.layout.dir) == disk.tree(self.layout.dir)
            }),
    {
        self.law_compile_on_disk(disk, backend);
        let packed = self.packed_on(disk, backend);
        assert(unpacking.can_unpack_on(packed));
        unpacking.law_decompile_on_disk(packed, backend);
        assert(packed.is_empty_below(unpacking.layout.dir));
        unpacking.lemma_unpacked_tree(packed, backend, disk, self.layout.dir);
    }

    /// Packing and unpacking leave the packed directory as it is: it still
    /// stands, and holds what it held.
    ///
    /// This holds where the two packs and the archive have no part in the
    /// directory, and where the two directories have no part in each other.
    pub proof fn law_decompile_of_compile_keeps_source(
        self,
        unpacking: TaskView,
        disk: DiskModel,
        backend: Backend,
    )
        requires
            self.stage == Stage::PackBuildTar,
            unpacking.stage == Stage::UnpackIsFile,
            unpacking.layout.archive == self.layout.archive,
            self.layout.archive != self.layout.tar,
            is_outside(unpacking.layout.dir, self.layout.archive),
            self.can_pack_on(disk),
            unpacking.can_unpack_on(disk),
            is_outside(self.layout.dir, self.layout.tar),
            is_outside(self.layout.dir, self.layout.archive),
            is_outside(self.layout.dir, unpacking.layout.tar),
            are_apart(self.layout.dir, unpacking.layout.dir),
        ensures
            ({
                let packed = self.run_on(disk, backend).0;
                let unpacked = unpacking.run_on(packed, backend).0;
                &&& packed.is_dir(self.layout.dir)
                &&& packed.tree(self.layout.dir) == disk.tree(self.layout.dir)
                &&& unpacked.is_dir(self.layout.dir)
                &&& unpacked.tree(self.layout.dir) == disk.tree(self.layout.dir)
            }),
    {
        let dir = self.layout.dir;
        let out = unpacking.layout.dir;
        let tree = disk.tree(dir);
        lemma_apart_directories(dir, out);
        self.law_compile_on_disk(disk, backend);
        let packed = self.packed_on(disk, backend);
        let d1 = disk.with_file(self.layout.tar, (backend.pack)(tree));
        let d2 = d1.with_file(self.layout.archive, backend.archived(tree));
        disk.lemma_tree_with_file(dir, self.layout.tar, (backend.pack)(tree));
        d1.lemma_tree_with_file(dir, self.layout.archive, backend.archived(tree));
        d2.lemma_tree_without(dir, self.layout.tar);
        assert(unpacking.can_unpack_on(packed));
        unpacking.law_decompile_on_disk(packed, backend);
        let plain = (backend.decompress)(packed.bytes(self.layout.archive));
        let held = backend.unarchived(packed.bytes(self.layout.archive));
        let d3 = packed.with_file(unpacking.layout.tar, plain);
        let d4 = d3.with_dirs(out);
        let d5 = d4.with_tree(out, held);
        packed.lemma_tree_with_file(dir, unpacking.layout.tar, plain);
        d3.lemma_tree_with_dirs(dir, out);
        d4.lemma_tree_apart(dir, out, held);
        d5.lemma_tree_without(dir, unpacking.layout.tar);
    }

    /// The round trip for tasks whose places keep apart, as `kept_apart`
    /// hands them out: packing a directory and unpacking the archive into a
    /// second directory, below which nothing stood, ends well twice. The
    /// second directory then holds exactly what the first one held, and the
    /// first one stands as it was.
    ///
    /// This holds with every backend that brings the packed tree back,
    /// where both tasks know the same archive, the two directories have no
    /// part in each other and the second pack has none in the first
    /// directory, and where the directory can be packed and the archive can
    /// be unpacked on the disk.
    pub proof fn law_kept_apart_comes_back(
        self,
        unpacking: TaskView,
        disk: DiskModel,
        backend: Backend,
    )
        requires
            self.stage == Stage::PackBuildTar,
            unpacking.stage == Stage::UnpackIsFile,
            unpacking.layout.archive == self.layout.archive,
            self.layout.keeps_apart(),
            unpacking.layout.keeps_apart(),
            are_apart(self.layout.dir, unpacking.layout.dir),
            is_outside(self.layout.dir, unpacking.layout.tar),
            self.can_pack_on(disk),
            unpacking.can_unpack_on(disk),
            disk.is_empty_below(unpacking.layout.dir),
            backend.restores(disk.tree(self.layout.dir)),
        ensures
            ({
                let (packed, first) = self.run_on(disk, backend);
                let (unpacked, second) = unpacking.run_on(packed, backend);
                &&& first == StepView::Completed
                &&& second == StepView::Completed
                &&& unpacked.is_dir(unpacking.layout.dir)
                &&& unpacked.tree(unpacking.layout.dir) == disk.tree(self.layout.dir)
                &&& unpacked.is_dir(self.layout.dir)
                &&& unpacked.tree(self.layout.dir) == disk.tree(self.layout.dir)
            }),
    {
        self.law_decompile_of_compile(unpacking, disk, backend);
        self.law_decompile_of_compile_keeps_source(unpacking, disk, backend);
    }

    /// Two directories that hold the same tree open alike: where the one
    /// opens, the other opens, each with its stamp in the file of the same
    /// name within it.
    pub proof fn law_same_tree_opens_alike(
        self,
        disk: DiskModel,
        other: TaskView,
        other_disk: DiskModel,
        stamp_name: Seq<char>,
        backend: Backend,
    )
        requires
            self.stage == Stage::LoadIsDir,
            other.stage == Stage::LoadIsDir,
            stamp_name.len() > 0,
            self.layout.meta == below(self.layout.dir, stamp_name),
            other.layout.meta == below(other.layout.dir, stamp_name),
            disk.tree(self.layout.dir) == other_disk.tree(other.layout.dir),
            other_disk.is_dir(other.layout.dir),
            self.run_on(disk, backend).1 is Opened,
        ensures
            other.run_on(other_disk, backend).1 == other.opened(),
    {
        self.law_load_dir_on_disk(disk, backend);
        other.law_load_dir_on_disk(other_disk, backend);
        lemma_same_tree_same_nodes(
            disk,
            self.layout.dir,
            other_disk,
            other.layout.dir,
            stamp_name,
        );
    }

    /// What was unpacked reads as what was packed: at every path within
    /// the second directory stands what stood at the same path within the
    /// first, a file with the same bytes or a directory, and where nothing
    /// stood in the first, nothing stands in the second. So every value
    /// that can be reached in the first directory is reached in the second
    /// by the same names, and collects to the same value or fails with the
    /// same error.
    pub proof fn law_unpacked_reads_alike(
        self,
        unpacking: TaskView,
        disk: DiskModel,
        backend: Backend,
        inner: Seq<char>,
    )
        requires
            self.stage == Stage::PackBuildTar,
            unpacking.stage == Stage::UnpackIsFile,
            unpacking.layout.archive == self.layout.archive,
            self.layout.archive != self.layout.tar,
            is_outside(unpacking.layout.dir, self.layout.archive),
            self.can_pack_on(disk),
            unpacking.can_unpack_on(disk),
            disk.is_empty_below(unpacking.layout.dir),
            backend.restores(disk.tree(self.layout.dir)),
            inner.len() > 0,
        ensures
            ({
                let unpacked = unpacking.run_on(self.run_on(disk, backend).0, backend).0;
                let there = below(unpacking.layout.dir, inner);
                let here = below(self.layout.dir, inner);
                &&& unpacked.nodes.contains_key(there) == disk.nodes.contains_key(here)
                &&& disk.nodes.contains_key(here) ==> unpacked.nodes[there] == disk.nodes[here]
            }),
    {
        self.law_decompile_of_compile(unpacking, disk, backend);
        let unpacked = unpacking.run_on(self.run_on(disk, backend).0, backend).0;
        lemma_same_tree_same_nodes(
            unpacked,
            unpacking.layout.dir,
            disk,
            self.layout.dir,
            inner,
        );
    }

    /// What was unpacked opens as what was packed: where the first
    /// directory holds a database that opens, the second directory opens too.
    pub proof fn law_unpacked_opens_alike(
        self,
        unpacking: TaskView,
        disk: DiskModel,
        backend: Backend,
        stamp_name: Seq<char>,
    )
        requires
            self.stage == Stage::PackBuildTar,
            unpacking.stage == Stage::UnpackIsFile,
            unpacking.layout.archive == self.layout.archive,
            self.layout.archive != self.layout.tar,
            is_outside(unpacking.layout.dir, self.layout.archive),
            self.can_pack_on(disk),
            unpacking.can_unpack_on(disk),
            disk.is_empty_below(unpacking.layout.dir),
            backend.restores(disk.tree(self.layout.dir)),
            stamp_name.len() > 0,
            self.layout.meta == below(self.layout.dir, stamp_name),
            unpacking.layout.meta == below(unpacking.layout.dir, stamp_name),
            self.at(Stage::LoadIsDir).run_on(disk, backend).1 is Opened,
        ensures
            ({
                let unpacked = unpacking.run_on(self.run_on(disk, backend).0, backend).0;
                let opening = unpacking.at(Stage::LoadIsDir);
                opening.run_on(unpacked, backend).1 == opening.opened()
            }),
    {
        self.law_decompile_of_compile(unpacking, disk, backend);
        let unpacked = unpacking.run_on(self.run_on(disk, backend).0, backend).0;
        self.at(Stage::LoadIsDir).law_same_tree_opens_alike(
            disk,
            unpacking.at(Stage::LoadIsDir),
            unpacked,
            stamp_name,
            backend,
        );
    }

    /// Disposing of a handle on an unpacked archive whose directory is
    /// there packs the directory into the archive and then removes the
    /// directory with all below it. Disposing of a handle whose directory is
    /// not there changes nothing. Either way the disposal ends quietly.
    ///
    /// This holds where the disk admits a file in the place of the pack and
    /// of the archive.
    pub proof fn law_dispose_on_disk(self, disk: DiskModel, backend: Backend)
        requires
            self.stage == Stage::CloseBuildTar,
            disk.admits_file(self.layout.tar),
            disk.admits_file(self.layout.archive),
        ensures
            self.run_on(disk, backend) == (
                if disk.is_dir(self.layout.dir) {
                    self.packed_on(disk, backend).without_tree(self.layout.dir)
                } else {
                    disk
                },
                StepView::Completed,
            ),
    {
        reveal_with_fuel(TaskView::run_on, 5);
    }

    /// Opening an archive whose directory is there opens the directory as
    /// it is and changes nothing. Where the directory is not there, the
    /// archive must be: it is unpacked into the directory, and then the
    /// directory is opened.
    ///
    /// This holds where the archive can be unpacked on the disk.
    pub proof fn law_load_db_on_disk(self, disk: DiskModel, backend: Backend)
        requires
            self.stage == Stage::OpenIsDir,
            self.can_unpack_on(disk),
        ensures
            self.run_on(disk, backend) == if disk.is_dir(self.layout.dir) {
                self.at(Stage::LoadIsDir).run_on(disk, backend)
            } else if !disk.is_file(self.layout.archive) {
                (disk, StepView::Failed(LDBErrorView::FileNotFound(self.layout.archive)))
            } else {
                self.at(Stage::LoadIsDir).run_on(self.unpacked_on(disk, backend), backend)
            },
    {
        reveal_with_fuel(TaskView::run_on, 6);
    }

    /// A database comes back from its archive: where a handle on an
    /// unpacked archive is disposed of and the archive is opened again, the
    /// directory is gone in between, and after it holds exactly what it
    /// held: every file that was written before the disposal reads back
    /// with the same bytes. The opening ends as opening the directory would
    /// have ended before the disposal.
    ///
    /// This holds with every backend that brings the packed tree back,
    /// where both operations know the database by the same directory and
    /// the same archive, where the directory can be packed and the archive
    /// can be unpacked on the disk, where the archive and the packs have no
    /// part in the directory and the archive is not the very file of the
    /// first pack, and where the stamp lies in the directory.
    pub proof fn law_load_db_of_dispose(
        self,
        opening: TaskView,
        disk: DiskModel,
        backend: Backend,
    )
        requires
            self.stage == Stage::CloseBuildTar,
            opening.stage == Stage::OpenIsDir,
            opening.layout.dir == self.layout.dir,
            opening.layout.archive == self.layout.archive,
            self.layout.archive != self.layout.tar,
            is_outside(self.layout.dir, self.layout.tar),
            is_outside(self.layout.dir, self.layout.archive),
            is_below(self.layout.dir, opening.layout.meta),
            self.can_pack_on(disk),
            opening.can_unpack_on(disk),
            backend.restores(disk.tree(self.layout.dir)),
        ensures
            ({
                let closed = self.run_on(disk, backend).0;
                let (reopened, step) = opening.run_on(closed, backend);
                &&& !closed.nodes.contains_key(self.layout.dir)
                &&& closed.is_empty_below(self.layout.dir)
                &&& reopened.is_dir(self.layout.dir)
                &&& reopened.tree(self.layout.dir) == disk.tree(self.layout.dir)
                &&& step == opening.at(Stage::LoadIsDir).run_on(disk, backend).1
            }),
    {
        let dir = self.layout.dir;
        let meta = opening.layout.meta;
        self.law_dispose_on_disk(disk, backend);
        let closed = self.packed_on(disk, backend).without_tree(dir);
        assert(closed.is_empty_below(dir));
        assert forall|above: Seq<char>| is_above(above, opening.layout.tar) implies closed.is_dir(
            above,
        ) by {
            if has_head(dir, above) {
                lemma_heads_chain(dir, above, opening.layout.tar);
            }
        }
        assert(opening.can_unpack_on(closed));
        opening.law_load_db_on_disk(closed, backend);
        let unpacked = opening.unpacked_on(closed, backend);
        opening.lemma_unpacked_tree(closed, backend, disk, dir);
        let loading = opening.at(Stage::LoadIsDir);
        loading.law_load_dir_on_disk(unpacked, backend);
        loading.law_load_dir_on_disk(disk, backend);
        lemma_within_below(dir, meta);
        lemma_same_tree_same_nodes(unpacked, dir, disk, dir, within(dir, meta));
    }
}

} // verus!
