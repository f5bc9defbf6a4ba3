//! Operations as scripts: which requests an operation makes, and in which
//! order, when the disk answers in a given way.

use vstd::prelude::*;
use crate::disk::{ReplyView, RequestView};
use crate::lazy_database::{stamp_bytes, Stage, StepView, TaskView};

verus! {

impl TaskView {
    /// Where the operation stands after the replies, given in the order of
    /// the requests. Replies that come after the operation's end count for
    /// nothing.
    pub open spec fn run(self, replies: Seq<ReplyView>) -> StepView
        decreases replies.len(),
    {
        if replies.len() == 0 {
            StepView::Pending(self)
        } else {
            match self.resume(replies[0]) {
                StepView::Pending(next) => next.run(replies.drop_first()),
                ended => ended,
            }
        }
    }

    /// The requests that the operation makes while it gets the replies, in
    /// order: its first request, and one more after each reply that lets it
    /// go on.
    pub open spec fn asked(self, replies: Seq<ReplyView>) -> Seq<RequestView>
        decreases replies.len(),
    {
        if replies.len() == 0 {
            seq![self.request()]
        } else {
            match self.resume(replies[0]) {
                StepView::Pending(next) => seq![self.request()] + next.asked(replies.drop_first()),
                _ => seq![self.request()],
            }
        }
    }

    /// The task at another stage.
    pub open spec fn at(self, stage: Stage) -> TaskView {
        TaskView { stage, ..self }
    }

    /// A run is its first step, and then the run of the task that the step
    /// leaves, on the other replies.
    pub proof fn lemma_run_first(self, first: ReplyView, others: Seq<ReplyView>)
        ensures
            self.run(seq![first] + others) == match self.resume(first) {
                StepView::Pending(next) => next.run(others),
                ended => ended,
            },
            self.asked(seq![first] + others) == match self.resume(first) {
                StepView::Pending(next) => seq![self.request()] + next.asked(others),
                _ => seq![self.request()],
            },
    {
        assert((seq![first] + others).drop_first() =~= others);
    }

    /// Creating a database where nothing stands yet creates the directory
    /// first and then writes the stamp of the running version.
    pub proof fn law_init_creates(self)
        requires
            self.stage == Stage::InitIsDir,
        ensures
            ({
                let replies = seq![
                    ReplyView::Flag(false),
                    ReplyView::Done,
                    ReplyView::Flag(false),
                    ReplyView::Done,
                ];
                &&& self.run(replies) == self.opened()
                &&& self.asked(replies) == seq![
                    RequestView::IsDir(self.layout.dir),
                    RequestView::CreateDirAll(self.layout.dir),
                    RequestView::IsFile(self.layout.meta),
                    RequestView::WriteFile(self.layout.meta, stamp_bytes()),
                ]
            }),
    {
        let none = Seq::<ReplyView>::empty();
        let r3 = seq![ReplyView::Done] + none;
        let r2 = seq![ReplyView::Flag(false)] + r3;
        let r1 = seq![ReplyView::Done] + r2;
        let r0 = seq![ReplyView::Flag(false)] + r1;
        self.at(Stage::InitWriteMeta).lemma_run_first(ReplyView::Done, none);
        self.at(Stage::InitIsFile).lemma_run_first(ReplyView::Flag(false), r3);
        self.at(Stage::InitCreateDir).lemma_run_first(ReplyView::Done, r2);
        self.lemma_run_first(ReplyView::Flag(false), r1);
        assert(r0 =~= seq![
            ReplyView::Flag(false),
            ReplyView::Done,
            ReplyView::Flag(false),
            ReplyView::Done,
        ]);
        assert(self.asked(r0) =~= seq![
            RequestView::IsDir(self.layout.dir),
            RequestView::CreateDirAll(self.layout.dir),
            RequestView::IsFile(self.layout.meta),
            RequestView::WriteFile(self.layout.meta, stamp_bytes()),
        ]);
    }

    /// Creating a database in a directory that has its stamp already looks
    /// at the two and writes nothing.
    pub proof fn law_init_keeps(self)
        requires
            self.stage == Stage::InitIsDir,
        ensures
            ({
                let replies = seq![ReplyView::Flag(true), ReplyView::Flag(true)];
                &&& self.run(replies) == self.opened()
                &&& self.asked(replies) == seq![
                    RequestView::IsDir(self.layout.dir),
                    RequestView::IsFile(self.layout.meta),
                ]
            }),
    {
        let none = Seq::<ReplyView>::empty();
        let r1 = seq![ReplyView::Flag(true)] + none;
        let r0 = seq![ReplyView::Flag(true)] + r1;
        self.at(Stage::InitIsFile).lemma_run_first(ReplyView::Flag(true), none);
        self.lemma_run_first(ReplyView::Flag(true), r1);
        assert(r0 =~= seq![ReplyView::Flag(true), ReplyView::Flag(true)]);
        assert(self.asked(r0) =~= seq![
            RequestView::IsDir(self.layout.dir),
            RequestView::IsFile(self.layout.meta),
        ]);
    }

    /// Opening a directory looks for the directory, then for the stamp, then
    /// reads the stamp, and ends as the stamp's bytes say.
    pub proof fn law_load_dir_reads_stamp(self, bytes: Seq<u8>)
        requires
            self.stage == Stage::LoadIsDir,
        ensures
            ({
                let replies = seq![
                    ReplyView::Flag(true),
                    ReplyView::Flag(true),
                    ReplyView::Bytes(bytes),
                ];
                &&& self.run(replies) == self.stamp_read(bytes)
                &&& self.asked(replies) == seq![
                    RequestView::IsDir(self.layout.dir),
                    RequestView::IsFile(self.layout.meta),
                    RequestView::ReadFile(self.layout.meta),
                ]
            }),
    {
        let none = Seq::<ReplyView>::empty();
        let r2 = seq![ReplyView::Bytes(bytes)] + none;
        let r1 = seq![ReplyView::Flag(true)] + r2;
        let r0 = seq![ReplyView::Flag(true)] + r1;
        self.at(Stage::LoadReadMeta).lemma_run_first(ReplyView::Bytes(bytes), none);
        self.at(Stage::LoadIsFile).lemma_run_first(ReplyView::Flag(true), r2);
        self.lemma_run_first(ReplyView::Flag(true), r1);
        assert(r0 =~= seq![ReplyView::Flag(true), ReplyView::Flag(true), ReplyView::Bytes(bytes)]);
        assert(self.asked(r0) =~= seq![
            RequestView::IsDir(self.layout.dir),
            RequestView::IsFile(self.layout.meta),
            RequestView::ReadFile(self.layout.meta),
        ]);
    }

    /// Opening an archive whose directory is there already unpacks nothing:
    /// the directory is opened as it is.
    pub proof fn law_load_db_reuses_directory(self, bytes: Seq<u8>)
        requires
            self.stage == Stage::OpenIsDir,
        ensures
            ({
                let replies = seq![
                    ReplyView::Flag(true),
                    ReplyView::Flag(true),
                    ReplyView::Flag(true),
                    ReplyView::Bytes(bytes),
                ];
                &&& self.run(replies) == self.stamp_read(bytes)
                &&& self.asked(replies) == seq![
                    RequestView::IsDir(self.layout.dir),
                    RequestView::IsDir(self.layout.dir),
                    RequestView::IsFile(self.layout.meta),
                    RequestView::ReadFile(self.layout.meta),
                ]
            }),
    {
        let r1 = seq![ReplyView::Flag(true), ReplyView::Flag(true), ReplyView::Bytes(bytes)];
        let r0 = seq![ReplyView::Flag(true)] + r1;
        self.at(Stage::LoadIsDir).law_load_dir_reads_stamp(bytes);
        self.lemma_run_first(ReplyView::Flag(true), r1);
        assert(r0 =~= seq![
            ReplyView::Flag(true),
            ReplyView::Flag(true),
            ReplyView::Flag(true),
            ReplyView::Bytes(bytes),
        ]);
        assert(self.asked(r0) =~= seq![
            RequestView::IsDir(self.layout.dir),
            RequestView::IsDir(self.layout.dir),
            RequestView::IsFile(self.layout.meta),
            RequestView::ReadFile(self.layout.meta),
        ]);
    }

    /// Opening an archive whose directory is not there decompresses the
    /// archive into the pack, unpacks the pack into the directory, removes
    /// the pack, and then opens the directory.
    pub proof fn law_load_db_unpacks(self, bytes: Seq<u8>)
        requires
            self.stage == Stage::OpenIsDir,
        ensures
            ({
                let replies = seq![
                    ReplyView::Flag(false),
                    ReplyView::Flag(true),
                    ReplyView::Done,
                    ReplyView::Done,
                    ReplyView::Done,
                    ReplyView::Flag(true),
                    ReplyView::Flag(true),
                    ReplyView::Bytes(bytes),
                ];
                &&& self.run(replies) == self.stamp_read(bytes)
                &&& self.asked(replies) == seq![
                    RequestView::IsDir(self.layout.dir),
                    RequestView::IsFile(self.layout.archive),
                    RequestView::DecompressFile { from: self.layout.archive, to: self.layout.tar },
                    RequestView::UnpackTar { tar: self.layout.tar, dir: self.layout.dir },
                    RequestView::RemoveFile(self.layout.tar),
                    RequestView::IsDir(self.layout.dir),
                    RequestView::IsFile(self.layout.meta),
                    RequestView::ReadFile(self.layout.meta),
                ]
            }),
    {
        let r5 = seq![ReplyView::Flag(true), ReplyView::Flag(true), ReplyView::Bytes(bytes)];
        let r4 = seq![ReplyView::Done] + r5;
        let r3 = seq![ReplyView::Done] + r4;
        let r2 = seq![ReplyView::Done] + r3;
        let r1 = seq![ReplyView::Flag(true)] + r2;
        let r0 = seq![ReplyView::Flag(false)] + r1;
        self.at(Stage::LoadIsDir).law_load_dir_reads_stamp(bytes);
        self.at(Stage::OpenRemoveTar).lemma_run_first(ReplyView::Done, r5);
        self.at(Stage::OpenUnpack).lemma_run_first(ReplyView::Done, r4);
        self.at(Stage::OpenDecompress).lemma_run_first(ReplyView::Done, r3);
        self.at(Stage::OpenIsFile).lemma_run_first(ReplyView::Flag(true), r2);
        self.lemma_run_first(ReplyView::Flag(false), r1);
        assert(r0 =~= seq![
            ReplyView::Flag(false),
            ReplyView::Flag(true),
            ReplyView::Done,
            ReplyView::Done,
            ReplyView::Done,
            ReplyView::Flag(true),
            ReplyView::Flag(true),
            ReplyView::Bytes(bytes),
        ]);
        assert(self.asked(r0) =~= seq![
            RequestView::IsDir(self.layout.dir),
            RequestView::IsFile(self.layout.archive),
            RequestView::DecompressFile { from: self.layout.archive, to: self.layout.tar },
            RequestView::UnpackTar { tar: self.layout.tar, dir: self.layout.dir },
            RequestView::RemoveFile(self.layout.tar),
            RequestView::IsDir(self.layout.dir),
            RequestView::IsFile(self.layout.meta),
            RequestView::ReadFile(self.layout.meta),
        ]);
    }

    /// Packing is three steps: the directory is packed, the pack is
    /// compressed into the archive, and the pack is removed.
    pub proof fn law_compile_steps(self)
        requires
            self.stage == Stage::PackBuildTar,
        ensures
            ({
                let replies = seq![ReplyView::Done, ReplyView::Done, ReplyView::Done];
                &&& self.run(replies) == StepView::Completed
                &&& self.asked(replies) == seq![
                    RequestView::BuildTar { dir: self.layout.dir, tar: self.layout.tar },
                    RequestView::CompressFile { from: self.layout.tar, to: self.layout.archive },
                    RequestView::RemoveFile(self.layout.tar),
                ]
            }),
    {
        let none = Seq::<ReplyView>::empty();
        let r2 = seq![ReplyView::Done] + none;
        let r1 = seq![ReplyView::Done] + r2;
        let r0 = seq![ReplyView::Done] + r1;
        self.at(Stage::PackRemoveTar).lemma_run_first(ReplyView::Done, none);
        self.at(Stage::PackCompress).lemma_run_first(ReplyView::Done, r2);
        self.lemma_run_first(ReplyView::Done, r1);
        assert(r0 =~= seq![ReplyView::Done, ReplyView::Done, ReplyView::Done]);
        assert(self.asked(r0) =~= seq![
            RequestView::BuildTar { dir: self.layout.dir, tar: self.layout.tar },
            RequestView::CompressFile { from: self.layout.tar, to: self.layout.archive },
            RequestView::RemoveFile(self.layout.tar),
        ]);
    }

    /// Unpacking takes the steps of packing back, last step first: the
    /// archive is decompressed into the pack, the pack is unpacked into the
    /// directory, and the pack is removed.
    pub proof fn law_decompile_steps(self)
        requires
            self.stage == Stage::UnpackIsFile,
        ensures
            ({
                let replies = seq![
                    ReplyView::Flag(true),
                    ReplyView::Done,
                    ReplyView::Done,
                    ReplyView::Done,
                ];
                &&& self.run(replies) == StepView::Completed
                &&& self.asked(replies) == seq![
                    RequestView::IsFile(self.layout.archive),
                    RequestView::DecompressFile { from: self.layout.archive, to: self.layout.tar },
                    RequestView::UnpackTar { tar: self.layout.tar, dir: self.layout.dir },
                    RequestView::RemoveFile(self.layout.tar),
                ]
            }),
    {
        let none = Seq::<ReplyView>::empty();
        let r3 = seq![ReplyView::Done] + none;
        let r2 = seq![ReplyView::Done] + r3;
        let r1 = seq![ReplyView::Done] + r2;
        let r0 = seq![ReplyView::Flag(true)] + r1;
        self.at(Stage::UnpackRemoveTar).lemma_run_first(ReplyView::Done, none);
        self.at(Stage::UnpackUnpack).lemma_run_first(ReplyView::Done, r3);
        self.at(Stage::UnpackDecompress).lemma_run_first(ReplyView::Done, r2);
        self.lemma_run_first(ReplyView::Flag(true), r1);
        assert(r0 =~= seq![
            ReplyView::Flag(true),
            ReplyView::Done,
            ReplyView::Done,
            ReplyView::Done,
        ]);
        assert(self.asked(r0) =~= seq![
            RequestView::IsFile(self.layout.archive),
            RequestView::DecompressFile { from: self.layout.archive, to: self.layout.tar },
            RequestView::UnpackTar { tar: self.layout.tar, dir: self.layout.dir },
            RequestView::RemoveFile(self.layout.tar),
        ]);
    }

    /// Disposing of a handle on an unpacked archive packs the directory into
    /// the archive and then asks for the directory to be removed. Whether
    /// that last request is carried out or not, the disposal ends.
    pub proof fn law_dispose_packs_then_removes(self, last: ReplyView)
        requires
            self.stage == Stage::CloseBuildTar,
        ensures
            ({
                let replies = seq![ReplyView::Done, ReplyView::Done, ReplyView::Done, last];
                &&& self.run(replies) == StepView::Completed
                &&& self.asked(replies) == seq![
                    RequestView::BuildTar { dir: self.layout.dir, tar: self.layout.tar },
                    RequestView::CompressFile { from: self.layout.tar, to: self.layout.archive },
                    RequestView::RemoveFile(self.layout.tar),
                    RequestView::RemoveDirAll(self.layout.dir),
                ]
            }),
    {
        let none = Seq::<ReplyView>::empty();
        let r3 = seq![last] + none;
        let r2 = seq![ReplyView::Done] + r3;
        let r1 = seq![ReplyView::Done] + r2;
        let r0 = seq![ReplyView::Done] + r1;
        self.at(Stage::CloseRemoveDir).lemma_run_first(last, none);
        self.at(Stage::CloseRemoveTar).lemma_run_first(ReplyView::Done, r3);
        self.at(Stage::CloseCompress).lemma_run_first(ReplyView::Done, r2);
        self.lemma_run_first(ReplyView::Done, r1);
        assert(r0 =~= seq![ReplyView::Done, ReplyView::Done, ReplyView::Done, last]);
        assert(self.asked(r0) =~= seq![
            RequestView::BuildTar { dir: self.layout.dir, tar: self.layout.tar },
            RequestView::CompressFile { from: self.layout.tar, to: self.layout.archive },
            RequestView::RemoveFile(self.layout.tar),
            RequestView::RemoveDirAll(self.layout.dir),
        ]);
    }

    /// Whether the operation is the disposal of a handle.
    pub open spec fn is_disposal(self) -> bool {
        ||| self.stage == Stage::CloseBuildTar
        ||| self.stage == Stage::CloseCompress
        ||| self.stage == Stage::CloseRemoveTar
        ||| self.stage == Stage::CloseRemoveDir
    }

    /// Disposing of a handle never fails, whatever the disk replies.
    pub proof fn law_dispose_never_fails(self, replies: Seq<ReplyView>)
        requires
            self.is_disposal(),
        ensures
            self.run(replies) is Completed || self.run(replies) is Pending,
        decreases replies.len(),
    {
        if replies.len() > 0 {
            match self.resume(replies[0]) {
                StepView::Pending(next) => {
                    next.law_dispose_never_fails(replies.drop_first());
                },
                _ => {},
            }
        }
    }

    /// Disposing of a handle asks for the directory to be removed only after
    /// all three steps of packing were carried out. Where one of them was
    /// not, the directory stays as it is.
    pub proof fn law_dispose_keeps_directory_on_failure(self, replies: Seq<ReplyView>)
        requires
            self.stage == Stage::CloseBuildTar,
            self.asked(replies).contains(RequestView::RemoveDirAll(self.layout.dir)),
        ensures
            replies.len() >= 3,
            replies[0] == ReplyView::Done,
            replies[1] == ReplyView::Done,
            replies[2] == ReplyView::Done,
    {
        let t1 = self.at(Stage::CloseCompress);
        let t2 = self.at(Stage::CloseRemoveTar);
        reveal_with_fuel(TaskView::asked, 4);
        let asked = self.asked(replies);
        let r1 = replies.drop_first();
        let r2 = r1.drop_first();
        if replies.len() == 0 || replies[0] != ReplyView::Done {
            assert(asked =~= seq![self.request()]);
            assert(false);
        }
        if r1.len() == 0 || r1[0] != ReplyView::Done {
            assert(t1.asked(r1) =~= seq![t1.request()]);
            assert(asked =~= seq![self.request(), t1.request()]);
            assert(false);
        }
        if r2.len() == 0 || r2[0] != ReplyView::Done {
            assert(t2.asked(r2) =~= seq![t2.request()]);
            assert(t1.asked(r1) =~= seq![t1.request(), t2.request()]);
            assert(asked =~= seq![self.request(), t1.request(), t2.request()]);
            assert(false);
        }
    }
}

} // verus!
