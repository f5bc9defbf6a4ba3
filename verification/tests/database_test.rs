use lazy_db::{
    FileWrapper, LDBError, Layout, LazyContainer, LazyDB, LazyData, LazyNumType, LazyType, Reply,
    Request, Stage, Step, Task,
};
use std::collections::{BTreeMap, BTreeSet};

/// A disk in memory: the directories, the files, and every request that was
/// carried out on it.
struct Disk {
    dirs: BTreeSet<String>,
    files: BTreeMap<String, Vec<u8>>,
    log: Vec<Request>,
    broken: Option<usize>,
}

fn empty_disk() -> Disk {
    Disk { dirs: BTreeSet::new(), files: BTreeMap::new(), log: Vec::new(), broken: None }
}

fn io_failure(what: &str) -> Reply {
    Reply::Failed(LDBError::IOError(std::io::Error::new(std::io::ErrorKind::Other, what)))
}

fn parent_of(path: &str) -> Option<&str> {
    path.rfind('/').map(|at| &path[..at])
}

fn create_dir_all(disk: &mut Disk, path: &str) {
    let mut at = Some(path);
    while let Some(dir) = at {
        if !dir.is_empty() {
            disk.dirs.insert(dir.to_string());
        }
        at = parent_of(dir);
    }
}

fn pack(disk: &Disk, dir: &str) -> Vec<u8> {
    let prefix = format!("{}/", dir);
    let mut out = Vec::new();
    for d in disk.dirs.iter().filter(|d| d.starts_with(&prefix)) {
        let rel = &d[prefix.len()..];
        out.push(b'D');
        out.extend_from_slice(&(rel.len() as u32).to_be_bytes());
        out.extend_from_slice(rel.as_bytes());
    }
    for (f, content) in disk.files.iter().filter(|(f, _)| f.starts_with(&prefix)) {
        let rel = &f[prefix.len()..];
        out.push(b'F');
        out.extend_from_slice(&(rel.len() as u32).to_be_bytes());
        out.extend_from_slice(rel.as_bytes());
        out.extend_from_slice(&(content.len() as u32).to_be_bytes());
        out.extend_from_slice(content);
    }
    out
}

fn take_u32(bytes: &[u8], at: &mut usize) -> usize {
    let n = u32::from_be_bytes([bytes[*at], bytes[*at + 1], bytes[*at + 2], bytes[*at + 3]]);
    *at += 4;
    n as usize
}

fn unpack(disk: &mut Disk, bytes: &[u8], dir: &str) {
    create_dir_all(disk, dir);
    let mut at = 0;
    while at < bytes.len() {
        let kind = bytes[at];
        at += 1;
        let len = take_u32(bytes, &mut at);
        let rel = String::from_utf8(bytes[at..at + len].to_vec()).unwrap();
        at += len;
        let path = format!("{}/{}", dir, rel);
        if kind == b'D' {
            disk.dirs.insert(path);
        } else {
            let len = take_u32(bytes, &mut at);
            disk.files.insert(path, bytes[at..at + len].to_vec());
            at += len;
        }
    }
}

fn perform(disk: &mut Disk, request: Request) -> Reply {
    let number = disk.log.len();
    disk.log.push(request.clone());
    if disk.broken == Some(number) {
        return io_failure("the disk is broken");
    }
    match request {
        Request::IsDir(path) => Reply::Flag(disk.dirs.contains(&path)),
        Request::IsFile(path) => Reply::Flag(disk.files.contains_key(&path)),
        Request::ReadFile(path) => match disk.files.get(&path) {
            Some(bytes) => Reply::Bytes(bytes.clone()),
            None => io_failure("no such file"),
        },
        Request::WriteFile(path, bytes) => {
            match parent_of(&path) {
                Some(parent) if !disk.dirs.contains(parent) => {
                    return io_failure("no such directory");
                }
                _ => {}
            }
            disk.files.insert(path, bytes);
            Reply::Done
        }
        Request::CreateDirAll(path) => {
            create_dir_all(disk, &path);
            Reply::Done
        }
        Request::RemoveFile(path) => match disk.files.remove(&path) {
            Some(_) => Reply::Done,
            None => io_failure("no such file"),
        },
        Request::RemoveDirAll(path) => {
            if !disk.dirs.remove(&path) {
                return io_failure("no such directory");
            }
            let prefix = format!("{}/", path);
            disk.dirs.retain(|d| !d.starts_with(&prefix));
            disk.files.retain(|f, _| !f.starts_with(&prefix));
            Reply::Done
        }
        Request::BuildTar { dir, tar } => {
            if !disk.dirs.contains(&dir) {
                return io_failure("no such directory");
            }
            let packed = pack(disk, &dir);
            disk.files.insert(tar, packed);
            Reply::Done
        }
        Request::CompressFile { from, to } => match disk.files.get(&from) {
            Some(bytes) => {
                let mut squeezed = vec![b'Z'];
                squeezed.extend_from_slice(bytes);
                disk.files.insert(to, squeezed);
                Reply::Done
            }
            None => io_failure("no such file"),
        },
        Request::DecompressFile { from, to } => match disk.files.get(&from) {
            Some(bytes) if bytes.first() == Some(&b'Z') => {
                let plain = bytes[1..].to_vec();
                disk.files.insert(to, plain);
                Reply::Done
            }
            _ => io_failure("not a compressed file"),
        },
        Request::UnpackTar { tar, dir } => match disk.files.get(&tar).cloned() {
            Some(bytes) => {
                unpack(disk, &bytes, &dir);
                Reply::Done
            }
            None => io_failure("no such file"),
        },
    }
}

fn drive(disk: &mut Disk, task: Task) -> Step {
    let mut task = task;
    loop {
        let reply = perform(disk, task.request());
        match task.resume(reply) {
            Step::Pending(next) => task = next,
            ended => return ended,
        }
    }
}

fn finish(disk: &mut Disk, step: Step) -> Step {
    match step {
        Step::Pending(task) => drive(disk, task),
        ended => ended,
    }
}

fn opened(step: Step) -> LazyDB {
    match step {
        Step::Opened(db) => db,
        other => panic!("the database was not opened: {:?}", other),
    }
}

fn root_of(disk: &Disk, db: &LazyDB) -> LazyContainer {
    db.as_container(disk.dirs.contains(db.path())).unwrap()
}

fn child_of(disk: &Disk, container: &LazyContainer, name: &str) -> Result<LazyContainer, LDBError> {
    let is_dir = disk.dirs.contains(&container.child_path(name));
    container.child_container(name, is_dir)
}

fn read_from(disk: &Disk, container: &LazyContainer, name: &str) -> Result<LazyData, LDBError> {
    let found = disk.files.get(&container.child_path(name)).cloned();
    container.read_data(name, found)
}

fn store(disk: &mut Disk, file: FileWrapper) {
    assert!(matches!(perform(disk, file.store()), Reply::Done));
}

fn stamp(major: u8, minor: u8, build: u8) -> Vec<u8> {
    vec![14, major, minor, build]
}

fn disk_with_stamp(path: &str, bytes: Vec<u8>) -> Disk {
    let mut disk = empty_disk();
    create_dir_all(&mut disk, path);
    disk.files.insert(format!("{}/.meta", path), bytes);
    disk
}

#[test]
fn init_creates_directory_and_stamp() {
    let mut disk = empty_disk();
    let db = opened(drive(&mut disk, LazyDB::init("data/db")));
    assert_eq!(db.path(), "data/db");
    assert!(!db.is_compiled());
    assert!(disk.dirs.contains("data/db"));
    assert!(disk.dirs.contains("data"));
    assert_eq!(disk.files.get("data/db/.meta"), Some(&vec![14u8, 1, 2, 1]));
    assert_eq!(
        disk.log,
        vec![
            Request::IsDir("data/db".to_string()),
            Request::CreateDirAll("data/db".to_string()),
            Request::IsFile("data/db/.meta".to_string()),
            Request::WriteFile("data/db/.meta".to_string(), vec![14, 1, 2, 1]),
        ]
    );
}

#[test]
fn init_leaves_an_existing_stamp_alone() {
    let mut disk = disk_with_stamp("db", stamp(1, 0, 7));
    let db = opened(drive(&mut disk, LazyDB::init("db")));
    assert_eq!(db.path(), "db");
    assert_eq!(disk.files.get("db/.meta"), Some(&stamp(1, 0, 7)));
    assert_eq!(
        disk.log,
        vec![Request::IsDir("db".to_string()), Request::IsFile("db/.meta".to_string())]
    );
}

#[test]
fn init_writes_the_stamp_into_an_existing_directory() {
    let mut disk = empty_disk();
    create_dir_all(&mut disk, "db");
    opened(drive(&mut disk, LazyDB::init("db")));
    assert_eq!(disk.files.get("db/.meta"), Some(&stamp(1, 2, 1)));
    assert_eq!(disk.log.len(), 3);
}

#[test]
fn init_fails_with_the_error_of_the_disk() {
    let mut disk = empty_disk();
    disk.broken = Some(1);
    let step = drive(&mut disk, LazyDB::init("db"));
    assert!(matches!(step, Step::Failed(LDBError::IOError(_))));
    assert_eq!(disk.log.len(), 2);
    assert!(disk.files.is_empty());
}

#[test]
fn init_db_works_beside_the_archive() {
    let mut disk = empty_disk();
    let db = opened(drive(&mut disk, LazyDB::init_db("db")));
    assert_eq!(db.path(), "db.modb");
    assert!(db.is_compiled());
    assert_eq!(disk.files.get("db.modb/.meta"), Some(&stamp(1, 2, 1)));
}

#[test]
fn load_dir_opens_what_init_created() {
    let mut disk = empty_disk();
    opened(drive(&mut disk, LazyDB::init("db")));
    let db = opened(drive(&mut disk, LazyDB::load_dir("db")));
    assert_eq!(db.path(), "db");
    assert!(!db.is_compiled());
}

#[test]
fn load_dir_wants_the_directory() {
    let mut disk = empty_disk();
    match drive(&mut disk, LazyDB::load_dir("db")) {
        Step::Failed(LDBError::DirNotFound(path)) => assert_eq!(path, "db"),
        other => panic!("unexpected step {:?}", other),
    }
    assert_eq!(disk.log, vec![Request::IsDir("db".to_string())]);
}

#[test]
fn load_dir_wants_the_stamp() {
    let mut disk = empty_disk();
    create_dir_all(&mut disk, "db");
    match drive(&mut disk, LazyDB::load_dir("db")) {
        Step::Failed(LDBError::MissingMetadata(path)) => assert_eq!(path, "db/.meta"),
        other => panic!("unexpected step {:?}", other),
    }
}

#[test]
fn load_dir_takes_a_directory_for_no_stamp() {
    let mut disk = empty_disk();
    create_dir_all(&mut disk, "db/.meta");
    match drive(&mut disk, LazyDB::load_dir("db")) {
        Step::Failed(LDBError::MissingMetadata(path)) => assert_eq!(path, "db/.meta"),
        other => panic!("unexpected step {:?}", other),
    }
    assert!(disk.files.is_empty());
    assert_eq!(
        disk.log,
        vec![Request::IsDir("db".to_string()), Request::IsFile("db/.meta".to_string())]
    );
}

#[test]
fn load_db_wants_the_stamp_of_the_directory_that_is_there() {
    let mut disk = empty_disk();
    create_dir_all(&mut disk, "db.modb");
    match drive(&mut disk, LazyDB::load_db("db.ldb")) {
        Step::Failed(LDBError::MissingMetadata(path)) => assert_eq!(path, "db.modb/.meta"),
        other => panic!("unexpected step {:?}", other),
    }
}

#[test]
fn load_dir_wants_a_stamp_of_three_bytes() {
    for bytes in [vec![14u8], vec![14, 1, 2], vec![14, 1, 2, 1, 0]] {
        let mut disk = disk_with_stamp("db", bytes);
        match drive(&mut disk, LazyDB::load_dir("db")) {
            Step::Failed(LDBError::InvalidMetaVersion(path)) => assert_eq!(path, "db/.meta"),
            other => panic!("unexpected step {:?}", other),
        }
    }
}

#[test]
fn load_dir_wants_a_stamp_that_is_a_byte_string() {
    let mut disk = disk_with_stamp("db", vec![1, b'1', b'2', b'1']);
    match drive(&mut disk, LazyDB::load_dir("db")) {
        Step::Failed(LDBError::IncorrectType { expected, found }) => {
            assert_eq!(expected, LazyType::Binary);
            assert_eq!(found, LazyType::String);
        }
        other => panic!("unexpected step {:?}", other),
    }
    let mut disk = disk_with_stamp("db", Vec::new());
    assert!(matches!(
        drive(&mut disk, LazyDB::load_dir("db")),
        Step::Failed(LDBError::MissingLazyType)
    ));
}

#[test]
fn load_dir_refuses_another_major_version() {
    for major in [0u8, 2, 255] {
        let mut disk = disk_with_stamp("db", stamp(major, 2, 1));
        match drive(&mut disk, LazyDB::load_dir("db")) {
            Step::Failed(LDBError::IncompatibleVersion(version)) => {
                assert_eq!((version.major, version.minor, version.build), (major, 2, 1));
            }
            other => panic!("unexpected step {:?}", other),
        }
    }
}

#[test]
fn load_dir_accepts_other_minor_and_build_numbers() {
    for (minor, build) in [(0u8, 0u8), (2, 0), (9, 9), (255, 255)] {
        let mut disk = disk_with_stamp("db", stamp(1, minor, build));
        let db = opened(drive(&mut disk, LazyDB::load_dir("db")));
        assert_eq!(db.path(), "db");
    }
}

#[test]
fn load_dir_fails_when_the_stamp_cannot_be_read() {
    let mut disk = disk_with_stamp("db", stamp(1, 2, 1));
    disk.broken = Some(2);
    assert!(matches!(
        drive(&mut disk, LazyDB::load_dir("db")),
        Step::Failed(LDBError::IOError(_))
    ));
}

#[test]
fn a_reply_of_the_wrong_kind_is_refused() {
    let task = LazyDB::load_dir("db");
    assert!(matches!(task.resume(Reply::Done), Step::Failed(LDBError::UnexpectedReply)));
    let task = LazyDB::load_dir("db");
    assert!(matches!(
        task.resume(Reply::Bytes(vec![1])),
        Step::Failed(LDBError::UnexpectedReply)
    ));
    let task = LazyDB::init("db");
    let task = match task.resume(Reply::Flag(false)) {
        Step::Pending(task) => task,
        other => panic!("unexpected step {:?}", other),
    };
    assert_eq!(task.stage(), Stage::InitCreateDir);
    assert!(matches!(task.resume(Reply::Flag(true)), Step::Failed(LDBError::UnexpectedReply)));
}

#[test]
fn write_a_leaf_and_read_it_back() {
    let mut disk = empty_disk();
    let db = opened(drive(&mut disk, LazyDB::init("db")));
    create_dir_all(&mut disk, "db/people/Dave");

    let root = root_of(&disk, &db);
    let dave = child_of(&disk, &child_of(&disk, &root, "people").unwrap(), "Dave").unwrap();
    let mut file = dave.data_writer("age");
    LazyData::new_u8(&mut file, 21);
    store(&mut disk, file);
    assert_eq!(disk.files.get("db/people/Dave/age"), Some(&vec![7u8, 21]));

    let root = root_of(&disk, &db);
    let dave = child_of(&disk, &child_of(&disk, &root, "people").unwrap(), "Dave").unwrap();
    let age = read_from(&disk, &dave, "age").unwrap();
    assert_eq!(age.lazy_type, LazyType::Num(LazyNumType::U8));
    assert_eq!(age.collect_u8().unwrap(), 21);

    let age = read_from(&disk, &dave, "age").unwrap();
    match age.collect_string().unwrap_err() {
        LDBError::IncorrectType { expected, found } => {
            assert_eq!(expected, LazyType::String);
            assert_eq!(found, LazyType::Num(LazyNumType::U8));
        }
        other => panic!("unexpected error {:?}", other),
    }
}

#[test]
fn a_compiled_database_comes_back_from_its_archive() {
    let mut disk = empty_disk();
    let db = opened(drive(&mut disk, LazyDB::init_db("db")));
    let root = root_of(&disk, &db);
    let mut file = root.data_writer("colour");
    LazyData::new_string(&mut file, "Blue");
    store(&mut disk, file);

    let step = db.dispose();
    assert!(matches!(finish(&mut disk, step), Step::Completed));
    assert!(disk.dirs.is_empty());
    assert_eq!(disk.files.keys().collect::<Vec<_>>(), vec!["db.ldb"]);

    let db = opened(drive(&mut disk, LazyDB::load_db("db.ldb")));
    assert_eq!(db.path(), "db.modb");
    assert!(db.is_compiled());
    assert!(!disk.files.contains_key("db.tmp.tar"));
    let root = root_of(&disk, &db);
    let colour = read_from(&disk, &root, "colour").unwrap();
    assert_eq!(colour.collect_string().unwrap(), "Blue");
}

#[test]
fn load_db_uses_the_directory_that_is_there() {
    let mut disk = disk_with_stamp("db.modb", stamp(1, 2, 1));
    let db = opened(drive(&mut disk, LazyDB::load_db("db.ldb")));
    assert_eq!(db.path(), "db.modb");
    assert!(db.is_compiled());
    assert_eq!(
        disk.log,
        vec![
            Request::IsDir("db.modb".to_string()),
            Request::IsDir("db.modb".to_string()),
            Request::IsFile("db.modb/.meta".to_string()),
            Request::ReadFile("db.modb/.meta".to_string()),
        ]
    );
}

#[test]
fn load_db_wants_the_archive() {
    let mut disk = empty_disk();
    match drive(&mut disk, LazyDB::load_db("db.ldb")) {
        Step::Failed(LDBError::FileNotFound(path)) => assert_eq!(path, "db.ldb"),
        other => panic!("unexpected step {:?}", other),
    }
}

#[test]
fn load_db_checks_the_version_of_what_it_unpacked() {
    let mut disk = disk_with_stamp("old.modb", stamp(2, 0, 0));
    let db = LazyDB::load_db("old.ldb");
    assert!(matches!(
        drive(&mut disk, db),
        Step::Failed(LDBError::IncompatibleVersion(_))
    ));
}

#[test]
fn compile_then_decompile_reproduces_the_directory() {
    let mut disk = empty_disk();
    let db = opened(drive(&mut disk, LazyDB::init("db")));
    create_dir_all(&mut disk, "db/people/Dave");
    disk.files.insert("db/people/Dave/age".to_string(), vec![7, 21]);
    disk.files.insert("db/title".to_string(), vec![1, b'x']);

    assert!(matches!(drive(&mut disk, db.compile("out/db.ldb")), Step::Completed));
    assert!(disk.dirs.contains("db"));
    assert!(!disk.files.contains_key("db.tmp.tar"));
    assert!(disk.files.contains_key("out/db.ldb"));

    assert!(matches!(
        drive(&mut disk, LazyDB::decompile("out/db.ldb", "copy")),
        Step::Completed
    ));
    assert!(!disk.files.contains_key("out/db.tmp.tar"));
    for (path, content) in disk.files.iter().filter(|(f, _)| f.starts_with("db/")) {
        let twin = format!("copy/{}", &path[3..]);
        assert_eq!(disk.files.get(&twin), Some(content));
    }
    for dir in disk.dirs.iter().filter(|d| d.starts_with("db/")) {
        assert!(disk.dirs.contains(&format!("copy/{}", &dir[3..])));
    }
    let files_of = |root: &str| disk.files.keys().filter(|f| f.starts_with(root)).count();
    assert_eq!(files_of("db/"), 3);
    assert_eq!(files_of("copy/"), 3);
    assert_eq!(disk.files.get("copy/.meta"), Some(&stamp(1, 2, 1)));
}

#[test]
fn compile_asks_for_its_three_steps() {
    let mut disk = empty_disk();
    let db = opened(drive(&mut disk, LazyDB::init("db")));
    disk.log.clear();
    assert!(matches!(drive(&mut disk, db.compile("db.ldb")), Step::Completed));
    assert_eq!(
        disk.log,
        vec![
            Request::BuildTar { dir: "db".to_string(), tar: "db.tmp.tar".to_string() },
            Request::CompressFile { from: "db.tmp.tar".to_string(), to: "db.ldb".to_string() },
            Request::RemoveFile("db.tmp.tar".to_string()),
        ]
    );
}

#[test]
fn compile_fails_with_the_error_of_the_disk() {
    let mut disk = empty_disk();
    let db = opened(drive(&mut disk, LazyDB::init("db")));
    disk.broken = Some(disk.log.len() + 1);
    assert!(matches!(
        drive(&mut disk, db.compile("db.ldb")),
        Step::Failed(LDBError::IOError(_))
    ));
    assert!(!disk.files.contains_key("db.ldb"));
}

#[test]
fn decompile_wants_the_archive() {
    let mut disk = empty_disk();
    match drive(&mut disk, LazyDB::decompile("db.ldb", "db")) {
        Step::Failed(LDBError::FileNotFound(path)) => assert_eq!(path, "db.ldb"),
        other => panic!("unexpected step {:?}", other),
    }
    assert_eq!(disk.log, vec![Request::IsFile("db.ldb".to_string())]);
}

#[test]
fn decompile_asks_for_its_steps() {
    let mut disk = empty_disk();
    disk.files.insert("db.ldb".to_string(), vec![b'Z']);
    assert!(matches!(drive(&mut disk, LazyDB::decompile("db.ldb", "work")), Step::Completed));
    assert_eq!(
        disk.log,
        vec![
            Request::IsFile("db.ldb".to_string()),
            Request::DecompressFile { from: "db.ldb".to_string(), to: "db.tmp.tar".to_string() },
            Request::UnpackTar { tar: "db.tmp.tar".to_string(), dir: "work".to_string() },
            Request::RemoveFile("db.tmp.tar".to_string()),
        ]
    );
}

#[test]
fn disposing_of_a_directory_handle_does_nothing() {
    let mut disk = empty_disk();
    let db = opened(drive(&mut disk, LazyDB::init("db")));
    assert!(matches!(db.dispose(), Step::Completed));
    assert!(disk.dirs.contains("db"));
}

#[test]
fn disposing_packs_and_removes_the_directory() {
    let mut disk = empty_disk();
    let db = opened(drive(&mut disk, LazyDB::init_db("db")));
    disk.log.clear();
    let step = db.dispose();
    assert!(matches!(finish(&mut disk, step), Step::Completed));
    assert_eq!(
        disk.log,
        vec![
            Request::BuildTar { dir: "db.modb".to_string(), tar: "db.tmp.tar".to_string() },
            Request::CompressFile { from: "db.tmp.tar".to_string(), to: "db.ldb".to_string() },
            Request::RemoveFile("db.tmp.tar".to_string()),
            Request::RemoveDirAll("db.modb".to_string()),
        ]
    );
    assert!(!disk.dirs.contains("db.modb"));
}

#[test]
fn disposing_keeps_the_directory_when_packing_fails() {
    for broken in 0..3 {
        let mut disk = empty_disk();
        let db = opened(drive(&mut disk, LazyDB::init_db("db")));
        disk.log.clear();
        disk.broken = Some(broken);
        let step = db.dispose();
        assert!(matches!(finish(&mut disk, step), Step::Completed));
        assert_eq!(disk.log.len(), broken + 1);
        assert!(disk.dirs.contains("db.modb"));
        assert_eq!(disk.files.get("db.modb/.meta"), Some(&stamp(1, 2, 1)));
    }
}

#[test]
fn disposing_ends_quietly_when_the_directory_cannot_be_removed() {
    let mut disk = empty_disk();
    let db = opened(drive(&mut disk, LazyDB::init_db("db")));
    disk.log.clear();
    disk.broken = Some(3);
    let step = db.dispose();
    assert!(matches!(finish(&mut disk, step), Step::Completed));
    assert!(disk.files.contains_key("db.ldb"));
}

#[test]
fn a_task_can_be_begun_at_any_stage_with_any_places() {
    let layout = Layout {
        dir: "d".to_string(),
        meta: "m".to_string(),
        archive: "a".to_string(),
        tar: "t".to_string(),
    };
    let task = Task::begin(Stage::LoadReadMeta, layout.clone(), true);
    assert_eq!(task.request(), Request::ReadFile("m".to_string()));
    let db = opened(task.resume(Reply::Bytes(stamp(1, 9, 9))));
    assert_eq!(db.path(), "d");
    assert!(db.is_compiled());

    let task = Task::begin(Stage::OpenUnpack, layout.clone(), true);
    assert_eq!(
        task.request(),
        Request::UnpackTar { tar: "t".to_string(), dir: "d".to_string() }
    );
    match task.resume(Reply::Done) {
        Step::Pending(next) => {
            assert_eq!(next.stage(), Stage::OpenRemoveTar);
            assert_eq!(next.request(), Request::RemoveFile("t".to_string()));
        }
        other => panic!("unexpected step {:?}", other),
    }

    let task = Task::begin(Stage::PackCompress, layout, false);
    assert_eq!(
        task.request(),
        Request::CompressFile { from: "t".to_string(), to: "a".to_string() }
    );
}

#[test]
fn layouts_name_the_places_of_a_database() {
    let layout = Layout::of_directory("data/db");
    assert_eq!(layout.dir, "data/db");
    assert_eq!(layout.meta, "data/db/.meta");
    assert_eq!(layout.archive, "data/db.ldb");
    assert_eq!(layout.tar, "data/db.tmp.tar");

    let layout = Layout::of_archive("data/db.ldb");
    assert_eq!(layout.dir, "data/db.modb");
    assert_eq!(layout.meta, "data/db.modb/.meta");
    assert_eq!(layout.archive, "data/db.ldb");
    assert_eq!(layout.tar, "data/db.tmp.tar");

    let layout = Layout::packing("db", "out.ldb");
    assert_eq!(layout.archive, "out.ldb");
    assert_eq!(layout.tar, "db.tmp.tar");

    let layout = Layout::unpacking("in.ldb", "db");
    assert_eq!(layout.dir, "db");
    assert_eq!(layout.tar, "in.tmp.tar");
}

#[test]
fn as_container_wants_the_directory() {
    let mut disk = empty_disk();
    let db = opened(drive(&mut disk, LazyDB::init("db")));
    assert_eq!(db.as_container(true).unwrap().path(), "db");
    match db.as_container(false).unwrap_err() {
        LDBError::DirNotFound(path) => assert_eq!(path, "db"),
        other => panic!("unexpected error {:?}", other),
    }
}
