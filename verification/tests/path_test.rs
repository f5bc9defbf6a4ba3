use lazy_db::{
    join_path, lie_apart, lies_above, lies_below, lies_outside, opens_with, Layout, LazyDB,
};
use std::path::Path;

#[test]
fn joining_puts_a_separator_where_none_stands() {
    assert_eq!(join_path("db", "people"), "db/people");
    assert_eq!(join_path("db/", "people"), "db/people");
    assert_eq!(join_path("", "people"), "people");
    assert_eq!(join_path("db", ""), "db/");
    assert_eq!(join_path("db", ".meta"), "db/.meta");
    assert_eq!(join_path("a/b", "c/d"), "a/b/c/d");
}

#[test]
fn joining_a_rooted_name_gives_the_name() {
    assert_eq!(join_path("db", "/etc"), "/etc");
    assert_eq!(join_path("", "/"), "/");
}

#[test]
fn joining_agrees_with_the_standard_library() {
    let bases = ["", "/", "db", "db/", "a/b", "/a/b/", "données", "a//", "."];
    let names = ["", "x", ".meta", "/x", "x/y", "é", "..", "/"];
    for base in bases {
        for name in names {
            let expected = Path::new(base).join(name);
            assert_eq!(Some(join_path(base, name).as_str()), expected.to_str());
        }
    }
}

#[test]
fn a_path_lies_below_a_directory_after_a_separator() {
    assert!(lies_below("db", "db/age"));
    assert!(lies_below("db", "db/people/Dave"));
    assert!(lies_below("", "/x"));
    assert!(lies_below("dé", "dé/x"));
    assert!(!lies_below("db", "db"));
    assert!(!lies_below("db", "db/"));
    assert!(!lies_below("db", "db.ldb"));
    assert!(!lies_below("db", "dbx/age"));
    assert!(!lies_below("db", "d"));
    assert!(!lies_below("db", "xb/age"));
    assert!(!lies_below("db/people", "db/age"));
}

#[test]
fn a_path_lies_outside_a_directory_when_it_is_not_in_it() {
    assert!(lies_outside("db", "db.ldb"));
    assert!(lies_outside("db", "other/db"));
    assert!(!lies_outside("db", "db"));
    assert!(!lies_outside("db", "db/age"));
}

#[test]
fn layouts_of_named_directories_keep_apart() {
    assert!(Layout::of_directory("db").keeps_apart());
    assert!(Layout::of_directory("data/db.modb").keeps_apart());
    assert!(Layout::of_archive("data/db.ldb").keeps_apart());
    assert!(Layout::packing("db", "out/db.ldb").keeps_apart());
    assert!(Layout::unpacking("in.ldb", "db").keeps_apart());
}

#[test]
fn layouts_that_mix_their_places_do_not_keep_apart() {
    assert!(!Layout::packing("db", "db.tmp.tar").keeps_apart());
    assert!(!Layout::packing("db", "db/inside.ldb").keeps_apart());
    assert!(!Layout::of_directory("/").keeps_apart());
    assert!(!Layout::of_directory("..").keeps_apart());
    assert!(!Layout::of_directory("db/").keeps_apart());
    let layout = Layout {
        dir: "db".to_string(),
        meta: "elsewhere/.meta".to_string(),
        archive: "db.ldb".to_string(),
        tar: "db.tmp.tar".to_string(),
    };
    assert!(!layout.keeps_apart());
}

#[test]
fn a_task_shows_its_places() {
    let task = LazyDB::load_db("data/db.ldb");
    assert_eq!(task.layout(), &Layout::of_archive("data/db.ldb"));
    assert_eq!(task.layout().dir, "data/db.modb");
    assert!(task.layout().keeps_apart());
}

#[test]
fn a_directory_lies_above_what_stands_in_it() {
    assert!(lies_above("a", "a/b/db"));
    assert!(lies_above("a/b", "a/b/db"));
    assert!(lies_above("a/b", "a/b/"));
    assert!(lies_above("/a", "/a/b"));
    assert!(!lies_above("", "/a"));
    assert!(!lies_above("a/b/db", "a/b/db"));
    assert!(!lies_above("a/b/db", "a"));
    assert!(!lies_above("a/", "a/b"));
    assert!(!lies_above("b", "a/b"));
    assert!(opens_with("", "/a"));
    assert!(opens_with("a", "a/"));
    assert!(!opens_with("a", "a"));
    assert!(!opens_with("a", "ab/"));
}

#[test]
fn a_path_above_a_directory_is_not_outside_it() {
    assert!(!lies_outside("a/b/db", "a"));
    assert!(!lies_outside("a/b/db", "a/b"));
    assert!(lies_outside("a/b/db", "a/c"));
    assert!(lies_outside("a/b/db", "a/b/db.ldb"));
}

#[test]
fn directories_lie_apart_when_neither_holds_the_other() {
    assert!(lie_apart("db", "copy"));
    assert!(lie_apart("data/db", "data/copy"));
    assert!(lie_apart("db", "db2"));
    assert!(!lie_apart("db", "db"));
    assert!(!lie_apart("db", "db/copy"));
    assert!(!lie_apart("db/copy", "db"));
    assert!(!lie_apart("db", "db/"));
}

#[test]
fn a_task_is_kept_where_its_places_keep_apart() {
    let task = LazyDB::decompile("in.ldb", "work").kept_apart().unwrap();
    assert_eq!(task.layout().dir, "work");
    assert_eq!(task.layout().tar, "in.tmp.tar");
    assert!(LazyDB::load_db("data/db.ldb").kept_apart().is_some());
    assert!(LazyDB::init_db("db").kept_apart().is_some());
}

#[test]
fn a_task_is_not_kept_where_its_places_mix() {
    assert!(LazyDB::decompile("work/in.ldb", "work").kept_apart().is_none());
    assert!(LazyDB::decompile("a", "a/b").kept_apart().is_none());
    assert!(LazyDB::load_db("db.modb").kept_apart().is_none());
    assert!(LazyDB::load_db("/").kept_apart().is_none());
    assert!(LazyDB::init("..").kept_apart().is_none());
}
