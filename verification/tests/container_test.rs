use lazy_db::{FileWrapper, LDBError, LazyContainer, LazyData, LazyType, Request};

#[test]
fn container_wants_a_directory() {
    let container = LazyContainer::load("db", true).unwrap();
    assert_eq!(container.path(), "db");
    match LazyContainer::load("db", false).unwrap_err() {
        LDBError::DirNotFound(path) => assert_eq!(path, "db"),
        other => panic!("unexpected error {:?}", other),
    }
}

#[test]
fn child_path_joins_the_name() {
    let container = LazyContainer::load("db", true).unwrap();
    assert_eq!(container.child_path("people"), "db/people");
    let people = container.child_container("people", true).unwrap();
    assert_eq!(people.child_path("Dave"), "db/people/Dave");
}

#[test]
fn child_that_is_no_directory_is_not_found() {
    let container = LazyContainer::load("db", true).unwrap();
    match container.child_container("people", false).unwrap_err() {
        LDBError::DirNotFound(path) => assert_eq!(path, "db/people"),
        other => panic!("unexpected error {:?}", other),
    }
    let child = container.child_container("people", true).unwrap();
    assert_eq!(child.path(), "db/people");
}

#[test]
fn leaf_that_is_no_file_is_not_found() {
    let container = LazyContainer::load("db", true).unwrap();
    match container.read_data("age", None).unwrap_err() {
        LDBError::FileNotFound(path) => assert_eq!(path, "db/age"),
        other => panic!("unexpected error {:?}", other),
    }
    match LazyContainer::read_leaf("somewhere/age", None).unwrap_err() {
        LDBError::FileNotFound(path) => assert_eq!(path, "somewhere/age"),
        other => panic!("unexpected error {:?}", other),
    }
}

#[test]
fn leaf_is_opened_lazily() {
    let container = LazyContainer::load("db", true).unwrap();
    let data = container.read_data("name", Some(vec![1, 0xFF])).unwrap();
    assert_eq!(data.lazy_type, LazyType::String);
    assert_eq!(data.wrapper.path(), "db/name");
    assert!(matches!(data.collect_string(), Err(LDBError::InvalidUTF8String(_))));
}

#[test]
fn leaf_without_a_tag_cannot_be_opened() {
    let container = LazyContainer::load("db", true).unwrap();
    assert!(matches!(
        container.read_data("empty", Some(Vec::new())),
        Err(LDBError::MissingLazyType)
    ));
    assert!(matches!(
        container.read_data("odd", Some(vec![200])),
        Err(LDBError::InvalidLazyType(200))
    ));
}

#[test]
fn data_writer_is_an_empty_file_at_the_leaf_path() {
    let container = LazyContainer::load("db", true).unwrap();
    let file = container.data_writer("age");
    assert_eq!(file.path(), "db/age");
    assert_eq!(file.store(), Request::WriteFile("db/age".to_string(), Vec::new()));
}

#[test]
fn stored_file_holds_what_was_written() {
    let container = LazyContainer::load("db", true).unwrap();
    let mut file = container.data_writer("age");
    LazyData::new_u8(&mut file, 21);
    assert_eq!(file.store(), Request::WriteFile("db/age".to_string(), vec![7, 21]));
}

#[test]
fn file_wrapper_keeps_its_path() {
    let file = FileWrapper::new_reader("a/b", vec![1, 2]);
    assert_eq!(file.path(), "a/b");
    assert_eq!(file.store(), Request::WriteFile("a/b".to_string(), vec![1, 2]));
}
