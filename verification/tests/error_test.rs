use lazy_db::{LDBErrContext, LDBError, LazyNumType, LazyType, Version};

#[test]
fn missing_file_names_its_path() {
    let error = LDBError::FileNotFound("db/.meta".to_string());
    assert_eq!(error.message(), "File 'db/.meta' not found");
}

#[test]
fn missing_directory_names_its_path() {
    let error = LDBError::DirNotFound("db".to_string());
    assert_eq!(error.message(), "Directory 'db' not found");
}

#[test]
fn missing_stamp_names_its_path() {
    let error = LDBError::MissingMetadata("db/.meta".to_string());
    assert_eq!(error.message(), "No version stamp in 'db/.meta'");
}

#[test]
fn corrupt_stamp_names_its_path() {
    let error = LDBError::InvalidMetaVersion("db/.meta".to_string());
    assert_eq!(error.message(), "Invalid version stamp in 'db/.meta'");
}

#[test]
fn io_error_message_holds_the_error() {
    let inner = std::io::Error::new(std::io::ErrorKind::Other, "the disk is full");
    let message = LDBError::IOError(inner).message();
    assert!(message.starts_with("IO Error: "));
    assert!(message.contains("the disk is full"));
}

#[test]
fn walkdir_error_message_holds_the_error() {
    let walked = walkdir::WalkDir::new("/no/such/directory/anywhere").into_iter().next();
    let inner = walked.unwrap().unwrap_err();
    let message = LDBError::WalkDirError(inner).message();
    assert!(message.starts_with("WalkDir Error: "));
    assert!(message.contains("/no/such/directory/anywhere"));
}

#[test]
fn other_messages_are_fixed() {
    assert_eq!(LDBError::MissingLazyType.message(), "The data ends before its type tag");
    assert_eq!(
        LDBError::InvalidLazyType(200).message(),
        "The data opens with an unknown type tag"
    );
    assert_eq!(
        LDBError::IncorrectType {
            expected: LazyType::String,
            found: LazyType::Num(LazyNumType::U8)
        }
        .message(),
        "The data holds a value of another type"
    );
    assert_eq!(LDBError::InvalidUTF8String(vec![255]).message(), "The text is not valid UTF-8");
    assert_eq!(
        LDBError::InvalidPayloadLength { length: 3, width: 4 }.message(),
        "The length of the data does not fit its type"
    );
    assert_eq!(
        LDBError::IncompatibleVersion(Version::new(2, 0, 0)).message(),
        "The database has an incompatible major version"
    );
    assert_eq!(
        LDBError::UnexpectedReply.message(),
        "A request was answered by the wrong kind of reply"
    );
}

#[test]
fn contexts_carry_their_path() {
    let context = LDBErrContext::WhileZippingFile("db/age");
    assert!(matches!(context, LDBErrContext::WhileZippingFile("db/age")));
    assert!(matches!(LDBErrContext::WhileZipping("db"), LDBErrContext::WhileZipping("db")));
    assert!(matches!(
        LDBErrContext::WhileBuildingTarBall("db"),
        LDBErrContext::WhileBuildingTarBall("db")
    ));
    assert!(matches!(LDBErrContext::Undefined, LDBErrContext::Undefined));
}
