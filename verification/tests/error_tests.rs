use file_writer::error::FileWriteError;

#[test]
fn decode_message_has_its_prefix() {
    let err = FileWriteError::Decode(String::from("Invalid byte 33, offset 0."));
    assert_eq!(
        err.message(),
        "Failed to decode base64: Invalid byte 33, offset 0."
    );
}

#[test]
fn create_message_has_its_prefix() {
    let err = FileWriteError::Create(String::from("permission denied"));
    assert_eq!(err.message(), "Failed to create file: permission denied");
}

#[test]
fn write_message_has_its_prefix() {
    let err = FileWriteError::Write(String::from("no space left on device"));
    assert_eq!(err.message(), "Failed to write file: no space left on device");
}

#[test]
fn messages_of_different_kinds_differ() {
    // Even causes crafted to imitate another kind's prefix cannot make two
    // kinds render to the same text.
    let decode = FileWriteError::Decode(String::from("x"));
    let create = FileWriteError::Create(String::from("base64: x"));
    let write = FileWriteError::Write(String::from("file: base64: x"));
    assert_ne!(decode.message(), create.message());
    assert_ne!(decode.message(), write.message());
    assert_ne!(create.message(), write.message());
}

#[test]
fn empty_cause_keeps_the_prefix() {
    let err = FileWriteError::Create(String::new());
    assert_eq!(err.message(), "Failed to create file: ");
}
