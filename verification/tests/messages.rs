//! What the errors of a copy say to a reader.

use gdrive::files::copy_folder::{copy_folder, Action, Config, Error, Reply};

fn all_with(cause: &str) -> Vec<(Error<String>, String)> {
    let held = cause.to_string();
    vec![
        (Error::Hub(held.clone()), format!("{}", cause)),
        (Error::GetFile(held.clone()), format!("Failed to get file: {}", cause)),
        (
            Error::GetDestinationFolder(held.clone()),
            format!("Failed to get destination folder: {}", cause),
        ),
        (Error::SourceNotADirectory, "Can only copy a directory".to_string()),
        (Error::DestinationNotADirectory, "Can only copy to a directory".to_string()),
        (Error::SourceIsADirectory, "Copy directories is not supported".to_string()),
        (Error::ListFiles(held.clone()), format!("Failed to list files: {}", cause)),
        (Error::Copy(held.clone()), format!("Failed to copy file: {}", cause)),
        (Error::FileWithoutId, "Found a file to copy with no id".to_string()),
        (Error::FileWithoutName, "Found a file to copy with no name".to_string()),
        (Error::MKDirError(held.clone()), format!("Failed creating folder: {}", cause)),
        (Error::CopyFile(held.clone()), format!("Faild copying file: {}", cause)),
        (Error::RenameError(held), format!("Faild renaming file: {}", cause)),
    ]
}

#[test]
fn message_names_the_phase_and_the_cause() {
    for (error, expected) in all_with("connection reset") {
        assert_eq!(error.message(), expected);
    }
}

#[test]
fn message_of_an_empty_cause_is_the_phase() {
    for (error, expected) in all_with("") {
        assert_eq!(error.message(), expected);
    }
}

#[test]
fn describe_puts_the_given_text_for_the_cause() {
    for (error, expected) in all_with("held") {
        let swapped = expected.replace("held", "given");
        assert_eq!(error.describe("given"), swapped);
    }
}

#[test]
fn describe_ignores_the_text_where_no_cause_is_held() {
    let error: Error<String> = Error::FileWithoutId;
    assert_eq!(error.describe("ignored"), "Found a file to copy with no id");
    let error: Error<String> = Error::FileWithoutName;
    assert_eq!(error.describe("ignored"), "Found a file to copy with no name");
    let error: Error<String> = Error::SourceNotADirectory;
    assert_eq!(error.describe("ignored"), "Can only copy a directory");
    let error: Error<String> = Error::DestinationNotADirectory;
    assert_eq!(error.describe("ignored"), "Can only copy to a directory");
    let error: Error<String> = Error::SourceIsADirectory;
    assert_eq!(error.describe("ignored"), "Copy directories is not supported");
}

#[test]
fn message_displays_an_error_of_the_drive_client() {
    let error = Error::GetFile(google_drive3::Error::Cancelled);
    assert_eq!(error.message(), "Failed to get file: Operation cancelled by delegate\n");
    let error = Error::RenameError(google_drive3::Error::FieldClash("name"));
    assert_eq!(
        error.message(),
        "Faild renaming file: The custom parameter 'name' is already provided natively by the CallBuilder.\n"
    );
    let error = Error::Hub(google_drive3::Error::MissingAPIKey);
    assert_eq!(error.message(), google_drive3::Error::MissingAPIKey.to_string());
}

#[test]
fn hands_on_an_error_of_the_drive_client() {
    let config = Config { src_folder_id: "F".to_string(), to_folder_id: "D".to_string() };
    let (state, action) = copy_folder::<google_drive3::Error>(config);
    assert!(matches!(action, Action::OpenSession));
    let (state, action) = state.step(Reply::Session(Ok(())));
    assert!(matches!(action, Action::GetFile { ref file_id } if file_id == "F"));
    let (state, action) =
        state.step(Reply::File(Err(google_drive3::Error::UploadSizeLimitExceeded(7, 5))));
    assert!(state.is_finished());
    match action {
        Action::Finish(Err(error)) => {
            assert!(matches!(
                error,
                Error::GetFile(google_drive3::Error::UploadSizeLimitExceeded(7, 5))
            ));
            assert_eq!(
                error.message(),
                "Failed to get file: The media size 7 exceeds the maximum allowed upload size of 5\n"
            );
        },
        other => panic!("the copy should have ended, not asked for {:?}", other),
    }
}

#[test]
fn message_of_a_failed_copy_names_the_copy() {
    let error = Error::Copy("quota exceeded".to_string());
    assert_eq!(error.message(), "Failed to copy file: quota exceeded");
    assert_eq!(error.describe("quota exceeded"), "Failed to copy file: quota exceeded");
    assert!(!error.message().contains("move"));
    let content = Error::CopyFile("quota exceeded".to_string());
    assert_ne!(error.message(), content.message());
}

#[test]
fn messages_tell_the_phases_apart() {
    let messages: Vec<String> = all_with("x").into_iter().map(|(error, _)| error.message()).collect();
    for (at, message) in messages.iter().enumerate() {
        for other in messages.iter().skip(at + 1) {
            assert_ne!(message, other);
        }
    }
}
