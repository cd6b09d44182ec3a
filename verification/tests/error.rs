use sandbox::error::Error;

fn cause() -> String {
    "No space left on device (os error 28)".to_string()
}

#[test]
fn message_of_temp_dir_failure() {
    let e = Error::UnableToCreateTempDir { source: cause() };
    assert_eq!(
        e.message(),
        "Unable to create temporary directory: No space left on device (os error 28)"
    );
}

#[test]
fn message_of_output_dir_failure() {
    let e = Error::UnableToCreateOutputDir { source: cause() };
    assert_eq!(
        e.message(),
        "Unable to create output directory: No space left on device (os error 28)"
    );
}

#[test]
fn message_of_output_permissions_failure() {
    let e = Error::UnableToSetOutputPermissions { source: "denied".to_string() };
    assert_eq!(e.message(), "Unable to set permissions for output directory: denied");
}

#[test]
fn message_of_source_file_failure() {
    let e = Error::UnableToCreateSourceFile { source: "denied".to_string() };
    assert_eq!(e.message(), "Unable to create source file: denied");
}

#[test]
fn message_of_source_permissions_failure() {
    let e = Error::UnableToSetSourcePermissions { source: "denied".to_string() };
    assert_eq!(e.message(), "Unable to set permissions for source file: denied");
}

#[test]
fn message_of_launch_failure() {
    let e = Error::UnableToExecuteCompiler { source: "No such file or directory".to_string() };
    assert_eq!(e.message(), "Unable to execute the compiler: No such file or directory");
}

#[test]
fn message_of_timeout() {
    let e = Error::CompilerExecutionTimedOut { timeout_ms: 12000 };
    assert_eq!(e.message(), "Compiler execution took longer than 12000 ms");
    let e = Error::CompilerExecutionTimedOut { timeout_ms: 0 };
    assert_eq!(e.message(), "Compiler execution took longer than 0 ms");
}

#[test]
fn message_of_read_failure() {
    let e = Error::UnableToReadOutput { source: "denied".to_string() };
    assert_eq!(e.message(), "Unable to read output file: denied");
}

#[test]
fn message_of_decode_failure() {
    let e = Error::OutputNotUtf8 { source: "bad byte".to_string() };
    assert_eq!(e.message(), "Output was not valid UTF-8: bad byte");
}

#[test]
fn message_of_missing_output() {
    assert_eq!(Error::OutputMissing.message(), "Output was missing");
}

#[test]
fn message_with_empty_cause() {
    let e = Error::UnableToReadOutput { source: String::new() };
    assert_eq!(e.message(), "Unable to read output file: ");
}

#[test]
fn only_the_deadline_is_a_timeout() {
    assert!(Error::CompilerExecutionTimedOut { timeout_ms: 12000 }.is_timeout());
    assert!(!Error::UnableToCreateTempDir { source: cause() }.is_timeout());
    assert!(!Error::UnableToCreateOutputDir { source: cause() }.is_timeout());
    assert!(!Error::UnableToSetOutputPermissions { source: cause() }.is_timeout());
    assert!(!Error::UnableToCreateSourceFile { source: cause() }.is_timeout());
    assert!(!Error::UnableToSetSourcePermissions { source: cause() }.is_timeout());
    assert!(!Error::UnableToExecuteCompiler { source: cause() }.is_timeout());
    assert!(!Error::UnableToReadOutput { source: cause() }.is_timeout());
    assert!(!Error::OutputNotUtf8 { source: cause() }.is_timeout());
    assert!(!Error::OutputMissing.is_timeout());
}
