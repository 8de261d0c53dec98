use leech::domain::{Invocation, ProcessOutput, Repository};
use leech::gateway::{get_repositories, list_command, listing_payload, Error};

#[test]
fn list_command_for_an_organization() {
    let invocation = list_command("acme", 5);
    assert_eq!(
        invocation,
        Invocation {
            program: "gh".to_string(),
            args: vec![
                "repo".to_string(),
                "list".to_string(),
                "--limit".to_string(),
                "5".to_string(),
                "--json".to_string(),
                "name,nameWithOwner".to_string(),
                "acme".to_string(),
            ],
            current_dir: None,
        }
    );
}

#[test]
fn list_command_renders_the_limit_in_decimal() {
    assert_eq!(list_command("acme", 10).args[3], "10");
    assert_eq!(list_command("acme", 0).args[3], "0");
    assert_eq!(list_command("acme", u16::MAX).args[3], "65535");
}

#[test]
fn list_command_names_the_organization_last() {
    let invocation = list_command("rust-lang", 10);
    assert_eq!(invocation.args.len(), 7);
    assert_eq!(invocation.args[6], "rust-lang");
}

#[test]
fn payload_is_the_standard_output() {
    let ran = ProcessOutput {
        status: Some(0),
        stdout: b"[{\"name\":\"x\",\"nameWithOwner\":\"acme/x\"}]".to_vec(),
        stderr: b"note".to_vec(),
    };
    assert_eq!(
        listing_payload("acme", Ok(ran)),
        Ok(b"[{\"name\":\"x\",\"nameWithOwner\":\"acme/x\"}]".to_vec())
    );
}

#[test]
fn payload_of_a_command_that_exited_with_an_error_is_still_its_output() {
    let ran = ProcessOutput { status: Some(1), stdout: Vec::new(), stderr: b"no such org".to_vec() };
    assert_eq!(listing_payload("acme", Ok(ran)), Ok(Vec::new()));
}

#[test]
fn command_that_could_not_run_is_a_listing_failure() {
    assert_eq!(
        listing_payload("acme", Err("No such file or directory (os error 2)".to_string())),
        Err(Error::ListError(
            "acme".to_string(),
            "No such file or directory (os error 2)".to_string()
        ))
    );
}

#[test]
fn decoded_repositories_come_back_in_their_order() {
    let decoded = vec![
        Repository::new("x".to_string(), "acme/x".to_string()),
        Repository::new("y".to_string(), "acme/y".to_string()),
        Repository::new("z".to_string(), "acme/z".to_string()),
    ];
    assert_eq!(get_repositories("acme", Ok(decoded.clone())), Ok(decoded));
}

#[test]
fn no_repositories_is_no_failure() {
    assert_eq!(get_repositories("acme", Ok(Vec::new())), Ok(Vec::new()));
}

#[test]
fn payload_that_could_not_be_decoded_is_a_decoding_failure() {
    assert_eq!(
        get_repositories("acme", Err("expected value at line 1 column 1".to_string())),
        Err(Error::SerdeError(
            "acme".to_string(),
            "expected value at line 1 column 1".to_string()
        ))
    );
}

#[test]
fn listing_failure_line() {
    let error = Error::ListError("acme".to_string(), "No such file or directory".to_string());
    assert_eq!(
        error.message(),
        "Error fetching repositories for acme: No such file or directory"
    );
}

#[test]
fn decoding_failure_line() {
    let error = Error::SerdeError("acme".to_string(), "EOF while parsing a value".to_string());
    assert_eq!(
        error.message(),
        "Error deserializing repositories for acme: EOF while parsing a value"
    );
}
