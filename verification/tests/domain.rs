use leech::domain::{Error, Invocation, ProcessOutput, Repository, SyncPlan};

fn repository(name: &str) -> Repository {
    Repository::new(name.to_string(), format!("acme/{}", name))
}

fn output(code: i32, stdout: &str) -> ProcessOutput {
    ProcessOutput { status: Some(code), stdout: stdout.as_bytes().to_vec(), stderr: Vec::new() }
}

#[test]
fn dir_name_is_the_name() {
    let repo = Repository::new("tool".to_string(), "acme/tool".to_string());
    assert_eq!(repo.dir_name(), "tool");
    assert_eq!(repo.owner_name(), "acme/tool");
}

#[test]
fn existing_directory_is_pulled() {
    let plan = repository("x").sync_to_local(true);
    assert_eq!(plan, SyncPlan::Pull { name: "x".to_string() });
}

#[test]
fn missing_directory_is_cloned() {
    let plan = repository("x").sync_to_local(false);
    assert_eq!(
        plan,
        SyncPlan::Clone { name: "x".to_string(), owner_name: "acme/x".to_string() }
    );
}

#[test]
fn routing_goes_by_the_directory_alone() {
    let same_names = Repository::new("x".to_string(), "x".to_string());
    assert!(matches!(same_names.sync_to_local(true), SyncPlan::Pull { .. }));
    assert!(matches!(same_names.sync_to_local(false), SyncPlan::Clone { .. }));
    let empty = Repository::new(String::new(), String::new());
    assert!(matches!(empty.sync_to_local(true), SyncPlan::Pull { .. }));
    assert!(matches!(empty.sync_to_local(false), SyncPlan::Clone { .. }));
}

#[test]
fn pull_runs_git_inside_the_directory() {
    let invocation = repository("x").sync_to_local(true).invocation();
    assert_eq!(
        invocation,
        Invocation {
            program: "git".to_string(),
            args: vec!["pull".to_string()],
            current_dir: Some("x".to_string()),
        }
    );
}

#[test]
fn clone_addresses_the_remote_by_owner_and_name() {
    let invocation = repository("x").sync_to_local(false).invocation();
    assert_eq!(
        invocation,
        Invocation {
            program: "gh".to_string(),
            args: vec!["repo".to_string(), "clone".to_string(), "acme/x".to_string()],
            current_dir: None,
        }
    );
}

#[test]
fn output_of_a_command_that_ran_is_the_outcome() {
    let ran = output(0, "Already up to date.\n");
    let outcome = repository("x").sync_to_local(true).conclude(Ok(ran.clone()));
    assert_eq!(outcome, Ok(ran));
}

#[test]
fn nonzero_exit_is_still_an_output() {
    let ran = ProcessOutput { status: Some(128), stdout: Vec::new(), stderr: b"fatal".to_vec() };
    let outcome = repository("x").sync_to_local(false).conclude(Ok(ran.clone()));
    assert_eq!(outcome, Ok(ran));
}

#[test]
fn clone_that_could_not_run_is_a_clone_failure() {
    let outcome =
        repository("y").sync_to_local(false).conclude(Err("No such file or directory".to_string()));
    assert_eq!(
        outcome,
        Err(Error::Clone("y".to_string(), "No such file or directory".to_string()))
    );
}

#[test]
fn pull_that_could_not_run_is_a_pull_failure() {
    let outcome = repository("y").sync_to_local(true).conclude(Err("Permission denied".to_string()));
    assert_eq!(outcome, Err(Error::Pull("y".to_string(), "Permission denied".to_string())));
}

#[test]
fn clone_failure_line() {
    let error = Error::Clone("y".to_string(), "No such file or directory (os error 2)".to_string());
    assert_eq!(
        error.message(),
        "Error cloning repository y: No such file or directory (os error 2)"
    );
}

#[test]
fn pull_failure_line() {
    let error = Error::Pull("y".to_string(), "Permission denied (os error 13)".to_string());
    assert_eq!(error.message(), "Error pulling repository y: Permission denied (os error 13)");
}

#[test]
fn failure_line_with_empty_parts() {
    assert_eq!(Error::Clone(String::new(), String::new()).message(), "Error cloning repository : ");
    assert_eq!(Error::Pull(String::new(), String::new()).message(), "Error pulling repository : ");
}
