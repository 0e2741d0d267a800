use graduate_cli::error::CliError;
use graduate_cli::git_output::GitOutput;
use graduate_cli::preflight::{
    isolated_environment_variables, repository_identity, repository_location_variables,
    source_repository_path,
};

fn code_and_message(result: Result<String, CliError>) -> (String, String) {
    match result {
        Err(CliError::Machine(error)) => (error.code.clone(), error.message.clone()),
        _ => panic!("expected a machine error"),
    }
}

#[test]
fn the_source_repository_is_found_from_its_common_directory() {
    assert_eq!(
        source_repository_path(GitOutput::Succeeded(b"/work/repo/.git\r\n".to_vec())).ok(),
        Some("/work/repo/.git".to_owned())
    );
    assert_eq!(
        code_and_message(source_repository_path(GitOutput::Failed)),
        ("repository_not_found".to_owned(), "the current directory is not inside a Git repository".to_owned())
    );
    assert_eq!(
        code_and_message(source_repository_path(GitOutput::NotRun)),
        ("repository_unavailable".to_owned(), "could not identify the source repository".to_owned())
    );
    assert_eq!(
        code_and_message(source_repository_path(GitOutput::Succeeded(vec![0xff, b'\n']))),
        ("repository_unavailable".to_owned(), "the source repository path is not valid UTF-8".to_owned())
    );
}

#[test]
fn the_identity_is_the_canonical_utf8_path() {
    assert_eq!(repository_identity(Some(Some("/work/repo/.git".to_owned()))).ok(), Some("/work/repo/.git".to_owned()));
    assert_eq!(
        code_and_message(repository_identity(Some(None))),
        ("repository_unavailable".to_owned(), "the source repository path is not valid UTF-8".to_owned())
    );
    assert_eq!(
        code_and_message(repository_identity(None)),
        ("repository_unavailable".to_owned(), "could not identify the source repository".to_owned())
    );
}

#[test]
fn git_commands_drop_the_variables_that_redirect_them() {
    let location = repository_location_variables();
    assert_eq!(location.len(), 12);
    assert!(location.contains(&"GIT_DIR") && location.contains(&"GIT_WORK_TREE"));
    let isolated = isolated_environment_variables();
    assert_eq!(isolated.len(), 25);
    assert_eq!(&isolated[..12], &location[..]);
    assert!(isolated.contains(&"GIT_AUTHOR_NAME") && isolated.contains(&"GIT_EXEC_PATH"));
}
