use eureka::doubles::{
    GitCall, InMemoryConfig, OpenCall, PrintCall, RecordingOpener, RecordingPrinter,
    ScriptedGit, ScriptedReader,
};
use eureka::types::{EurekaError, FatalError};
use eureka::{Eureka, EurekaOptions};

type HappyGit = ScriptedGit<true, true, true, true>;

fn mem_config(repo: Option<&str>, branch: Option<&str>) -> InMemoryConfig {
    InMemoryConfig {
        repo: repo.map(String::from),
        branch: branch.map(String::from),
        dir_created: true,
        fail_io: false,
    }
}

fn recording_printer() -> RecordingPrinter {
    RecordingPrinter { calls: Vec::new() }
}

fn scripted_reader(lines: &[&str]) -> ScriptedReader {
    ScriptedReader { lines: lines.iter().map(|s| s.to_string()).collect(), cursor: 0 }
}

fn recording_opener() -> RecordingOpener {
    RecordingOpener { calls: Vec::new(), fail_editor: false, fail_pager: false }
}

fn run_opts(clear_repo: bool, clear_branch: bool, view: bool) -> EurekaOptions {
    EurekaOptions { clear_repo, clear_branch, view }
}

#[test]
fn new_engine_has_no_git_session() {
    let e: Eureka<_, _, _, _, HappyGit> = Eureka::new(
        mem_config(None, None),
        recording_printer(),
        scripted_reader(&[]),
        recording_opener(),
    );
    assert!(e.git.is_none());
}

#[test]
fn clear_repo_without_value_errors_and_deletes_nothing() {
    let mut e: Eureka<_, _, _, _, HappyGit> = Eureka::new(
        mem_config(None, Some("main")),
        recording_printer(),
        scripted_reader(&[]),
        recording_opener(),
    );
    let r = e.run(run_opts(true, false, false));
    assert_eq!(r, Err(EurekaError::Recoverable));
    assert_eq!(e.fh.repo, None);
    assert_eq!(e.fh.branch, Some("main".to_string()));
}

#[test]
fn clear_repo_removes_only_the_repo_key() {
    let mut e: Eureka<_, _, _, _, HappyGit> = Eureka::new(
        mem_config(Some("/repo"), Some("main")),
        recording_printer(),
        scripted_reader(&[]),
        recording_opener(),
    );
    let r = e.run(run_opts(true, false, false));
    assert_eq!(r, Ok(()));
    assert_eq!(e.fh.repo, None);
    assert_eq!(e.fh.branch, Some("main".to_string()));
}

#[test]
fn clear_branch_removes_only_the_branch_key() {
    let mut e: Eureka<_, _, _, _, HappyGit> = Eureka::new(
        mem_config(Some("/repo"), Some("main")),
        recording_printer(),
        scripted_reader(&[]),
        recording_opener(),
    );
    let r = e.run(run_opts(false, true, false));
    assert_eq!(r, Ok(()));
    assert_eq!(e.fh.repo, Some("/repo".to_string()));
    assert_eq!(e.fh.branch, None);
}

#[test]
fn clear_branch_without_value_errors() {
    let mut e: Eureka<_, _, _, _, HappyGit> = Eureka::new(
        mem_config(Some("/repo"), None),
        recording_printer(),
        scripted_reader(&[]),
        recording_opener(),
    );
    let r = e.run(run_opts(false, true, false));
    assert_eq!(r, Err(EurekaError::Recoverable));
    assert_eq!(e.fh.repo, Some("/repo".to_string()));
}

#[test]
fn clear_both_keys_clears_both() {
    let mut e: Eureka<_, _, _, _, HappyGit> = Eureka::new(
        mem_config(Some("/repo"), Some("main")),
        recording_printer(),
        scripted_reader(&[]),
        recording_opener(),
    );
    let r = e.run(run_opts(true, true, false));
    assert_eq!(r, Ok(()));
    assert_eq!(e.fh.repo, None);
    assert_eq!(e.fh.branch, None);
}

#[test]
fn clearing_short_circuits_view_and_capture() {
    let mut e: Eureka<_, _, _, _, HappyGit> = Eureka::new(
        mem_config(Some("/repo"), Some("main")),
        recording_printer(),
        scripted_reader(&["an idea"]),
        recording_opener(),
    );
    let r = e.run(run_opts(true, false, true));
    assert_eq!(r, Ok(()));
    assert!(e.program_opener.calls.is_empty());
    assert!(e.printer.calls.is_empty());
    assert_eq!(e.reader.cursor, 0);
    assert!(e.git.is_none());
}

#[test]
fn a_failed_removal_leaves_the_key_in_place() {
    let mut e: Eureka<_, _, _, _, HappyGit> = Eureka::new(
        InMemoryConfig {
            repo: Some("/repo".to_string()),
            branch: Some("main".to_string()),
            dir_created: true,
            fail_io: true,
        },
        recording_printer(),
        scripted_reader(&[]),
        recording_opener(),
    );
    let r = e.run(run_opts(true, false, false));
    assert_eq!(r, Err(EurekaError::Recoverable));
    assert_eq!(e.fh.repo, Some("/repo".to_string()));
    assert_eq!(e.fh.branch, Some("main".to_string()));
}

#[test]
fn config_is_complete_iff_both_keys_are_present() {
    let cases = [
        (None, None, true),
        (Some("/repo"), None, true),
        (None, Some("main"), true),
        (Some("/repo"), Some("main"), false),
    ];
    for (repo, branch, missing) in cases {
        let e: Eureka<_, _, _, _, HappyGit> = Eureka::new(
            mem_config(repo, branch),
            recording_printer(),
            scripted_reader(&[]),
            recording_opener(),
        );
        assert_eq!(e.is_config_missing(), missing);
    }
}

#[test]
fn clearing_a_key_flips_completeness() {
    let mut e: Eureka<_, _, _, _, HappyGit> = Eureka::new(
        mem_config(Some("/repo"), Some("main")),
        recording_printer(),
        scripted_reader(&[]),
        recording_opener(),
    );
    assert!(!e.is_config_missing());
    assert_eq!(e.run(run_opts(false, true, false)), Ok(()));
    assert!(e.is_config_missing());
}

#[test]
fn setup_reprompts_until_a_nonempty_repo_path_arrives() {
    let mut e: Eureka<_, _, _, _, HappyGit> = Eureka::new(
        InMemoryConfig { repo: None, branch: None, dir_created: false, fail_io: false },
        recording_printer(),
        scripted_reader(&["", "", "", "/my/repo"]),
        recording_opener(),
    );
    let r = e.run(run_opts(false, false, false));
    assert_eq!(r, Ok(()));
    assert_eq!(e.reader.cursor, 4);
    assert_eq!(e.fh.repo, Some("/my/repo".to_string()));
    assert_eq!(e.fh.branch, Some("master".to_string()));
    assert!(e.fh.dir_created);
    assert_eq!(
        e.printer.calls,
        vec![
            PrintCall::Banner,
            PrintCall::Header("Absolute path to your idea repo".to_string()),
            PrintCall::Header("Absolute path to your idea repo".to_string()),
            PrintCall::Header("Absolute path to your idea repo".to_string()),
            PrintCall::Header("Absolute path to your idea repo".to_string()),
            PrintCall::Header("Name of branch (default: master)".to_string()),
            PrintCall::Plain("First time setup complete. Happy ideation!".to_string()),
        ]
    );
}

#[test]
fn setup_repo_path_reads_exactly_until_the_nonempty_line() {
    let mut e: Eureka<_, _, _, _, HappyGit> = Eureka::new(
        mem_config(None, None),
        recording_printer(),
        scripted_reader(&["", "", "", "/my/repo", "later"]),
        recording_opener(),
    );
    let r = e.setup_repo_path();
    assert_eq!(r, Ok(()));
    assert_eq!(e.reader.cursor, 4);
    assert_eq!(e.fh.repo, Some("/my/repo".to_string()));
}

#[test]
fn empty_branch_input_stores_master() {
    let mut e: Eureka<_, _, _, _, HappyGit> = Eureka::new(
        mem_config(Some("/repo"), None),
        recording_printer(),
        scripted_reader(&[""]),
        recording_opener(),
    );
    let r = e.run(run_opts(false, false, false));
    assert_eq!(r, Ok(()));
    assert_eq!(e.fh.branch, Some("master".to_string()));
}

#[test]
fn nonempty_branch_input_is_stored_verbatim() {
    let mut e: Eureka<_, _, _, _, HappyGit> = Eureka::new(
        mem_config(Some("/repo"), None),
        recording_printer(),
        scripted_reader(&["dev"]),
        recording_opener(),
    );
    let r = e.run(run_opts(false, false, false));
    assert_eq!(r, Ok(()));
    assert_eq!(e.fh.branch, Some("dev".to_string()));
    assert_eq!(
        e.printer.calls,
        vec![
            PrintCall::Banner,
            PrintCall::Header("Name of branch (default: master)".to_string()),
            PrintCall::Plain("First time setup complete. Happy ideation!".to_string()),
        ]
    );
}

#[test]
fn view_opens_the_pager_on_the_readme() {
    let mut e: Eureka<_, _, _, _, HappyGit> = Eureka::new(
        mem_config(Some("/x"), Some("main")),
        recording_printer(),
        scripted_reader(&["an idea"]),
        recording_opener(),
    );
    let r = e.run(run_opts(false, false, true));
    assert_eq!(r, Ok(()));
    assert_eq!(
        e.program_opener.calls,
        vec![
            OpenCall::Pager("/x/README.md".to_string()),
            OpenCall::Editor("/x/README.md".to_string()),
        ]
    );
}

#[test]
fn view_without_repo_config_errors() {
    let mut e: Eureka<_, _, _, _, HappyGit> = Eureka::new(
        mem_config(None, None),
        recording_printer(),
        scripted_reader(&["/some/repo"]),
        recording_opener(),
    );
    let r = e.run(run_opts(false, false, true));
    assert_eq!(r, Err(EurekaError::Recoverable));
    assert!(e.program_opener.calls.is_empty());
    assert!(e.printer.calls.is_empty());
    assert_eq!(e.reader.cursor, 0);
}

#[test]
fn pager_failure_stops_the_run() {
    let mut e: Eureka<_, _, _, _, HappyGit> = Eureka::new(
        mem_config(Some("/x"), Some("main")),
        recording_printer(),
        scripted_reader(&["an idea"]),
        RecordingOpener { calls: Vec::new(), fail_editor: false, fail_pager: true },
    );
    let r = e.run(run_opts(false, false, true));
    assert_eq!(r, Err(EurekaError::Recoverable));
    assert_eq!(e.program_opener.calls, vec![OpenCall::Pager("/x/README.md".to_string())]);
    assert!(e.git.is_none());
    assert_eq!(e.reader.cursor, 0);
}

#[test]
fn capture_checks_out_stages_commits_and_pushes_in_order() {
    let mut e: Eureka<_, _, _, _, HappyGit> = Eureka::new(
        mem_config(Some("/repo"), Some("main")),
        recording_printer(),
        scripted_reader(&["add feature"]),
        recording_opener(),
    );
    let r = e.run(run_opts(false, false, false));
    assert_eq!(r, Ok(()));
    assert_eq!(e.program_opener.calls, vec![OpenCall::Editor("/repo/README.md".to_string())]);
    let git = e.git.expect("the git session is constructed during capture");
    assert_eq!(git.repo, "/repo".to_string());
    assert_eq!(
        git.calls,
        vec![
            GitCall::Checkout("main".to_string()),
            GitCall::Add,
            GitCall::Commit("add feature".to_string()),
            GitCall::Push("main".to_string()),
        ]
    );
    assert_eq!(
        e.printer.calls,
        vec![
            PrintCall::Header(">> Idea summary".to_string()),
            PrintCall::Line("Adding and committing your new idea..".to_string()),
            PrintCall::Line("Added and committed!".to_string()),
            PrintCall::Line("Pushing your new idea..".to_string()),
            PrintCall::Line("Pushed!".to_string()),
        ]
    );
}

#[test]
fn commit_failure_prevents_the_push() {
    let mut e: Eureka<_, _, _, _, ScriptedGit<true, true, false, true>> = Eureka::new(
        mem_config(Some("/repo"), Some("main")),
        recording_printer(),
        scripted_reader(&["add feature"]),
        recording_opener(),
    );
    let r = e.run(run_opts(false, false, false));
    assert_eq!(r, Err(EurekaError::Fatal(FatalError::CommitFailed)));
    let git = e.git.expect("the git session is constructed during capture");
    assert_eq!(
        git.calls,
        vec![
            GitCall::Checkout("main".to_string()),
            GitCall::Add,
            GitCall::Commit("add feature".to_string()),
        ]
    );
    assert!(!git.calls.iter().any(|c| matches!(c, GitCall::Push(_))));
}

#[test]
fn editor_failure_prevents_every_git_operation() {
    let mut e: Eureka<_, _, _, _, HappyGit> = Eureka::new(
        mem_config(Some("/repo"), Some("main")),
        recording_printer(),
        scripted_reader(&["add feature"]),
        RecordingOpener { calls: Vec::new(), fail_editor: true, fail_pager: false },
    );
    let r = e.run(run_opts(false, false, false));
    assert_eq!(r, Err(EurekaError::Fatal(FatalError::EditorFailed)));
    assert_eq!(e.program_opener.calls, vec![OpenCall::Editor("/repo/README.md".to_string())]);
    let git = e.git.expect("the git session is constructed before the editor opens");
    assert!(git.calls.is_empty());
}

#[test]
fn checkout_failure_stops_the_sequence_at_checkout() {
    let mut e: Eureka<_, _, _, _, ScriptedGit<false, true, true, true>> = Eureka::new(
        mem_config(Some("/repo"), Some("main")),
        recording_printer(),
        scripted_reader(&["i"]),
        recording_opener(),
    );
    let r = e.run(run_opts(false, false, false));
    assert_eq!(r, Err(EurekaError::Fatal(FatalError::CheckoutFailed)));
    let git = e.git.expect("the git session is constructed during capture");
    assert_eq!(git.calls, vec![GitCall::Checkout("main".to_string())]);
}

#[test]
fn stage_failure_stops_the_sequence_after_staging() {
    let mut e: Eureka<_, _, _, _, ScriptedGit<true, false, true, true>> = Eureka::new(
        mem_config(Some("/repo"), Some("main")),
        recording_printer(),
        scripted_reader(&["i"]),
        recording_opener(),
    );
    let r = e.run(run_opts(false, false, false));
    assert_eq!(r, Err(EurekaError::Fatal(FatalError::StageFailed)));
    let git = e.git.expect("the git session is constructed during capture");
    assert_eq!(git.calls, vec![GitCall::Checkout("main".to_string()), GitCall::Add]);
}

#[test]
fn push_failure_comes_after_a_complete_sequence() {
    let mut e: Eureka<_, _, _, _, ScriptedGit<true, true, true, false>> = Eureka::new(
        mem_config(Some("/repo"), Some("main")),
        recording_printer(),
        scripted_reader(&["i"]),
        recording_opener(),
    );
    let r = e.run(run_opts(false, false, false));
    assert_eq!(r, Err(EurekaError::Fatal(FatalError::PushFailed)));
    let git = e.git.expect("the git session is constructed during capture");
    assert_eq!(
        git.calls,
        vec![
            GitCall::Checkout("main".to_string()),
            GitCall::Add,
            GitCall::Commit("i".to_string()),
            GitCall::Push("main".to_string()),
        ]
    );
    assert_eq!(
        e.printer.calls,
        vec![
            PrintCall::Header(">> Idea summary".to_string()),
            PrintCall::Line("Adding and committing your new idea..".to_string()),
            PrintCall::Line("Added and committed!".to_string()),
            PrintCall::Line("Pushing your new idea..".to_string()),
        ]
    );
}

#[test]
fn an_empty_idea_summary_is_committed_verbatim() {
    let mut e: Eureka<_, _, _, _, HappyGit> = Eureka::new(
        mem_config(Some("/repo"), Some("main")),
        recording_printer(),
        scripted_reader(&[]),
        recording_opener(),
    );
    let r = e.run(run_opts(false, false, false));
    assert_eq!(r, Ok(()));
    let git = e.git.expect("the git session is constructed during capture");
    assert_eq!(
        git.calls,
        vec![
            GitCall::Checkout("main".to_string()),
            GitCall::Add,
            GitCall::Commit(String::new()),
            GitCall::Push("main".to_string()),
        ]
    );
}

#[test]
fn a_failed_repo_write_aborts_setup_before_the_branch_prompt() {
    let mut e: Eureka<_, _, _, _, HappyGit> = Eureka::new(
        InMemoryConfig { repo: None, branch: None, dir_created: true, fail_io: true },
        recording_printer(),
        scripted_reader(&["/my/repo", "unused"]),
        recording_opener(),
    );
    let r = e.run(run_opts(false, false, false));
    assert_eq!(r, Err(EurekaError::Recoverable));
    assert_eq!(e.fh.repo, None);
    assert_eq!(e.fh.branch, None);
    assert_eq!(e.reader.cursor, 1);
    assert_eq!(
        e.printer.calls,
        vec![
            PrintCall::Banner,
            PrintCall::Header("Absolute path to your idea repo".to_string()),
        ]
    );
}

#[test]
fn a_failed_config_location_creation_aborts_setup_first() {
    let mut e: Eureka<_, _, _, _, HappyGit> = Eureka::new(
        InMemoryConfig { repo: None, branch: None, dir_created: false, fail_io: true },
        recording_printer(),
        scripted_reader(&["/my/repo"]),
        recording_opener(),
    );
    let r = e.run(run_opts(false, false, false));
    assert_eq!(r, Err(EurekaError::Recoverable));
    assert!(e.printer.calls.is_empty());
    assert_eq!(e.reader.cursor, 0);
}
