use ralph::git::{Branch, GitCommand, GitOperations};
use ralph::RalphError;

#[test]
fn test_git_operations_creation() {
    let git = GitOperations::new("/tmp/test-project".to_string());
    assert_eq!(git.project_path(), "/tmp/test-project");
}

fn args(command: &GitCommand) -> Vec<String> {
    command.arguments()
}

fn strings(parts: &[&str]) -> Vec<String> {
    parts.iter().map(|p| p.to_string()).collect()
}

#[test]
fn git_commands_have_their_arguments() {
    let git = GitOperations::new("/p".to_string());
    assert_eq!(args(&git.fetch()), strings(&["fetch", "--all", "--prune"]));
    assert_eq!(args(&GitCommand::ListBranches), strings(&["branch"]));
    assert_eq!(args(&GitCommand::ListRemoteBranches), strings(&["branch", "-r"]));
    assert_eq!(args(&git.checkout("main")), strings(&["checkout", "main"]));
    assert_eq!(args(&git.merge("feature/x")), strings(&["merge", "feature/x"]));
    let (stage, commit) = git.commit("fix: things");
    assert_eq!(args(&stage), strings(&["add", "-A"]));
    assert_eq!(args(&commit), strings(&["commit", "-m", "fix: things"]));
    assert_eq!(args(&GitCommand::FindBranch("b".to_string())), strings(&["branch", "--list", "b"]));
    assert_eq!(args(&git.push(Some("b"))), strings(&["push", "-u", "origin", "b"]));
    assert_eq!(args(&git.push(None)), strings(&["push"]));
    assert_eq!(args(&GitCommand::ShowCurrentBranch), strings(&["branch", "--show-current"]));
    assert_eq!(args(&GitCommand::Status), strings(&["status", "--porcelain"]));
    assert_eq!(args(&GitCommand::LastCommitMessage), strings(&["log", "-1", "--pretty=%B"]));
    assert_eq!(
        git.create_pr("b", "Title", "Body text"),
        strings(&["pr", "create", "--head", "b", "--title", "Title", "--body", "Body text"])
    );
}

#[test]
fn create_branch_makes_a_missing_branch_and_checks_out_a_known_one() {
    let git = GitOperations::new("/p".to_string());
    assert_eq!(args(&git.create_branch("ralph/x", "")), strings(&["checkout", "-b", "ralph/x"]));
    assert_eq!(args(&git.create_branch("ralph/x", "  \n")), strings(&["checkout", "-b", "ralph/x"]));
    assert_eq!(args(&git.create_branch("ralph/x", "  ralph/x\n")), strings(&["checkout", "ralph/x"]));
}

#[test]
fn branch_listing_is_read_line_by_line() {
    let git = GitOperations::new("/p".to_string());
    let branches = git.list_branches("* main\n  feature/foo\n\n  \n*\n  spaced name  \r\n** odd\n");
    assert_eq!(
        branches,
        vec![
            Branch { name: "main".to_string(), is_current: true, is_remote: false },
            Branch { name: "feature/foo".to_string(), is_current: false, is_remote: false },
            Branch { name: "spaced name".to_string(), is_current: false, is_remote: false },
            Branch { name: "odd".to_string(), is_current: true, is_remote: false },
        ]
    );
    assert!(git.list_branches("").is_empty());
}

#[test]
fn remote_listing_skips_symbolic_names() {
    let git = GitOperations::new("/p".to_string());
    assert_eq!(
        git.list_remote_branches("  origin/HEAD -> origin/main\n  origin/main\n\n  origin/feature/foo\n"),
        strings(&["origin/main", "origin/feature/foo"])
    );
}

#[test]
fn outputs_are_trimmed_and_judged() {
    let git = GitOperations::new("/p".to_string());
    assert_eq!(git.get_current_branch("main\n"), "main");
    assert_eq!(git.get_last_commit_message("  fix: a\n\nbody\n\n"), "fix: a\n\nbody");
    assert_eq!(git.pull_request_url("https://example.test/pr/1\n"), "https://example.test/pr/1");
    assert!(git.has_changes(" M src/lib.rs\n"));
    assert!(!git.has_changes(""));
    assert!(!git.has_changes("\n"));
}

#[test]
fn git_errors_have_their_texts() {
    assert_eq!(
        GitOperations::launch_failure("No such file or directory"),
        RalphError::Git("Failed to run git command: No such file or directory".to_string())
    );
    assert_eq!(
        GitOperations::command_failure("checkout", "error: pathspec"),
        RalphError::Git("git checkout failed: error: pathspec".to_string())
    );
    assert_eq!(
        GitOperations::pull_request_launch_failure("gh missing"),
        RalphError::Git("Failed to create PR: gh missing".to_string())
    );
    assert_eq!(
        GitOperations::pull_request_failure("no commits"),
        RalphError::Git("gh pr create failed: no commits".to_string())
    );
}

#[test]
fn ralph_directory_gets_three_files() {
    let git = GitOperations::new("/p".to_string());
    assert_eq!(
        git.init_ralph_directory(),
        vec![
            ("progress.md".to_string(), "# Ralph Progress Log\n\n".to_string()),
            ("guardrails.md".to_string(), "# Ralph Guardrails (Signs)\n\n".to_string()),
            ("activity.log".to_string(), String::new()),
        ]
    );
}
