use crate::text::{
    begins_with, char_views, chars_are_blank, chars_of, contains_text, holds_text, is_blank,
    lines_of, split_lines, starts_with, string_of, strip_start, stripped_start, trim, trim_end,
    trim_start, trimmed, trimmed_end, trimmed_start,
};
use crate::types::{optional_text, text_views, ErrorView, RalphError};
use vstd::prelude::*;
use vstd::string::StringExecFns;

verus! {

/// One branch of a repository.
#[derive(Debug, PartialEq, Eq)]
pub struct Branch {
    pub name: String,
    pub is_current: bool,
    pub is_remote: bool,
}

/// A branch with its name as a character sequence.
pub struct BranchView {
    pub name: Seq<char>,
    pub is_current: bool,
    pub is_remote: bool,
}

impl View for Branch {
    type V = BranchView;

    open spec fn view(&self) -> BranchView {
        BranchView { name: self.name@, is_current: self.is_current, is_remote: self.is_remote }
    }
}

impl Clone for Branch {
    fn clone(&self) -> (copy: Branch)
        ensures
            copy == *self,
    {
        Branch { name: self.name.clone(), is_current: self.is_current, is_remote: self.is_remote }
    }
}

/// The views of a list of branches.
pub open spec fn branch_views(branches: Seq<Branch>) -> Seq<BranchView> {
    Seq::new(branches.len(), |i: int| branches[i]@)
}

/// What git is asked to do.
#[derive(Debug, PartialEq, Eq)]
pub enum GitCommand {
    Fetch,
    ListBranches,
    ListRemoteBranches,
    Checkout(String),
    Merge(String),
    StageAll,
    Commit(String),
    FindBranch(String),
    CreateBranch(String),
    Push(Option<String>),
    ShowCurrentBranch,
    Status,
    LastCommitMessage,
}

/// A git command with its texts as character sequences.
pub enum CommandView {
    Fetch,
    ListBranches,
    ListRemoteBranches,
    Checkout(Seq<char>),
    Merge(Seq<char>),
    StageAll,
    Commit(Seq<char>),
    FindBranch(Seq<char>),
    CreateBranch(Seq<char>),
    Push(Option<Seq<char>>),
    ShowCurrentBranch,
    Status,
    LastCommitMessage,
}

impl View for GitCommand {
    type V = CommandView;

    open spec fn view(&self) -> CommandView {
        match *self {
            GitCommand::Fetch => CommandView::Fetch,
            GitCommand::ListBranches => CommandView::ListBranches,
            GitCommand::ListRemoteBranches => CommandView::ListRemoteBranches,
            GitCommand::Checkout(branch) => CommandView::Checkout(branch@),
            GitCommand::Merge(branch) => CommandView::Merge(branch@),
            GitCommand::StageAll => CommandView::StageAll,
            GitCommand::Commit(message) => CommandView::Commit(message@),
            GitCommand::FindBranch(branch) => CommandView::FindBranch(branch@),
            GitCommand::CreateBranch(branch) => CommandView::CreateBranch(branch@),
            GitCommand::Push(branch) => CommandView::Push(optional_text(branch)),
            GitCommand::ShowCurrentBranch => CommandView::ShowCurrentBranch,
            GitCommand::Status => CommandView::Status,
            GitCommand::LastCommitMessage => CommandView::LastCommitMessage,
        }
    }
}

/// The arguments that git is started with for a command.
pub open spec fn git_arguments(command: CommandView) -> Seq<Seq<char>> {
    match command {
        CommandView::Fetch => seq!["fetch"@, "--all"@, "--prune"@],
        CommandView::ListBranches => seq!["branch"@],
        CommandView::ListRemoteBranches => seq!["branch"@, "-r"@],
        CommandView::Checkout(branch) => seq!["checkout"@, branch],
        CommandView::Merge(branch) => seq!["merge"@, branch],
        CommandView::StageAll => seq!["add"@, "-A"@],
        CommandView::Commit(message) => seq!["commit"@, "-m"@, message],
        CommandView::FindBranch(branch) => seq!["branch"@, "--list"@, branch],
        CommandView::CreateBranch(branch) => seq!["checkout"@, "-b"@, branch],
        CommandView::Push(Some(branch)) => seq!["push"@, "-u"@, "origin"@, branch],
        CommandView::Push(None) => seq!["push"@],
        CommandView::ShowCurrentBranch => seq!["branch"@, "--show-current"@],
        CommandView::Status => seq!["status"@, "--porcelain"@],
        CommandView::LastCommitMessage => seq!["log"@, "-1"@, "--pretty=%B"@],
    }
}

/// The arguments that `gh` is started with to open a pull request.
pub open spec fn pull_request_arguments(branch: Seq<char>, title: Seq<char>, body: Seq<char>)
    -> Seq<Seq<char>> {
    seq!["pr"@, "create"@, "--head"@, branch, "--title"@, title, "--body"@, body]
}

fn arguments_of(parts: Vec<&str>) -> (arguments: Vec<String>)
    ensures
        arguments@.len() == parts@.len(),
        forall|i: int| 0 <= i < parts@.len() ==> (#[trigger] arguments@[i])@ == parts@[i]@,
{
    let mut arguments: Vec<String> = Vec::new();
    let mut i: usize = 0;
    while i < parts.len()
        invariant
            i <= parts.len(),
            arguments@.len() == i,
            forall|j: int| 0 <= j < i ==> (#[trigger] arguments@[j])@ == parts@[j]@,
        decreases parts.len() - i,
    {
        arguments.push(String::from_str(parts[i]));
        i += 1;
    }
    arguments
}

impl GitCommand {
    /// The arguments that git is started with for this command.
    pub fn arguments(&self) -> (arguments: Vec<String>)
        ensures
            text_views(arguments@) == git_arguments(self@),
    {
        let parts: Vec<&str> = match self {
            GitCommand::Fetch => vec!["fetch", "--all", "--prune"],
            GitCommand::ListBranches => vec!["branch"],
            GitCommand::ListRemoteBranches => vec!["branch", "-r"],
            GitCommand::Checkout(branch) => vec!["checkout", branch.as_str()],
            GitCommand::Merge(branch) => vec!["merge", branch.as_str()],
            GitCommand::StageAll => vec!["add", "-A"],
            GitCommand::Commit(message) => vec!["commit", "-m", message.as_str()],
            GitCommand::FindBranch(branch) => vec!["branch", "--list", branch.as_str()],
            GitCommand::CreateBranch(branch) => vec!["checkout", "-b", branch.as_str()],
            GitCommand::Push(Some(branch)) => vec!["push", "-u", "origin", branch.as_str()],
            GitCommand::Push(None) => vec!["push"],
            GitCommand::ShowCurrentBranch => vec!["branch", "--show-current"],
            GitCommand::Status => vec!["status", "--porcelain"],
            GitCommand::LastCommitMessage => vec!["log", "-1", "--pretty=%B"],
        };
        let arguments = arguments_of(parts);
        assert(text_views(arguments@) =~= git_arguments(self@));
        arguments
    }
}

/// The branch that a line of a branch listing names, if it names one. The
/// branch that is checked out is marked with a star before its name.
pub open spec fn branch_of_line(line: Seq<char>) -> Option<BranchView> {
    let listed = trim_end(line);
    let name = trim_start(strip_start(listed, "*"@));
    if listed.len() == 0 || name.len() == 0 {
        None
    } else {
        Some(BranchView { name, is_current: starts_with(listed, "*"@), is_remote: false })
    }
}

/// The branches that the first `n` lines of a branch listing name.
pub open spec fn branches_in(lines: Seq<Seq<char>>, n: int) -> Seq<BranchView>
    decreases n,
{
    if n <= 0 {
        Seq::empty()
    } else {
        match branch_of_line(lines[n - 1]) {
            Some(branch) => branches_in(lines, n - 1).push(branch),
            None => branches_in(lines, n - 1),
        }
    }
}

/// The branches that a branch listing names.
pub open spec fn listed_branches(output: Seq<char>) -> Seq<BranchView> {
    branches_in(lines_of(output), lines_of(output).len() as int)
}

/// The remote branch that a line of a listing names, if it names one. A
/// line with an arrow says where a symbolic name points and names none.
pub open spec fn remote_of_line(line: Seq<char>) -> Option<Seq<char>> {
    let listed = trim(line);
    if listed.len() == 0 || contains_text(listed, "->"@) {
        None
    } else {
        Some(listed)
    }
}

/// The remote branches that the first `n` lines of a listing name.
pub open spec fn remotes_in(lines: Seq<Seq<char>>, n: int) -> Seq<Seq<char>>
    decreases n,
{
    if n <= 0 {
        Seq::empty()
    } else {
        match remote_of_line(lines[n - 1]) {
            Some(branch) => remotes_in(lines, n - 1).push(branch),
            None => remotes_in(lines, n - 1),
        }
    }
}

/// The remote branches that a listing names.
pub open spec fn listed_remotes(output: Seq<char>) -> Seq<Seq<char>> {
    remotes_in(lines_of(output), lines_of(output).len() as int)
}

/// The error for a git command that ran and failed.
pub open spec fn command_failure_text(subcommand: Seq<char>, stderr: Seq<char>) -> Seq<char> {
    "git "@ + subcommand + " failed: "@ + stderr
}

/// The files that a project's `.ralph` directory is given where they are
/// missing, each with the text it begins with.
pub open spec fn ralph_files() -> Seq<(Seq<char>, Seq<char>)> {
    seq![
        ("progress.md"@, "# Ralph Progress Log\n\n"@),
        ("guardrails.md"@, "# Ralph Guardrails (Signs)\n\n"@),
        ("activity.log"@, ""@),
    ]
}

/// Git work on one project directory: which commands to run, and what their
/// output says.
#[derive(Debug, PartialEq, Eq)]
pub struct GitOperations {
    project_path: String,
}

impl GitOperations {
    /// The directory that git is run in.
    pub closed spec fn spec_project_path(&self) -> Seq<char> {
        self.project_path@
    }

    pub fn new(project_path: String) -> (git: GitOperations)
        ensures
            git.spec_project_path() == project_path@,
    {
        GitOperations { project_path }
    }

    /// The directory that git is run in.
    pub fn project_path(&self) -> (path: &str)
        ensures
            path@ == self.spec_project_path(),
    {
        self.project_path.as_str()
    }

    /// The command that brings all remotes up to date.
    pub fn fetch(&self) -> (command: GitCommand)
        ensures
            command@ == CommandView::Fetch,
    {
        GitCommand::Fetch
    }

    /// The command that checks a branch out.
    pub fn checkout(&self, branch: &str) -> (command: GitCommand)
        ensures
            command@ == CommandView::Checkout(branch@),
    {
        GitCommand::Checkout(String::from_str(branch))
    }

    /// The command that merges a branch into the one checked out.
    pub fn merge(&self, source_branch: &str) -> (command: GitCommand)
        ensures
            command@ == CommandView::Merge(source_branch@),
    {
        GitCommand::Merge(String::from_str(source_branch))
    }

    /// The commands that commit all changes: stage everything, then commit
    /// with the message.
    pub fn commit(&self, message: &str) -> (commands: (GitCommand, GitCommand))
        ensures
            commands.0@ == CommandView::StageAll,
            commands.1@ == CommandView::Commit(message@),
    {
        (GitCommand::StageAll, GitCommand::Commit(String::from_str(message)))
    }

    /// The command that gets onto a branch, given what the listing of that
    /// branch printed: the branch is made where the listing is blank, and
    /// checked out where it is not.
    pub fn create_branch(&self, branch_name: &str, listing: &str) -> (command: GitCommand)
        ensures
            command@ == if is_blank(listing@) {
                CommandView::CreateBranch(branch_name@)
            } else {
                CommandView::Checkout(branch_name@)
            },
    {
        let chars = chars_of(listing);
        if chars_are_blank(&chars) {
            GitCommand::CreateBranch(String::from_str(branch_name))
        } else {
            GitCommand::Checkout(String::from_str(branch_name))
        }
    }

    /// The command that pushes: the named branch to `origin`, which it then
    /// follows, or whatever git pushes unasked.
    pub fn push(&self, branch: Option<&str>) -> (command: GitCommand)
        ensures
            command@ == CommandView::Push(
                match branch {
                    Some(branch) => Some(branch@),
                    None => None,
                },
            ),
    {
        match branch {
            Some(branch) => GitCommand::Push(Some(String::from_str(branch))),
            None => GitCommand::Push(None),
        }
    }

    /// The arguments that `gh` is started with to open a pull request.
    pub fn create_pr(&self, branch: &str, title: &str, body: &str) -> (arguments: Vec<String>)
        ensures
            text_views(arguments@) == pull_request_arguments(branch@, title@, body@),
    {
        let arguments = arguments_of(
            vec!["pr", "create", "--head", branch, "--title", title, "--body", body],
        );
        assert(text_views(arguments@) =~= pull_request_arguments(branch@, title@, body@));
        arguments
    }

    /// The local branches that a branch listing names, in its order.
    pub fn list_branches(&self, output: &str) -> (branches: Vec<Branch>)
        ensures
            branch_views(branches@) == listed_branches(output@),
    {
        let chars = chars_of(output);
        let lines = split_lines(&chars);
        let star = chars_of("*");
        let ghost texts = lines_of(output@);
        let mut branches: Vec<Branch> = Vec::new();
        let mut n: usize = 0;
        assert(branch_views(branches@) =~= branches_in(texts, 0));
        while n < lines.len()
            invariant
                n <= lines.len(),
                char_views(lines@) == texts,
                star@ == "*"@,
                branch_views(branches@) == branches_in(texts, n as int),
            decreases lines.len() - n,
        {
            assert(texts[n as int] == lines@[n as int]@);
            let listed = trimmed_end(&lines[n]);
            let ghost before = branch_views(branches@);
            if listed.len() > 0 {
                let is_current = begins_with(&listed, &star);
                let unmarked = stripped_start(&listed, &star);
                let name = trimmed_start(&unmarked);
                if name.len() > 0 {
                    let branch = Branch { name: string_of(&name), is_current, is_remote: false };
                    branches.push(branch);
                    assert(branch_views(branches@) =~= before.push(branch@));
                }
            }
            n += 1;
        }
        branches
    }

    /// The remote branches that a listing names, in its order.
    pub fn list_remote_branches(&self, output: &str) -> (branches: Vec<String>)
        ensures
            text_views(branches@) == listed_remotes(output@),
    {
        let chars = chars_of(output);
        let lines = split_lines(&chars);
        let arrow = chars_of("->");
        let ghost texts = lines_of(output@);
        let mut branches: Vec<String> = Vec::new();
        let mut n: usize = 0;
        assert(text_views(branches@) =~= remotes_in(texts, 0));
        while n < lines.len()
            invariant
                n <= lines.len(),
                char_views(lines@) == texts,
                arrow@ == "->"@,
                text_views(branches@) == remotes_in(texts, n as int),
            decreases lines.len() - n,
        {
            assert(texts[n as int] == lines@[n as int]@);
            let listed = trimmed(&lines[n]);
            let ghost before = text_views(branches@);
            if listed.len() > 0 && !holds_text(&listed, &arrow) {
                let branch = string_of(&listed);
                branches.push(branch);
                assert(text_views(branches@) =~= before.push(branch@));
            }
            n += 1;
        }
        branches
    }

    /// The name of the branch that is checked out, from what git printed.
    pub fn get_current_branch(&self, output: &str) -> (branch: String)
        ensures
            branch@ == trim(output@),
    {
        let chars = chars_of(output);
        string_of(&trimmed(&chars))
    }

    /// Whether anything has changed, from what git printed as the status.
    pub fn has_changes(&self, output: &str) -> (changed: bool)
        ensures
            changed == !is_blank(output@),
    {
        let chars = chars_of(output);
        !chars_are_blank(&chars)
    }

    /// The message of the last commit, from what git printed.
    pub fn get_last_commit_message(&self, output: &str) -> (message: String)
        ensures
            message@ == trim(output@),
    {
        let chars = chars_of(output);
        string_of(&trimmed(&chars))
    }

    /// The address of a pull request, from what `gh` printed.
    pub fn pull_request_url(&self, output: &str) -> (url: String)
        ensures
            url@ == trim(output@),
    {
        let chars = chars_of(output);
        string_of(&trimmed(&chars))
    }

    /// The error for a git command that could not be started.
    pub fn launch_failure(detail: &str) -> (error: RalphError)
        ensures
            error@ == ErrorView::Git("Failed to run git command: "@ + detail@),
    {
        let mut text = String::from_str("Failed to run git command: ");
        text.append(detail);
        RalphError::Git(text)
    }

    /// The error for a git command that ran and failed, from its first
    /// argument and what it printed as its error.
    pub fn command_failure(subcommand: &str, stderr: &str) -> (error: RalphError)
        ensures
            error@ == ErrorView::Git(command_failure_text(subcommand@, stderr@)),
    {
        let mut text = String::from_str("git ");
        text.append(subcommand);
        text.append(" failed: ");
        text.append(stderr);
        RalphError::Git(text)
    }

    /// The error for a pull request that `gh` could not be started for.
    pub fn pull_request_launch_failure(detail: &str) -> (error: RalphError)
        ensures
            error@ == ErrorView::Git("Failed to create PR: "@ + detail@),
    {
        let mut text = String::from_str("Failed to create PR: ");
        text.append(detail);
        RalphError::Git(text)
    }

    /// The error for a pull request that `gh` refused.
    pub fn pull_request_failure(stderr: &str) -> (error: RalphError)
        ensures
            error@ == ErrorView::Git("gh pr create failed: "@ + stderr@),
    {
        let mut text = String::from_str("gh pr create failed: ");
        text.append(stderr);
        RalphError::Git(text)
    }

    /// The files that the project's `.ralph` directory is given where they
    /// are missing, each with the text it begins with.
    pub fn init_ralph_directory(&self) -> (files: Vec<(String, String)>)
        ensures
            files@.len() == ralph_files().len(),
            forall|i: int|
                0 <= i < files@.len() ==> (#[trigger] files@[i]).0@ == ralph_files()[i].0
                    && files@[i].1@ == ralph_files()[i].1,
    {
        let mut files: Vec<(String, String)> = Vec::new();
        files.push((String::from_str("progress.md"), String::from_str("# Ralph Progress Log\n\n")));
        files.push(
            (String::from_str("guardrails.md"), String::from_str("# Ralph Guardrails (Signs)\n\n")),
        );
        files.push((String::from_str("activity.log"), String::from_str("")));
        files
    }
}

} // verus!
