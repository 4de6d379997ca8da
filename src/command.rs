//! The version-control commands the pipeline issues, and how their outcome is read.
use vstd::prelude::*;

verus! {

/// A version-control command, run in the working copy (a clone, in its parent).
pub enum GitCommand {
    /// Clones `url` into `path`.
    Clone { url: String, path: String },
    /// Prints the name of the branch checked out.
    ShowCurrentBranch,
    /// Discards every local modification.
    ResetHard,
    /// Checks out an existing branch.
    Checkout(String),
    /// Updates the branch checked out, rebasing local commits.
    PullRebase,
    /// Creates a branch at the commit checked out, and checks it out.
    CreateBranch(String),
    /// Prints the message of the latest commit.
    LastCommitMessage,
    /// Commits every modified tracked file with a message.
    CommitAll(String),
    /// Force-pushes a branch to `origin`, setting it as upstream.
    ForcePush(String),
}

/// The argument vector of a command, without the program name.
pub open spec fn command_args(c: GitCommand) -> Seq<Seq<char>> {
    match c {
        GitCommand::Clone { url, path } => seq!["clone"@, url@, path@],
        GitCommand::ShowCurrentBranch => seq!["branch"@, "--show-current"@],
        GitCommand::ResetHard => seq!["reset"@, "--hard"@],
        GitCommand::Checkout(b) => seq!["checkout"@, b@],
        GitCommand::PullRebase => seq!["pull"@, "-r"@],
        GitCommand::CreateBranch(b) => seq!["checkout"@, "-b"@, b@],
        GitCommand::LastCommitMessage => seq!["log"@, "--format=%B"@, "-n"@, "1"@],
        GitCommand::CommitAll(m) => seq!["commit"@, "-a"@, "-m"@, m@],
        GitCommand::ForcePush(b) => seq!["push"@, "-u"@, "-f"@, "origin"@, b@],
    }
}

/// The views of a list of strings.
pub open spec fn views(v: Seq<String>) -> Seq<Seq<char>> {
    v.map_values(|s: String| s@)
}

fn strings(parts: &[&str]) -> (r: Vec<String>)
    ensures
        r@.len() == parts@.len(),
        forall|i: int| 0 <= i < parts@.len() ==> #[trigger] r@[i]@ == parts@[i]@,
{
    let mut out: Vec<String> = Vec::new();
    let mut i: usize = 0;
    while i < parts.len()
        invariant
            i <= parts@.len(),
            out@.len() == i,
            forall|k: int| 0 <= k < i ==> #[trigger] out@[k]@ == parts@[k]@,
        decreases parts@.len() - i,
    {
        out.push(parts[i].to_owned());
        i = i + 1;
    }
    out
}

impl GitCommand {
    pub fn args(&self) -> (r: Vec<String>)
        ensures
            views(r@) == command_args(*self),
    {
        let r = match self {
            GitCommand::Clone { url, path } => strings(&["clone", url.as_str(), path.as_str()]),
            GitCommand::ShowCurrentBranch => strings(&["branch", "--show-current"]),
            GitCommand::ResetHard => strings(&["reset", "--hard"]),
            GitCommand::Checkout(b) => strings(&["checkout", b.as_str()]),
            GitCommand::PullRebase => strings(&["pull", "-r"]),
            GitCommand::CreateBranch(b) => strings(&["checkout", "-b", b.as_str()]),
            GitCommand::LastCommitMessage => strings(&["log", "--format=%B", "-n", "1"]),
            GitCommand::CommitAll(m) => strings(&["commit", "-a", "-m", m.as_str()]),
            GitCommand::ForcePush(b) => strings(&["push", "-u", "-f", "origin", b.as_str()]),
        };
        assert(views(r@) =~= command_args(*self));
        r
    }
}

/// A command that exited unsuccessfully, with what it printed.
pub struct GitFailure {
    pub args: Vec<String>,
    pub exit_code: Option<i32>,
    pub stdout: String,
    pub stderr: String,
}

/// What `String::from_utf8_lossy` makes of `b`.
pub uninterp spec fn lossy_text(b: Seq<u8>) -> Seq<char>;

/// Relies on `String::from_utf8_lossy`: the text depends on the bytes alone.
#[verifier::external_body]
fn decode_lossy(b: &[u8]) -> (r: String)
    ensures
        r@ == lossy_text(b@),
{
    String::from_utf8_lossy(b).into_owned()
}

/// Reads the outcome of `command`: its standard output when it succeeded,
/// else a failure carrying the arguments, the exit code and both streams.
pub fn check_output(
    command: &GitCommand,
    success: bool,
    exit_code: Option<i32>,
    stdout: &[u8],
    stderr: &[u8],
) -> (r: Result<String, GitFailure>)
    ensures
        success ==> r is Ok && r->Ok_0@ == lossy_text(stdout@),
        !success ==> r is Err && views(r->Err_0.args@) == command_args(*command)
            && r->Err_0.exit_code == exit_code && r->Err_0.stdout@ == lossy_text(stdout@)
            && r->Err_0.stderr@ == lossy_text(stderr@),
{
    let out = decode_lossy(stdout);
    if success {
        return Ok(out);
    }
    Err(GitFailure { args: command.args(), exit_code, stdout: out, stderr: decode_lossy(stderr) })
}

/// What `str::trim` makes of `s`.
pub uninterp spec fn trimmed(s: Seq<char>) -> Seq<char>;

/// Relies on `str::trim`: the result depends on the text alone.
#[verifier::external_body]
pub(crate) fn trim(s: &str) -> (r: String)
    ensures
        r@ == trimmed(s@),
{
    s.trim().to_owned()
}

/// Whether the first line of `log` is exactly `message`: `log` starts with
/// `message` followed by a line break.
pub open spec fn starts_with_line(log: Seq<char>, message: Seq<char>) -> bool {
    log.len() > message.len() && log.subrange(0, message.len() as int) == message
        && log[message.len() as int] == '\n'
}

pub fn first_line_is(log: &str, message: &str) -> (r: bool)
    ensures
        r == starts_with_line(log@, message@),
{
    let n = message.unicode_len();
    let m = log.unicode_len();
    if m <= n {
        return false;
    }
    let mut i: usize = 0;
    while i < n
        invariant
            n == message@.len(),
            m == log@.len(),
            n < m,
            i <= n,
            forall|k: int| 0 <= k < i ==> log@[k] == message@[k],
        decreases n - i,
    {
        if log.get_char(i) != message.get_char(i) {
            assert(log@.subrange(0, n as int)[i as int] != message@[i as int]);
            return false;
        }
        i = i + 1;
    }
    assert(log@.subrange(0, n as int) =~= message@);
    log.get_char(n) == '\n'
}

} // verus!
