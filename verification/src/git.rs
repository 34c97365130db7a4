//! Git: what an inspection of a repository reports, the commands that
//! change one, and how a failed clone is classified.
//!
//! Reading a repository and running a command are the caller's part. The
//! functions here take what was read and give what is reported, or give
//! the command to run.

use vstd::prelude::*;
use crate::text::{
    chars_of, clone_opt, concat, contains_text, ends_with, ends_with_at, holds_char, holds_text,
    or_empty, prefix, same_text, take_prefix, text_or_empty, trim, trimmed,
};

verus! {

/// Why a git operation failed.
#[derive(Clone, Debug, PartialEq, Eq)]
pub enum GitError {
    NotARepo(String),
    OperationFailed(String),
    CommandFailed(String),
    InvalidBranch(String),
}

/// A `GitError` with its text as a sequence.
pub enum GitErrorView {
    NotARepo(Seq<char>),
    OperationFailed(Seq<char>),
    CommandFailed(Seq<char>),
    InvalidBranch(Seq<char>),
}

impl View for GitError {
    type V = GitErrorView;

    open spec fn view(&self) -> GitErrorView {
        match *self {
            GitError::NotARepo(m) => GitErrorView::NotARepo(m@),
            GitError::OperationFailed(m) => GitErrorView::OperationFailed(m@),
            GitError::CommandFailed(m) => GitErrorView::CommandFailed(m@),
            GitError::InvalidBranch(m) => GitErrorView::InvalidBranch(m@),
        }
    }
}

/// The message of a git error.
pub open spec fn git_error_text(e: GitErrorView) -> Seq<char> {
    match e {
        GitErrorView::NotARepo(m) => "Not a git repository: "@ + m,
        GitErrorView::OperationFailed(m) => "Git operation failed: "@ + m,
        GitErrorView::CommandFailed(m) => "Git command failed: "@ + m,
        GitErrorView::InvalidBranch(m) => "Invalid branch name: "@ + m,
    }
}

impl GitError {
    /// The message of the error.
    pub fn to_string(&self) -> (s: String)
        ensures
            s@ == git_error_text(self@),
    {
        match self {
            GitError::NotARepo(m) => concat("Not a git repository: ", m.as_str()),
            GitError::OperationFailed(m) => concat("Git operation failed: ", m.as_str()),
            GitError::CommandFailed(m) => concat("Git command failed: ", m.as_str()),
            GitError::InvalidBranch(m) => concat("Invalid branch name: ", m.as_str()),
        }
    }
}

/// Why a clone failed, with the steps that mend it where there are any.
#[derive(Clone, Debug, PartialEq, Eq)]
pub enum CloneError {
    SshAuthFailed { message: String, help_steps: Vec<String> },
    HttpsAuthFailed { message: String, help_steps: Vec<String> },
    NetworkError { message: String },
    OperationFailed { message: String },
}

/// A `CloneError` with its texts as sequences.
pub enum CloneErrorView {
    SshAuthFailed { message: Seq<char>, help_steps: Seq<Seq<char>> },
    HttpsAuthFailed { message: Seq<char>, help_steps: Seq<Seq<char>> },
    NetworkError { message: Seq<char> },
    OperationFailed { message: Seq<char> },
}

impl View for CloneError {
    type V = CloneErrorView;

    open spec fn view(&self) -> CloneErrorView {
        match *self {
            CloneError::SshAuthFailed { message, help_steps } => CloneErrorView::SshAuthFailed {
                message: message@,
                help_steps: help_steps.deep_view(),
            },
            CloneError::HttpsAuthFailed { message, help_steps } => CloneErrorView::HttpsAuthFailed {
                message: message@,
                help_steps: help_steps.deep_view(),
            },
            CloneError::NetworkError { message } => CloneErrorView::NetworkError {
                message: message@,
            },
            CloneError::OperationFailed { message } => CloneErrorView::OperationFailed {
                message: message@,
            },
        }
    }
}

/// The message of a clone error.
pub open spec fn clone_error_text(e: CloneErrorView) -> Seq<char> {
    match e {
        CloneErrorView::SshAuthFailed { message, help_steps } => "SSH authentication failed: "@
            + message,
        CloneErrorView::HttpsAuthFailed { message, help_steps } => "HTTPS authentication failed: "@
            + message,
        CloneErrorView::NetworkError { message } => "Network error: "@ + message,
        CloneErrorView::OperationFailed { message } => "Clone operation failed: "@ + message,
    }
}

impl CloneError {
    /// The message of the error.
    pub fn to_string(&self) -> (s: String)
        ensures
            s@ == clone_error_text(self@),
    {
        match self {
            CloneError::SshAuthFailed { message, help_steps } => concat(
                "SSH authentication failed: ",
                message.as_str(),
            ),
            CloneError::HttpsAuthFailed { message, help_steps } => concat(
                "HTTPS authentication failed: ",
                message.as_str(),
            ),
            CloneError::NetworkError { message } => concat("Network error: ", message.as_str()),
            CloneError::OperationFailed { message } => concat(
                "Clone operation failed: ",
                message.as_str(),
            ),
        }
    }
}

/// The subsystem that a failure of the git library is attributed to.
#[derive(Clone, Copy, Debug, PartialEq, Eq, Structural)]
pub enum ErrorClass {
    Uncategorized,
    NoMemory,
    Os,
    Invalid,
    Reference,
    Zlib,
    Repository,
    Config,
    Regex,
    Odb,
    Index,
    Object,
    Net,
    Tag,
    Tree,
    Indexer,
    Ssl,
    Submodule,
    Thread,
    Stash,
    Checkout,
    FetchHead,
    Merge,
    Ssh,
    Filter,
    Revert,
    Callback,
    CherryPick,
    Describe,
    Rebase,
    Filesystem,
    Patch,
    Worktree,
    Sha1,
    Http,
}

/// A failure of the git library: its class and its message.
#[derive(Clone, Debug, PartialEq, Eq)]
pub struct GitFailure {
    pub class: ErrorClass,
    pub message: String,
}

/// What to try when SSH authentication fails.
pub open spec fn ssh_help_steps() -> Seq<Seq<char>> {
    seq![
        "Ensure your SSH key is added to ssh-agent: ssh-add ~/.ssh/id_ed25519"@,
        "Verify your key is added to GitHub: ssh -T git@github.com"@,
        "If using a passphrase, the ssh-agent must have the key unlocked"@,
    ]
}

/// What to try when HTTPS authentication fails.
pub open spec fn https_help_steps() -> Seq<Seq<char>> {
    seq![
        "HTTPS cloning requires a Personal Access Token (PAT)"@,
        "Create a PAT at GitHub Settings > Developer Settings > Tokens"@,
        "Use the PAT as password when prompted, or configure git credential helper"@,
    ]
}

/// The clone error for a failure of the given class: the two
/// authentication classes carry their steps, a network failure and
/// everything else carry none.
pub open spec fn classified(class: ErrorClass, message: Seq<char>) -> CloneErrorView {
    match class {
        ErrorClass::Ssh => CloneErrorView::SshAuthFailed { message, help_steps: ssh_help_steps() },
        ErrorClass::Http => CloneErrorView::HttpsAuthFailed {
            message,
            help_steps: https_help_steps(),
        },
        ErrorClass::Net => CloneErrorView::NetworkError { message },
        _ => CloneErrorView::OperationFailed { message },
    }
}

/// Classifies a failed clone by the class of the library's error.
pub fn classify_clone_error(err: GitFailure) -> (e: CloneError)
    ensures
        e@ == classified(err.class, err.message@),
{
    match err.class {
        ErrorClass::Ssh => {
            let mut help_steps: Vec<String> = Vec::new();
            help_steps.push(
                String::from_str(
                    "Ensure your SSH key is added to ssh-agent: ssh-add ~/.ssh/id_ed25519",
                ),
            );
            help_steps.push(
                String::from_str("Verify your key is added to GitHub: ssh -T git@github.com"),
            );
            help_steps.push(
                String::from_str("If using a passphrase, the ssh-agent must have the key unlocked"),
            );
            assert(help_steps.deep_view() =~= ssh_help_steps());
            CloneError::SshAuthFailed { message: err.message, help_steps }
        },
        ErrorClass::Http => {
            let mut help_steps: Vec<String> = Vec::new();
            help_steps.push(String::from_str("HTTPS cloning requires a Personal Access Token (PAT)"));
            help_steps.push(
                String::from_str("Create a PAT at GitHub Settings > Developer Settings > Tokens"),
            );
            help_steps.push(
                String::from_str(
                    "Use the PAT as password when prompted, or configure git credential helper",
                ),
            );
            assert(help_steps.deep_view() =~= https_help_steps());
            CloneError::HttpsAuthFailed { message: err.message, help_steps }
        },
        ErrorClass::Net => CloneError::NetworkError { message: err.message },
        _ => CloneError::OperationFailed { message: err.message },
    }
}

/// How a file differs.
#[derive(Clone, Copy, Debug, PartialEq, Eq, Structural)]
pub enum FileStatusType {
    Added,
    Modified,
    Deleted,
    Renamed,
    Copied,
    Untracked,
}

/// The status of one file.
#[derive(Clone, Debug, PartialEq, Eq)]
pub struct FileStatus {
    pub path: String,
    pub status: FileStatusType,
    /// For a renamed file, the path it had before.
    pub old_path: Option<String>,
}

/// A `FileStatus` with its texts as sequences.
pub struct FileStatusView {
    pub path: Seq<char>,
    pub status: FileStatusType,
    pub old_path: Option<Seq<char>>,
}

impl DeepView for FileStatus {
    type V = FileStatusView;

    open spec fn deep_view(&self) -> FileStatusView {
        FileStatusView {
            path: self.path@,
            status: self.status,
            old_path: self.old_path.deep_view(),
        }
    }
}

/// The status of a repository's working tree.
#[derive(Clone, Debug, PartialEq, Eq)]
pub struct GitStatus {
    pub branch: String,
    pub ahead: usize,
    pub behind: usize,
    pub staged: Vec<FileStatus>,
    pub unstaged: Vec<FileStatus>,
    pub untracked: Vec<String>,
}

/// One entry of the log.
#[derive(Clone, Debug, PartialEq, Eq)]
pub struct Commit {
    pub id: String,
    pub short_id: String,
    pub message: String,
    pub author: String,
    pub email: String,
    pub timestamp: String,
}

/// A `Commit` with its texts as sequences.
pub struct CommitView {
    pub id: Seq<char>,
    pub short_id: Seq<char>,
    pub message: Seq<char>,
    pub author: Seq<char>,
    pub email: Seq<char>,
    pub timestamp: Seq<char>,
}

impl DeepView for Commit {
    type V = CommitView;

    open spec fn deep_view(&self) -> CommitView {
        CommitView {
            id: self.id@,
            short_id: self.short_id@,
            message: self.message@,
            author: self.author@,
            email: self.email@,
            timestamp: self.timestamp@,
        }
    }
}

/// A branch of a repository.
#[derive(Clone, Debug, PartialEq, Eq)]
pub struct Branch {
    pub name: String,
    pub is_current: bool,
    pub is_remote: bool,
    pub upstream: Option<String>,
}

/// A `Branch` with its texts as sequences.
pub struct BranchView {
    pub name: Seq<char>,
    pub is_current: bool,
    pub is_remote: bool,
    pub upstream: Option<Seq<char>>,
}

impl DeepView for Branch {
    type V = BranchView;

    open spec fn deep_view(&self) -> BranchView {
        BranchView {
            name: self.name@,
            is_current: self.is_current,
            is_remote: self.is_remote,
            upstream: self.upstream.deep_view(),
        }
    }
}

/// The lines that a change adds to a file and removes from it.
#[derive(Clone, Debug, PartialEq, Eq)]
pub struct FileDelta {
    pub path: String,
    pub added: usize,
    pub removed: usize,
}

/// A `FileDelta` with its text as a sequence.
pub struct FileDeltaView {
    pub path: Seq<char>,
    pub added: usize,
    pub removed: usize,
}

impl DeepView for FileDelta {
    type V = FileDeltaView;

    open spec fn deep_view(&self) -> FileDeltaView {
        FileDeltaView { path: self.path@, added: self.added, removed: self.removed }
    }
}

/// What a git command printed and whether it succeeded.
#[derive(Clone, Debug, PartialEq, Eq)]
pub struct CommandOutput {
    pub success: bool,
    pub stdout: String,
    pub stderr: String,
}

/// The counters of a clone in flight, at one moment.
#[derive(Clone, Copy, Debug, PartialEq, Eq, Structural)]
pub struct CloneProgress {
    /// Objects received so far.
    pub received_objects: usize,
    /// Objects to receive in all.
    pub total_objects: usize,
    /// Bytes received so far.
    pub received_bytes: usize,
    /// Objects indexed so far.
    pub indexed_objects: usize,
    /// Deltas to resolve in all.
    pub total_deltas: usize,
    /// Deltas resolved so far.
    pub indexed_deltas: usize,
}

/// A git command line, to be run in `working_dir`.
#[derive(Clone, Debug, PartialEq, Eq)]
pub struct GitCommand {
    pub program: String,
    pub working_dir: String,
    pub args: Vec<String>,
}

/// A `GitCommand` with its texts as sequences.
pub struct GitCommandView {
    pub program: Seq<char>,
    pub working_dir: Seq<char>,
    pub args: Seq<Seq<char>>,
}

impl View for GitCommand {
    type V = GitCommandView;

    open spec fn view(&self) -> GitCommandView {
        GitCommandView {
            program: self.program@,
            working_dir: self.working_dir@,
            args: self.args.deep_view(),
        }
    }
}

/// `git` with `args`, in the repository at `repo_path`.
pub open spec fn git_command(repo_path: Seq<char>, args: Seq<Seq<char>>) -> GitCommandView {
    GitCommandView { program: "git"@, working_dir: repo_path, args }
}

/// A branch name that is not handed to `git checkout`: one that holds
/// `..`, starts with `-` or holds a NUL.
pub open spec fn invalid_branch(branch: Seq<char>) -> bool {
    contains_text(branch, seq!['.', '.']) || (branch.len() > 0 && branch[0] == '-')
        || branch.contains('\0')
}

/// What the index and the working tree say of one path.
#[derive(Clone, Copy, Debug, PartialEq, Eq, Structural)]
pub struct StatusFlags {
    pub index_new: bool,
    pub index_modified: bool,
    pub index_deleted: bool,
    pub index_renamed: bool,
    pub wt_new: bool,
    pub wt_modified: bool,
    pub wt_deleted: bool,
    pub wt_renamed: bool,
}

/// One path of a status listing as it was read.
#[derive(Clone, Debug, PartialEq, Eq)]
pub struct StatusEntry {
    pub path: Option<String>,
    pub flags: StatusFlags,
    /// The path before a rename between `HEAD` and the index.
    pub index_old_path: Option<String>,
    /// The path before a rename between the index and the working tree.
    pub workdir_old_path: Option<String>,
}

/// A `StatusEntry` with its texts as sequences.
pub struct StatusEntryView {
    pub path: Option<Seq<char>>,
    pub flags: StatusFlags,
    pub index_old_path: Option<Seq<char>>,
    pub workdir_old_path: Option<Seq<char>>,
}

impl DeepView for StatusEntry {
    type V = StatusEntryView;

    open spec fn deep_view(&self) -> StatusEntryView {
        StatusEntryView {
            path: self.path.deep_view(),
            flags: self.flags,
            index_old_path: self.index_old_path.deep_view(),
            workdir_old_path: self.workdir_old_path.deep_view(),
        }
    }
}

/// The staged change of an entry, if it has one: the first that applies
/// of added, modified, deleted and renamed.
pub open spec fn staged_change(e: StatusEntryView) -> Option<FileStatusView> {
    let path = text_or_empty(e.path);
    if e.flags.index_new {
        Some(FileStatusView { path, status: FileStatusType::Added, old_path: None })
    } else if e.flags.index_modified {
        Some(FileStatusView { path, status: FileStatusType::Modified, old_path: None })
    } else if e.flags.index_deleted {
        Some(FileStatusView { path, status: FileStatusType::Deleted, old_path: None })
    } else if e.flags.index_renamed {
        Some(FileStatusView { path, status: FileStatusType::Renamed, old_path: e.index_old_path })
    } else {
        None
    }
}

/// The unstaged change of an entry, if it has one: none for a file that
/// is new in the working tree, else the first that applies of modified,
/// deleted and renamed.
pub open spec fn unstaged_change(e: StatusEntryView) -> Option<FileStatusView> {
    let path = text_or_empty(e.path);
    if e.flags.wt_new {
        None
    } else if e.flags.wt_modified {
        Some(FileStatusView { path, status: FileStatusType::Modified, old_path: None })
    } else if e.flags.wt_deleted {
        Some(FileStatusView { path, status: FileStatusType::Deleted, old_path: None })
    } else if e.flags.wt_renamed {
        Some(
            FileStatusView { path, status: FileStatusType::Renamed, old_path: e.workdir_old_path },
        )
    } else {
        None
    }
}

/// The staged changes of a listing, in its order.
pub open spec fn staged_of(entries: Seq<StatusEntryView>) -> Seq<FileStatusView>
    decreases entries.len(),
{
    if entries.len() == 0 {
        Seq::empty()
    } else {
        let before = staged_of(entries.drop_last());
        match staged_change(entries.last()) {
            Some(change) => before.push(change),
            None => before,
        }
    }
}

/// The unstaged changes of a listing, in its order.
pub open spec fn unstaged_of(entries: Seq<StatusEntryView>) -> Seq<FileStatusView>
    decreases entries.len(),
{
    if entries.len() == 0 {
        Seq::empty()
    } else {
        let before = unstaged_of(entries.drop_last());
        match unstaged_change(entries.last()) {
            Some(change) => before.push(change),
            None => before,
        }
    }
}

/// The paths of a listing that are new in the working tree, in its order.
pub open spec fn untracked_of(entries: Seq<StatusEntryView>) -> Seq<Seq<char>>
    decreases entries.len(),
{
    if entries.len() == 0 {
        Seq::empty()
    } else {
        let before = untracked_of(entries.drop_last());
        if entries.last().flags.wt_new {
            before.push(text_or_empty(entries.last().path))
        } else {
            before
        }
    }
}

/// A commit as it was read from the repository.
#[derive(Clone, Debug, PartialEq, Eq)]
pub struct RawCommit {
    /// The object id in hexadecimal.
    pub id: String,
    pub message: Option<String>,
    pub author: Option<String>,
    pub email: Option<String>,
    /// The commit time in seconds since 1970-01-01T00:00:00Z.
    pub seconds: i64,
}

/// A `RawCommit` with its texts as sequences.
pub struct RawCommitView {
    pub id: Seq<char>,
    pub message: Option<Seq<char>>,
    pub author: Option<Seq<char>>,
    pub email: Option<Seq<char>>,
    pub seconds: i64,
}

impl DeepView for RawCommit {
    type V = RawCommitView;

    open spec fn deep_view(&self) -> RawCommitView {
        RawCommitView {
            id: self.id@,
            message: self.message.deep_view(),
            author: self.author.deep_view(),
            email: self.email.deep_view(),
            seconds: self.seconds,
        }
    }
}

/// The RFC 3339 text of the UTC time `seconds` after 1970-01-01T00:00:00Z
/// as `chrono` writes it, or `None` where `chrono` has no date for it.
pub uninterp spec fn rfc3339_utc(seconds: i64) -> Option<Seq<char>>;

/// `chrono::DateTime::from_timestamp` with no nanoseconds, and
/// `chrono::DateTime::to_rfc3339` on the date it gives. The text is a
/// function of the seconds alone: the time is taken as UTC. The contract
/// claims only that the result is that text, under the name
/// `rfc3339_utc`.
#[verifier::external_body]
pub(crate) fn format_timestamp(seconds: i64) -> (r: Option<String>)
    ensures
        r.deep_view() == rfc3339_utc(seconds),
{
    match chrono::DateTime::from_timestamp(seconds, 0) {
        Some(time) => Some(time.to_rfc3339()),
        None => None,
    }
}

/// The log entry for a commit, given the text of its time.
pub open spec fn commit_of(raw: RawCommitView, timestamp: Option<Seq<char>>) -> CommitView {
    CommitView {
        id: raw.id,
        short_id: prefix(raw.id, 7),
        message: trim(text_or_empty(raw.message)),
        author: text_or_empty(raw.author),
        email: text_or_empty(raw.email),
        timestamp: text_or_empty(timestamp),
    }
}

/// A local branch as it was read from the repository.
#[derive(Clone, Debug, PartialEq, Eq)]
pub struct RawBranch {
    pub name: Option<String>,
    pub upstream: Option<String>,
}

/// A `RawBranch` with its texts as sequences.
pub struct RawBranchView {
    pub name: Option<Seq<char>>,
    pub upstream: Option<Seq<char>>,
}

impl DeepView for RawBranch {
    type V = RawBranchView;

    open spec fn deep_view(&self) -> RawBranchView {
        RawBranchView { name: self.name.deep_view(), upstream: self.upstream.deep_view() }
    }
}

/// The listing of the local branches: each with its upstream, the
/// current one marked.
pub open spec fn local_branches(current: Seq<char>, local: Seq<RawBranchView>) -> Seq<BranchView> {
    Seq::new(
        local.len(),
        |i: int|
            BranchView {
                name: text_or_empty(local[i].name),
                is_current: text_or_empty(local[i].name) == current,
                is_remote: false,
                upstream: local[i].upstream,
            },
    )
}

/// The listing of the remote branches, in their order, without the
/// symbolic `HEAD` of a remote.
pub open spec fn remote_branches(remote: Seq<Option<Seq<char>>>) -> Seq<BranchView>
    decreases remote.len(),
{
    if remote.len() == 0 {
        Seq::empty()
    } else {
        let before = remote_branches(remote.drop_last());
        let name = text_or_empty(remote.last());
        if ends_with(name, "/HEAD"@) {
            before
        } else {
            before.push(BranchView { name, is_current: false, is_remote: true, upstream: None })
        }
    }
}

/// The line counts of one file of a diff as they were read.
#[derive(Clone, Copy, Debug, PartialEq, Eq, Structural)]
pub enum PatchLines {
    /// No patch could be made for the file.
    NoPatch,
    /// There is a patch, but its lines could not be counted.
    Uncounted,
    /// The lines that the patch adds and removes.
    Counted { added: usize, removed: usize },
}

/// One file of a diff as it was read.
#[derive(Clone, Debug, PartialEq, Eq)]
pub struct RawDelta {
    /// The new path, or else the old one.
    pub path: Option<String>,
    pub lines: PatchLines,
}

/// A `RawDelta` with its text as a sequence.
pub struct RawDeltaView {
    pub path: Option<Seq<char>>,
    pub lines: PatchLines,
}

impl DeepView for RawDelta {
    type V = RawDeltaView;

    open spec fn deep_view(&self) -> RawDeltaView {
        RawDeltaView { path: self.path.deep_view(), lines: self.lines }
    }
}

/// The totals of a diff.
#[derive(Clone, Copy, Debug, PartialEq, Eq, Structural)]
pub struct DiffTotals {
    pub files_changed: usize,
    pub insertions: usize,
    pub deletions: usize,
}

/// The statistics of the files that have a patch, in their order. Lines
/// that could not be counted count as none.
pub open spec fn file_deltas(files: Seq<RawDeltaView>) -> Seq<FileDeltaView>
    decreases files.len(),
{
    if files.len() == 0 {
        Seq::empty()
    } else {
        let before = file_deltas(files.drop_last());
        let path = text_or_empty(files.last().path);
        match files.last().lines {
            PatchLines::NoPatch => before,
            PatchLines::Uncounted => before.push(FileDeltaView { path, added: 0, removed: 0 }),
            PatchLines::Counted { added, removed } => before.push(
                FileDeltaView { path, added, removed },
            ),
        }
    }
}

/// The statistics of a diff: those of its files, or, where no file has a
/// patch although files changed, one entry with the totals.
pub open spec fn diff_stats_of(files: Seq<RawDeltaView>, totals: DiffTotals) -> Seq<FileDeltaView> {
    if file_deltas(files).len() == 0 && totals.files_changed > 0 {
        seq![
            FileDeltaView {
                path: "(binary or unreadable files)"@,
                added: totals.insertions,
                removed: totals.deletions,
            },
        ]
    } else {
        file_deltas(files)
    }
}

/// The name shown for `HEAD`: the branch's short name where `HEAD` is on
/// a branch, else the first seven digits of the commit it points to; the
/// word `HEAD` where neither is known.
pub open spec fn current_branch_of(
    is_branch: bool,
    shorthand: Option<Seq<char>>,
    target: Option<Seq<char>>,
) -> Seq<char> {
    if is_branch {
        match shorthand {
            Some(name) => name,
            None => "HEAD"@,
        }
    } else {
        match target {
            Some(id) => prefix(id, 7),
            None => "HEAD"@,
        }
    }
}

/// How many progress snapshots the channel between a clone and its relay
/// holds; one that finds it full is dropped.
pub const PROGRESS_CHANNEL_CAPACITY: usize = 32;

/// The sending half of the bounded channel that carries progress
/// snapshots from a clone to whoever relays them.
#[verifier::external_type_specification]
#[verifier::external_body]
#[verifier::reject_recursive_types(T)]
pub struct ExSender<T>(tokio::sync::mpsc::Sender<T>);

/// `tokio::sync::mpsc::Sender::try_send`: offers the snapshot to the
/// channel and returns at once. Whether the snapshot was queued depends on
/// how far the receiver has drained the channel, so nothing is claimed of
/// the result.
#[verifier::external_body]
pub(crate) fn try_send_progress(
    progress_tx: &tokio::sync::mpsc::Sender<CloneProgress>,
    progress: CloneProgress,
) -> (queued: bool) {
    progress_tx.try_send(progress).is_ok()
}

/// Git operations.
pub struct GitManager;

impl GitManager {
    fn command(repo_path: &str, args: Vec<String>) -> (c: GitCommand)
        ensures
            c@ == git_command(repo_path@, args.deep_view()),
    {
        GitCommand {
            program: String::from_str("git"),
            working_dir: String::from_str(repo_path),
            args,
        }
    }

    /// `git pull` in the repository.
    pub fn pull(repo_path: &str) -> (c: GitCommand)
        ensures
            c@ == git_command(repo_path@, seq!["pull"@]),
    {
        let mut args: Vec<String> = Vec::new();
        args.push(String::from_str("pull"));
        assert(args.deep_view() =~= seq!["pull"@]);
        Self::command(repo_path, args)
    }

    /// `git push` in the repository.
    pub fn push(repo_path: &str) -> (c: GitCommand)
        ensures
            c@ == git_command(repo_path@, seq!["push"@]),
    {
        let mut args: Vec<String> = Vec::new();
        args.push(String::from_str("push"));
        assert(args.deep_view() =~= seq!["push"@]);
        Self::command(repo_path, args)
    }

    /// `git commit -m <message>` in the repository.
    pub fn commit(repo_path: &str, message: &str) -> (c: GitCommand)
        ensures
            c@ == git_command(repo_path@, seq!["commit"@, "-m"@, message@]),
    {
        let mut args: Vec<String> = Vec::new();
        args.push(String::from_str("commit"));
        args.push(String::from_str("-m"));
        args.push(String::from_str(message));
        assert(args.deep_view() =~= seq!["commit"@, "-m"@, message@]);
        Self::command(repo_path, args)
    }

    /// `git reset --hard` in the repository.
    pub fn reset_hard(repo_path: &str) -> (c: GitCommand)
        ensures
            c@ == git_command(repo_path@, seq!["reset"@, "--hard"@]),
    {
        let mut args: Vec<String> = Vec::new();
        args.push(String::from_str("reset"));
        args.push(String::from_str("--hard"));
        assert(args.deep_view() =~= seq!["reset"@, "--hard"@]);
        Self::command(repo_path, args)
    }

    /// `git checkout <branch>` in the repository, for a branch name that
    /// cannot be taken for an option or a range; any other name is
    /// refused.
    pub fn checkout(repo_path: &str, branch: &str) -> (r: Result<GitCommand, GitError>)
        ensures
            invalid_branch(branch@) ==> r is Err && r->Err_0@ == GitErrorView::InvalidBranch(
                branch@,
            ),
            !invalid_branch(branch@) ==> r is Ok && r->Ok_0@ == git_command(
                repo_path@,
                seq!["checkout"@, branch@],
            ),
    {
        let chars = chars_of(branch);
        let mut dots: Vec<char> = Vec::new();
        dots.push('.');
        dots.push('.');
        assert(dots@ =~= seq!['.', '.']);
        assert(chars@.subrange(0, chars.len() as int) =~= chars@);
        if holds_text(&chars, &dots) || (chars.len() > 0 && chars[0] == '-') || holds_char(
            &chars,
            0,
            chars.len(),
            '\0',
        ) {
            return Err(GitError::InvalidBranch(String::from_str(branch)));
        }
        let mut args: Vec<String> = Vec::new();
        args.push(String::from_str("checkout"));
        args.push(String::from_str(branch));
        assert(args.deep_view() =~= seq!["checkout"@, branch@]);
        Ok(Self::command(repo_path, args))
    }

    /// `git add -A` in the repository.
    pub fn add_all(repo_path: &str) -> (c: GitCommand)
        ensures
            c@ == git_command(repo_path@, seq!["add"@, "-A"@]),
    {
        let mut args: Vec<String> = Vec::new();
        args.push(String::from_str("add"));
        args.push(String::from_str("-A"));
        assert(args.deep_view() =~= seq!["add"@, "-A"@]);
        Self::command(repo_path, args)
    }

    /// What a run of a git command is reported as: its output where it
    /// ran, whether it succeeded or not, and `CommandFailed` with the
    /// system's message where it could not be run at all.
    pub fn run_git_command(outcome: Result<CommandOutput, String>) -> (r: Result<
        CommandOutput,
        GitError,
    >)
        ensures
            match outcome {
                Ok(output) => r == Ok::<CommandOutput, GitError>(output),
                Err(detail) => r is Err && r->Err_0@ == GitErrorView::CommandFailed(
                    "Failed to run git: "@ + detail@,
                ),
            },
    {
        match outcome {
            Ok(output) => Ok(output),
            Err(detail) => Err(GitError::CommandFailed(concat("Failed to run git: ", detail.as_str()))),
        }
    }

    /// The status of a working tree from its listing: the staged and the
    /// unstaged changes and the untracked paths, each in the order of the
    /// listing. Where the distance to the upstream is unknown it counts
    /// as zero.
    pub fn status(
        branch: String,
        ahead_behind: Option<(usize, usize)>,
        entries: &Vec<StatusEntry>,
    ) -> (s: GitStatus)
        ensures
            s.branch == branch,
            ahead_behind is Some ==> s.ahead == ahead_behind->Some_0.0 && s.behind
                == ahead_behind->Some_0.1,
            ahead_behind is None ==> s.ahead == 0 && s.behind == 0,
            s.staged.deep_view() == staged_of(entries.deep_view()),
            s.unstaged.deep_view() == unstaged_of(entries.deep_view()),
            s.untracked.deep_view() == untracked_of(entries.deep_view()),
    {
        let (ahead, behind) = match ahead_behind {
            Some(pair) => pair,
            None => (0, 0),
        };
        let mut staged: Vec<FileStatus> = Vec::new();
        let mut unstaged: Vec<FileStatus> = Vec::new();
        let mut untracked: Vec<String> = Vec::new();
        let mut i: usize = 0;
        assert(entries.deep_view().take(0) =~= Seq::empty());
        assert(staged.deep_view() =~= Seq::empty());
        assert(unstaged.deep_view() =~= Seq::empty());
        assert(untracked.deep_view() =~= Seq::empty());
        while i < entries.len()
            invariant
                i <= entries.len(),
                staged.deep_view() == staged_of(entries.deep_view().take(i as int)),
                unstaged.deep_view() == unstaged_of(entries.deep_view().take(i as int)),
                untracked.deep_view() == untracked_of(entries.deep_view().take(i as int)),
            decreases entries.len() - i,
        {
            let entry = &entries[i];
            let flags = entry.flags;
            let ghost staged_before = staged.deep_view();
            let ghost unstaged_before = unstaged.deep_view();
            let ghost untracked_before = untracked.deep_view();
            let ghost e = entry.deep_view();
            proof {
                let taken = entries.deep_view().take(i + 1);
                assert(taken.drop_last() =~= entries.deep_view().take(i as int));
                assert(taken.last() == e);
            }
            if flags.index_new {
                staged.push(
                    FileStatus {
                        path: or_empty(&entry.path),
                        status: FileStatusType::Added,
                        old_path: None,
                    },
                );
            } else if flags.index_modified {
                staged.push(
                    FileStatus {
                        path: or_empty(&entry.path),
                        status: FileStatusType::Modified,
                        old_path: None,
                    },
                );
            } else if flags.index_deleted {
                staged.push(
                    FileStatus {
                        path: or_empty(&entry.path),
                        status: FileStatusType::Deleted,
                        old_path: None,
                    },
                );
            } else if flags.index_renamed {
                staged.push(
                    FileStatus {
                        path: or_empty(&entry.path),
                        status: FileStatusType::Renamed,
                        old_path: clone_opt(&entry.index_old_path),
                    },
                );
            }
            proof {
                match staged_change(e) {
                    Some(change) => {
                        assert(staged.deep_view() =~= staged_before.push(change));
                    },
                    None => {
                        assert(staged.deep_view() =~= staged_before);
                    },
                }
            }
            if flags.wt_new {
                untracked.push(or_empty(&entry.path));
            } else if flags.wt_modified {
                unstaged.push(
                    FileStatus {
                        path: or_empty(&entry.path),
                        status: FileStatusType::Modified,
                        old_path: None,
                    },
                );
            } else if flags.wt_deleted {
                unstaged.push(
                    FileStatus {
                        path: or_empty(&entry.path),
                        status: FileStatusType::Deleted,
                        old_path: None,
                    },
                );
            } else if flags.wt_renamed {
                unstaged.push(
                    FileStatus {
                        path: or_empty(&entry.path),
                        status: FileStatusType::Renamed,
                        old_path: clone_opt(&entry.workdir_old_path),
                    },
                );
            }
            proof {
                match unstaged_change(e) {
                    Some(change) => {
                        assert(unstaged.deep_view() =~= unstaged_before.push(change));
                    },
                    None => {
                        assert(unstaged.deep_view() =~= unstaged_before);
                    },
                }
                if e.flags.wt_new {
                    assert(untracked.deep_view() =~= untracked_before.push(text_or_empty(e.path)));
                } else {
                    assert(untracked.deep_view() =~= untracked_before);
                }
            }
            i += 1;
        }
        assert(entries.deep_view().take(entries.len() as int) =~= entries.deep_view());
        GitStatus { branch, ahead, behind, staged, unstaged, untracked }
    }

    /// The log entry for a commit, given the text of its time: the short
    /// id is the first seven digits of the id, the message loses the
    /// white space around it, and what is missing is empty.
    pub fn commit_entry(raw: &RawCommit, timestamp: Option<String>) -> (c: Commit)
        ensures
            c.deep_view() == commit_of(raw.deep_view(), timestamp.deep_view()),
    {
        let message = or_empty(&raw.message);
        Commit {
            id: raw.id.clone(),
            short_id: take_prefix(raw.id.as_str(), 7),
            message: trimmed(message.as_str()),
            author: or_empty(&raw.author),
            email: or_empty(&raw.email),
            timestamp: or_empty(&timestamp),
        }
    }

    /// The log: an entry for each of the first `limit` commits read, in
    /// their order, with the commit time as RFC 3339 text in UTC.
    pub fn log(commits: &Vec<RawCommit>, limit: usize) -> (entries: Vec<Commit>)
        ensures
            entries.len() == if limit <= commits.len() {
                limit
            } else {
                commits.len()
            },
            forall|i: int|
                0 <= i < entries.len() ==> (#[trigger] entries[i]).deep_view() == commit_of(
                    commits[i].deep_view(),
                    rfc3339_utc(commits[i].seconds),
                ),
    {
        let count: usize = if limit <= commits.len() {
            limit
        } else {
            commits.len()
        };
        let mut entries: Vec<Commit> = Vec::new();
        let mut i: usize = 0;
        while i < count
            invariant
                i <= count <= commits.len(),
                entries.len() == i,
                forall|k: int|
                    0 <= k < i ==> (#[trigger] entries[k]).deep_view() == commit_of(
                        commits[k].deep_view(),
                        rfc3339_utc(commits[k].seconds),
                    ),
            decreases count - i,
        {
            let timestamp = format_timestamp(commits[i].seconds);
            entries.push(Self::commit_entry(&commits[i], timestamp));
            i += 1;
        }
        entries
    }

    /// The branches of a repository: the local ones first, each with its
    /// upstream and the current one marked, then the remote ones without
    /// the symbolic `HEAD` of a remote.
    pub fn branches(
        current: &Option<String>,
        local: &Vec<RawBranch>,
        remote: &Vec<Option<String>>,
    ) -> (list: Vec<Branch>)
        ensures
            list.deep_view() == local_branches(
                text_or_empty(current.deep_view()),
                local.deep_view(),
            ) + remote_branches(remote.deep_view()),
    {
        let current_name = or_empty(current);
        let ghost locals = local_branches(current_name@, local.deep_view());
        let mut list: Vec<Branch> = Vec::new();
        let mut i: usize = 0;
        while i < local.len()
            invariant
                i <= local.len(),
                locals == local_branches(current_name@, local.deep_view()),
                list.len() == i,
                forall|k: int| 0 <= k < i ==> (#[trigger] list[k]).deep_view() == locals[k],
            decreases local.len() - i,
        {
            let name = or_empty(&local[i].name);
            let is_current = same_text(name.as_str(), current_name.as_str());
            list.push(
                Branch { name, is_current, is_remote: false, upstream: clone_opt(&local[i].upstream) },
            );
            i += 1;
        }
        assert(list.deep_view() =~= locals);
        let suffix = chars_of("/HEAD");
        let mut j: usize = 0;
        assert(remote.deep_view().take(0) =~= Seq::empty());
        assert(list.deep_view() =~= locals + remote_branches(remote.deep_view().take(0)));
        while j < remote.len()
            invariant
                j <= remote.len(),
                suffix@ == "/HEAD"@,
                list.deep_view() == locals + remote_branches(remote.deep_view().take(j as int)),
            decreases remote.len() - j,
        {
            let ghost before = list.deep_view();
            let ghost remotes_before = remote_branches(remote.deep_view().take(j as int));
            let name = or_empty(&remote[j]);
            let chars = chars_of(name.as_str());
            assert(chars@.take(chars.len() as int) =~= chars@);
            let is_head = ends_with_at(&chars, chars.len(), &suffix);
            proof {
                let taken = remote.deep_view().take(j + 1);
                assert(taken.drop_last() =~= remote.deep_view().take(j as int));
                assert(taken.last() == remote[j as int].deep_view());
            }
            if !is_head {
                list.push(Branch { name, is_current: false, is_remote: true, upstream: None });
                assert(list.deep_view() =~= before.push(
                    BranchView { name: name@, is_current: false, is_remote: true, upstream: None },
                ));
                assert(before.push(
                    BranchView { name: name@, is_current: false, is_remote: true, upstream: None },
                ) =~= locals + remotes_before.push(
                    BranchView { name: name@, is_current: false, is_remote: true, upstream: None },
                ));
            }
            j += 1;
        }
        assert(remote.deep_view().take(remote.len() as int) =~= remote.deep_view());
        list
    }

    /// The statistics of a diff: one entry for each file that has a
    /// patch; where there is none although files changed, one entry with
    /// the totals.
    pub fn diff_stats(files: &Vec<RawDelta>, totals: DiffTotals) -> (deltas: Vec<FileDelta>)
        ensures
            deltas.deep_view() == diff_stats_of(files.deep_view(), totals),
    {
        let mut deltas: Vec<FileDelta> = Vec::new();
        let mut i: usize = 0;
        assert(files.deep_view().take(0) =~= Seq::empty());
        assert(deltas.deep_view() =~= Seq::empty());
        while i < files.len()
            invariant
                i <= files.len(),
                deltas.deep_view() == file_deltas(files.deep_view().take(i as int)),
            decreases files.len() - i,
        {
            let ghost before = deltas.deep_view();
            proof {
                let taken = files.deep_view().take(i + 1);
                assert(taken.drop_last() =~= files.deep_view().take(i as int));
                assert(taken.last() == files[i as int].deep_view());
            }
            match files[i].lines {
                PatchLines::NoPatch => {},
                PatchLines::Uncounted => {
                    let path = or_empty(&files[i].path);
                    deltas.push(FileDelta { path, added: 0, removed: 0 });
                    assert(deltas.deep_view() =~= before.push(
                        FileDeltaView { path: path@, added: 0, removed: 0 },
                    ));
                },
                PatchLines::Counted { added, removed } => {
                    let path = or_empty(&files[i].path);
                    deltas.push(FileDelta { path, added, removed });
                    assert(deltas.deep_view() =~= before.push(
                        FileDeltaView { path: path@, added, removed },
                    ));
                },
            }
            i += 1;
        }
        assert(files.deep_view().take(files.len() as int) =~= files.deep_view());
        if deltas.len() == 0 && totals.files_changed > 0 {
            deltas.push(
                FileDelta {
                    path: String::from_str("(binary or unreadable files)"),
                    added: totals.insertions,
                    removed: totals.deletions,
                },
            );
            assert(deltas.deep_view() =~= diff_stats_of(files.deep_view(), totals));
        }
        deltas
    }

    /// Reports a snapshot of a clone in flight and says whether the clone
    /// goes on. It always does: a snapshot that finds the channel full or
    /// closed is dropped, and the clone is neither held up nor stopped.
    pub fn report_progress(
        progress_tx: &tokio::sync::mpsc::Sender<CloneProgress>,
        progress: CloneProgress,
    ) -> (keep_going: bool)
        ensures
            keep_going,
    {
        let _queued = try_send_progress(progress_tx, progress);
        true
    }

    /// The name shown for `HEAD`.
    pub fn get_current_branch(
        is_branch: bool,
        shorthand: &Option<String>,
        target: &Option<String>,
    ) -> (name: String)
        ensures
            name@ == current_branch_of(is_branch, shorthand.deep_view(), target.deep_view()),
    {
        if is_branch {
            match shorthand {
                Some(name) => name.clone(),
                None => String::from_str("HEAD"),
            }
        } else {
            match target {
                Some(id) => take_prefix(id.as_str(), 7),
                None => String::from_str("HEAD"),
            }
        }
    }
}

} // verus!
