//! Repositories: adding, scanning and cloning them, and the event stream
//! that relays a clone's progress.
//!
//! A clone runs in the background and reports snapshots of its progress.
//! The relay turns what it is told of the clone into events: any number of
//! progress events, then exactly one event that ends the stream.

use vstd::prelude::*;
use crate::error::{app_error_text, AppError, AppErrorView};
use crate::git::{CloneError, CloneErrorView, CloneProgress};
use crate::models::{Repo, RepoView};
use crate::text::{
    after_last, chars_of, concat, holds_char, last_segment_start, strip_suffix_end,
    strip_suffix_repeated, strip_trailing, strip_trailing_end,
};

verus! {

/// A request to add a repository that is on disk already.
#[derive(Clone, Debug, PartialEq, Eq)]
pub struct AddRepoRequest {
    /// Where the repository is.
    pub path: String,
    /// Its name; the directory's name where none is given.
    pub name: Option<String>,
}

/// A request to clone a repository.
#[derive(Clone, Debug, PartialEq, Eq)]
pub struct CloneRepoRequest {
    /// The URL to clone from, in HTTPS or SSH form.
    pub url: String,
}

/// The answer to a clone that succeeded.
#[derive(Clone, Debug, PartialEq, Eq)]
pub struct CloneRepoResponse {
    pub repo: Repo,
    pub message: String,
}

/// The query of the endpoint that streams a clone's progress.
#[derive(Clone, Debug, PartialEq, Eq)]
pub struct CloneProgressQuery {
    /// The URL to clone from.
    pub url: String,
}

/// A request to scan directories for repositories.
#[derive(Clone, Debug, PartialEq, Eq)]
pub struct ScanRequest {
    /// Where to look.
    pub directories: Vec<String>,
    /// How many levels to descend.
    pub depth: usize,
}

/// What a scan found.
#[derive(Clone, Debug, PartialEq, Eq)]
pub struct ScanResponse {
    pub found: Vec<FoundRepo>,
}

/// A repository that a scan found.
#[derive(Clone, Debug, PartialEq, Eq)]
pub struct FoundRepo {
    pub path: String,
    pub name: String,
}

/// The depth of a scan that names none.
pub fn default_scan_depth() -> (depth: usize)
    ensures
        depth == 2,
{
    2
}

/// The name of the repository that `url` points to: with the trailing
/// slashes and then the `.git` endings left off, the part after the last
/// `/`; where that part is empty or there is no `/`, the part after the
/// last `:`. There is no name where what is found is empty or holds a `/`.
pub open spec fn repo_name_of(url: Seq<char>) -> Option<Seq<char>> {
    let base = strip_suffix_repeated(strip_trailing(url, '/'), seq!['.', 'g', 'i', 't']);
    let tail = after_last(base, '/');
    let name = if tail.len() > 0 && tail != base {
        tail
    } else {
        after_last(base, ':')
    };
    if name.len() > 0 && !name.contains('/') {
        Some(name)
    } else {
        None
    }
}

/// The name of the repository that a clone URL points to.
pub fn extract_repo_name(url: &str) -> (r: Result<String, AppError>)
    ensures
        match repo_name_of(url@) {
            Some(name) => r is Ok && r->Ok_0@ == name,
            None => r is Err && r->Err_0@ == AppErrorView::BadRequest(
                "Could not extract repository name from URL"@,
            ),
        },
{
    let chars = chars_of(url);
    let mut ending: Vec<char> = Vec::new();
    ending.push('.');
    ending.push('g');
    ending.push('i');
    ending.push('t');
    assert(ending@ =~= seq!['.', 'g', 'i', 't']);
    assert(chars@.take(chars.len() as int) =~= chars@);
    let slashless: usize = strip_trailing_end(&chars, chars.len(), '/');
    assert(chars@.take(slashless as int).take(slashless as int) =~= chars@.take(slashless as int));
    let end: usize = strip_suffix_end(&chars, slashless, &ending);
    let ghost base = chars@.take(end as int);
    let after_slash: usize = last_segment_start(&chars, end, '/');
    proof {
        if after_slash == 0 {
            assert(chars@.subrange(0, end as int) =~= base);
        } else {
            assert(chars@.subrange(after_slash as int, end as int).len() < base.len());
        }
    }
    let start: usize = if after_slash < end && after_slash > 0 {
        after_slash
    } else {
        last_segment_start(&chars, end, ':')
    };
    if start < end && !holds_char(&chars, start, end, '/') {
        let name = url.substring_char(start, end);
        Ok(String::from_str(name))
    } else {
        Err(AppError::BadRequest(String::from_str("Could not extract repository name from URL")))
    }
}

/// A trailing slash changes nothing of the name that a URL gives.
pub proof fn lemma_trailing_slash_ignored(url: Seq<char>)
    ensures
        repo_name_of(url.push('/')) == repo_name_of(url),
{
    assert(url.push('/').drop_last() =~= url);
    assert(strip_trailing(url.push('/'), '/') == strip_trailing(url, '/'));
}

/// A `.git` ending changes nothing of the name that a URL gives, where
/// the URL does not end in a slash.
pub proof fn lemma_git_ending_ignored(url: Seq<char>)
    requires
        url.len() == 0 || url.last() != '/',
    ensures
        repo_name_of(url + seq!['.', 'g', 'i', 't']) == repo_name_of(url),
{
    let ending = seq!['.', 'g', 'i', 't'];
    let longer = url + ending;
    assert(longer.last() == 't');
    assert(longer.subrange(longer.len() - ending.len(), longer.len() as int) =~= ending);
    assert(longer.subrange(0, longer.len() - ending.len()) =~= url);
}

/// The name of a found or an added repository: the one asked for, else
/// the name of its directory, else `unknown`.
pub open spec fn display_name_of(requested: Option<Seq<char>>, dir_name: Option<Seq<char>>) -> Seq<
    char,
> {
    match requested {
        Some(name) => name,
        None => match dir_name {
            Some(name) => name,
            None => "unknown"@,
        },
    }
}

/// The name under which a repository is added.
pub fn display_name(requested: Option<String>, dir_name: Option<String>) -> (name: String)
    ensures
        name@ == display_name_of(requested.deep_view(), dir_name.deep_view()),
{
    match requested {
        Some(name) => name,
        None => match dir_name {
            Some(name) => name,
            None => String::from_str("unknown"),
        },
    }
}

/// Why a repository cannot be added.
#[derive(Clone, Debug, PartialEq, Eq)]
pub enum AddRepoFailure {
    /// There is nothing at the path.
    PathMissing(String),
    /// What is at the path is no git repository.
    NotARepository(String),
    /// The path could not be made canonical, with the system's message.
    CanonicalizeFailed(String),
    /// The store holds the canonical path already.
    AlreadyKnown(String),
}

/// The error that a refused addition is answered with.
pub open spec fn add_repo_error_of(failure: AddRepoFailure) -> AppErrorView {
    match failure {
        AddRepoFailure::PathMissing(path) => AppErrorView::BadRequest(
            "Path does not exist: "@ + path@,
        ),
        AddRepoFailure::NotARepository(path) => AppErrorView::BadRequest(
            "Not a git repository: "@ + path@,
        ),
        AddRepoFailure::CanonicalizeFailed(detail) => AppErrorView::Internal(
            "Failed to canonicalize path: "@ + detail@,
        ),
        AddRepoFailure::AlreadyKnown(path) => AppErrorView::BadRequest(
            "Repository already exists: "@ + path@,
        ),
    }
}

/// The error that a refused addition is answered with.
pub fn add_repo_error(failure: AddRepoFailure) -> (e: AppError)
    ensures
        e@ == add_repo_error_of(failure),
{
    match failure {
        AddRepoFailure::PathMissing(path) => AppError::BadRequest(
            concat("Path does not exist: ", path.as_str()),
        ),
        AddRepoFailure::NotARepository(path) => AppError::BadRequest(
            concat("Not a git repository: ", path.as_str()),
        ),
        AddRepoFailure::CanonicalizeFailed(detail) => AppError::Internal(
            concat("Failed to canonicalize path: ", detail.as_str()),
        ),
        AddRepoFailure::AlreadyKnown(path) => AppError::BadRequest(
            concat("Repository already exists: ", path.as_str()),
        ),
    }
}

/// What a scan does with a directory.
#[derive(Clone, Copy, Debug, PartialEq, Eq, Structural)]
pub enum ScanStep {
    /// The directory is a repository: it is reported and not entered.
    Report,
    /// The directory is entered, and its visible subdirectories are
    /// scanned one level deeper.
    Descend,
    /// The directory is left alone.
    Skip,
}

/// What a scan does with a directory at `current_depth`.
pub open spec fn scan_step_of(is_repo: bool, current_depth: usize, max_depth: usize) -> ScanStep {
    if is_repo {
        ScanStep::Report
    } else if current_depth < max_depth {
        ScanStep::Descend
    } else {
        ScanStep::Skip
    }
}

/// What a scan does with a directory at `current_depth`: a repository is
/// reported, whatever the depth; any other directory is entered while
/// the depth is below the limit.
pub fn scan_step(is_repo: bool, current_depth: usize, max_depth: usize) -> (step: ScanStep)
    ensures
        step == scan_step_of(is_repo, current_depth, max_depth),
{
    if is_repo {
        ScanStep::Report
    } else if current_depth < max_depth {
        ScanStep::Descend
    } else {
        ScanStep::Skip
    }
}

/// Whether a scan passes over a subdirectory: it does where the name
/// begins with a dot.
pub fn is_hidden(dir_name: &str) -> (hidden: bool)
    ensures
        hidden == (dir_name@.len() > 0 && dir_name@[0] == '.'),
{
    let chars = chars_of(dir_name);
    chars.len() > 0 && chars[0] == '.'
}

/// The entry for a repository that a scan found.
pub fn found_repo(path: String, dir_name: Option<String>) -> (found: FoundRepo)
    ensures
        found.path == path,
        found.name@ == display_name_of(None, dir_name.deep_view()),
{
    FoundRepo { path, name: display_name(None, dir_name) }
}

/// The directory under the user's home directory that holds the clones,
/// each in a directory named after its repository.
pub const CLONE_DIR: &'static str = "ralphtown";

/// Why a clone cannot begin.
#[derive(Clone, Debug, PartialEq, Eq)]
pub enum CloneSetupFailure {
    /// The user's home directory is not known.
    NoHomeDirectory,
    /// The destination exists already.
    DestinationExists(String),
    /// The destination's parent could not be created, with the system's
    /// message.
    CreateDirFailed(String),
}

/// The message for a clone that cannot begin.
pub open spec fn setup_failure_text(failure: CloneSetupFailure) -> Seq<char> {
    match failure {
        CloneSetupFailure::NoHomeDirectory => "Could not determine home directory"@,
        CloneSetupFailure::DestinationExists(dest) => "Directory already exists: "@ + dest@,
        CloneSetupFailure::CreateDirFailed(detail) => "Failed to create directory: "@ + detail@,
    }
}

/// The error that a clone that cannot begin is answered with: a bad
/// request where the destination exists, an internal error otherwise.
pub open spec fn setup_error_of(failure: CloneSetupFailure) -> AppErrorView {
    match failure {
        CloneSetupFailure::DestinationExists(dest) => AppErrorView::BadRequest(
            setup_failure_text(failure),
        ),
        _ => AppErrorView::Internal(setup_failure_text(failure)),
    }
}

/// The message for a clone that cannot begin.
pub fn setup_failure_message(failure: &CloneSetupFailure) -> (message: String)
    ensures
        message@ == setup_failure_text(*failure),
{
    match failure {
        CloneSetupFailure::NoHomeDirectory => String::from_str("Could not determine home directory"),
        CloneSetupFailure::DestinationExists(dest) => concat(
            "Directory already exists: ",
            dest.as_str(),
        ),
        CloneSetupFailure::CreateDirFailed(detail) => concat(
            "Failed to create directory: ",
            detail.as_str(),
        ),
    }
}

/// The error that a clone that cannot begin is answered with.
pub fn clone_setup_error(failure: CloneSetupFailure) -> (e: AppError)
    ensures
        e@ == setup_error_of(failure),
{
    let message = setup_failure_message(&failure);
    match failure {
        CloneSetupFailure::DestinationExists(dest) => AppError::BadRequest(message),
        _ => AppError::Internal(message),
    }
}

/// The message that reports where a repository was cloned to.
pub open spec fn cloned_text(dest: Seq<char>) -> Seq<char> {
    "Cloned to "@ + dest
}

impl CloneRepoResponse {
    /// The answer to a clone into `dest` whose record is `repo`.
    pub fn new(repo: Repo, dest: &str) -> (r: CloneRepoResponse)
        ensures
            r.repo == repo,
            r.message@ == cloned_text(dest@),
    {
        CloneRepoResponse { repo, message: concat("Cloned to ", dest) }
    }
}

/// An event of the stream that relays a clone.
#[derive(Clone, Debug, PartialEq, Eq)]
pub enum CloneEvent {
    /// A snapshot of the clone in flight.
    Progress(CloneProgress),
    /// The clone succeeded and its record is stored. Ends the stream.
    Complete { repo: Repo, message: String },
    /// The clone failed, or its record could not be stored. Ends the
    /// stream.
    Error { message: String, help_steps: Vec<String> },
}

/// A `CloneEvent` with its texts as sequences.
pub enum CloneEventView {
    Progress(CloneProgress),
    Complete { repo: RepoView, message: Seq<char> },
    Error { message: Seq<char>, help_steps: Seq<Seq<char>> },
}

impl View for CloneEvent {
    type V = CloneEventView;

    open spec fn view(&self) -> CloneEventView {
        match *self {
            CloneEvent::Progress(p) => CloneEventView::Progress(p),
            CloneEvent::Complete { repo, message } => CloneEventView::Complete {
                repo: repo@,
                message: message@,
            },
            CloneEvent::Error { message, help_steps } => CloneEventView::Error {
                message: message@,
                help_steps: help_steps.deep_view(),
            },
        }
    }
}

impl DeepView for CloneEvent {
    type V = CloneEventView;

    open spec fn deep_view(&self) -> CloneEventView {
        self@
    }
}

impl CloneEventView {
    /// An event after which the stream has no other.
    pub open spec fn terminal(self) -> bool {
        !(self is Progress)
    }
}

/// The name under which an event is sent: `progress`, `complete` or
/// `error`.
pub open spec fn event_name_of(e: CloneEventView) -> Option<Seq<char>> {
    match e {
        CloneEventView::Progress(p) => Some("progress"@),
        CloneEventView::Complete { repo, message } => Some("complete"@),
        CloneEventView::Error { message, help_steps } => Some("error"@),
    }
}

impl CloneEvent {
    /// Whether the event ends the stream.
    pub fn is_terminal(&self) -> (b: bool)
        ensures
            b == self@.terminal(),
    {
        match self {
            CloneEvent::Progress(_) => false,
            _ => true,
        }
    }

    /// The name under which the event is sent: `progress`, `complete` or
    /// `error`.
    pub fn event_name(&self) -> (name: Option<&'static str>)
        ensures
            name.deep_view() == event_name_of(self@),
    {
        match self {
            CloneEvent::Progress(_) => Some("progress"),
            CloneEvent::Complete { repo, message } => Some("complete"),
            CloneEvent::Error { message, help_steps } => Some("error"),
        }
    }
}

/// An error event without steps.
pub open spec fn plain_error(message: Seq<char>) -> CloneEventView {
    CloneEventView::Error { message, help_steps: Seq::empty() }
}

/// The one event of a stream for a clone that could not begin.
pub fn error_event(message: String, help_steps: Vec<String>) -> (e: CloneEvent)
    ensures
        e@ == (CloneEventView::Error { message: message@, help_steps: help_steps.deep_view() }),
{
    CloneEvent::Error { message, help_steps }
}

/// The one event of a stream for a clone whose URL names no repository:
/// the error's message, without steps.
pub open spec fn no_name_event() -> CloneEventView {
    plain_error(
        app_error_text(AppErrorView::BadRequest("Could not extract repository name from URL"@)),
    )
}

/// The name of the repository that a streamed clone is for, or the one
/// event of its stream where the URL names none.
pub fn clone_name(url: &str) -> (r: Result<String, CloneEvent>)
    ensures
        match repo_name_of(url@) {
            Some(name) => r is Ok && r->Ok_0@ == name,
            None => r is Err && r->Err_0@ == no_name_event(),
        },
{
    match extract_repo_name(url) {
        Ok(name) => Ok(name),
        Err(e) => {
            let help_steps: Vec<String> = Vec::new();
            assert(help_steps.deep_view() =~= Seq::<Seq<char>>::empty());
            Err(CloneEvent::Error { message: e.to_string(), help_steps })
        },
    }
}

/// The one event of a stream for a clone that cannot begin: the
/// failure's message, without steps.
pub fn setup_failed_event(failure: &CloneSetupFailure) -> (e: CloneEvent)
    ensures
        e@ == plain_error(setup_failure_text(*failure)),
{
    let help_steps: Vec<String> = Vec::new();
    assert(help_steps.deep_view() =~= Seq::<Seq<char>>::empty());
    CloneEvent::Error { message: setup_failure_message(failure), help_steps }
}

/// How the background clone ended.
#[derive(Clone, Debug, PartialEq, Eq)]
pub enum CloneOutcome {
    /// The repository was cloned.
    Cloned,
    /// The clone failed.
    Failed(CloneError),
    /// The task that ran the clone did not return, with the runtime's
    /// message.
    TaskFailed(String),
}

/// A `CloneOutcome` with its texts as sequences.
pub enum CloneOutcomeView {
    Cloned,
    Failed(CloneErrorView),
    TaskFailed(Seq<char>),
}

impl View for CloneOutcome {
    type V = CloneOutcomeView;

    open spec fn view(&self) -> CloneOutcomeView {
        match *self {
            CloneOutcome::Cloned => CloneOutcomeView::Cloned,
            CloneOutcome::Failed(e) => CloneOutcomeView::Failed(e@),
            CloneOutcome::TaskFailed(detail) => CloneOutcomeView::TaskFailed(detail@),
        }
    }
}

/// The event that reports a failed clone: the authentication failures
/// with their message and steps, the others with a prefixed message and
/// no steps.
pub open spec fn failure_event(e: CloneErrorView) -> CloneEventView {
    match e {
        CloneErrorView::SshAuthFailed { message, help_steps } => CloneEventView::Error {
            message,
            help_steps,
        },
        CloneErrorView::HttpsAuthFailed { message, help_steps } => CloneEventView::Error {
            message,
            help_steps,
        },
        CloneErrorView::NetworkError { message } => plain_error("Network error: "@ + message),
        CloneErrorView::OperationFailed { message } => plain_error("Clone failed: "@ + message),
    }
}

/// The event that reports whether the record of a cloned repository was
/// stored.
pub open spec fn saved_event(dest: Seq<char>, saved: Result<RepoView, Seq<char>>) -> CloneEventView {
    match saved {
        Ok(repo) => CloneEventView::Complete { repo, message: cloned_text(dest) },
        Err(detail) => plain_error("Failed to save repo to database: "@ + detail),
    }
}

/// Where a relay stands.
#[derive(Clone, Copy, Debug, PartialEq, Eq, Structural)]
pub enum RelayState {
    /// The clone is running; snapshots are passed on.
    Streaming,
    /// The clone succeeded; its record is being stored.
    Saving,
    /// The stream has ended.
    Done,
}

/// What a relay is told.
pub enum RelayInput {
    /// The clone reported a snapshot.
    Progress(CloneProgress),
    /// The progress channel closed and the clone returned.
    Finished(CloneOutcomeView),
    /// The store answered the insertion of the record.
    Saved(Result<RepoView, Seq<char>>),
}

/// The state after an input, and the event that the input gives rise to,
/// if any. An input that does not fit the state changes nothing and
/// gives no event.
pub open spec fn relay_step(state: RelayState, dest: Seq<char>, input: RelayInput) -> (
    RelayState,
    Option<CloneEventView>,
) {
    match (state, input) {
        (RelayState::Streaming, RelayInput::Progress(p)) => (
            RelayState::Streaming,
            Some(CloneEventView::Progress(p)),
        ),
        (RelayState::Streaming, RelayInput::Finished(CloneOutcomeView::Cloned)) => (
            RelayState::Saving,
            None,
        ),
        (RelayState::Streaming, RelayInput::Finished(CloneOutcomeView::Failed(e))) => (
            RelayState::Done,
            Some(failure_event(e)),
        ),
        (RelayState::Streaming, RelayInput::Finished(CloneOutcomeView::TaskFailed(detail))) => (
            RelayState::Done,
            Some(plain_error("Clone task panicked: "@ + detail)),
        ),
        (RelayState::Saving, RelayInput::Saved(saved)) => (
            RelayState::Done,
            Some(saved_event(dest, saved)),
        ),
        _ => (state, None),
    }
}

/// The state that a relay reaches from `state` on `inputs`.
pub open spec fn relay_state_after(state: RelayState, dest: Seq<char>, inputs: Seq<RelayInput>) -> RelayState
    decreases inputs.len(),
{
    if inputs.len() == 0 {
        state
    } else {
        relay_step(relay_state_after(state, dest, inputs.drop_last()), dest, inputs.last()).0
    }
}

/// The events that a relay emits from `state` on `inputs`, in order.
pub open spec fn relay_events(state: RelayState, dest: Seq<char>, inputs: Seq<RelayInput>) -> Seq<
    CloneEventView,
>
    decreases inputs.len(),
{
    if inputs.len() == 0 {
        Seq::empty()
    } else {
        let before = relay_events(state, dest, inputs.drop_last());
        let here = relay_state_after(state, dest, inputs.drop_last());
        match relay_step(here, dest, inputs.last()).1 {
            Some(event) => before.push(event),
            None => before,
        }
    }
}

/// The snapshots as inputs of a relay.
pub open spec fn progress_inputs(snapshots: Seq<CloneProgress>) -> Seq<RelayInput> {
    Seq::new(snapshots.len(), |i: int| RelayInput::Progress(snapshots[i]))
}

/// The snapshots as events of a stream.
pub open spec fn progress_events(snapshots: Seq<CloneProgress>) -> Seq<CloneEventView> {
    Seq::new(snapshots.len(), |i: int| CloneEventView::Progress(snapshots[i]))
}

/// The relay of one clone.
pub struct CloneRelay {
    state: RelayState,
    dest: String,
    repo_name: String,
}

/// What a relay asks of its caller when the clone has returned.
#[derive(Clone, Debug, PartialEq, Eq)]
pub enum RelayAction {
    /// Store the record of the cloned repository, and report the answer.
    InsertRepo { path: String, name: String },
    /// Send the event; it ends the stream.
    Emit(CloneEvent),
    /// Nothing: the stream had ended before.
    Nothing,
}

impl CloneRelay {
    /// Where the relay stands.
    pub closed spec fn state(&self) -> RelayState {
        self.state
    }

    /// Where the clone goes to.
    pub closed spec fn dest(&self) -> Seq<char> {
        self.dest@
    }

    /// The name of the repository.
    pub closed spec fn repo_name(&self) -> Seq<char> {
        self.repo_name@
    }

    /// The relay of a clone of the repository `repo_name` into `dest`.
    pub fn new(repo_name: String, dest: String) -> (relay: CloneRelay)
        ensures
            relay.state() == RelayState::Streaming,
            relay.dest() == dest@,
            relay.repo_name() == repo_name@,
    {
        CloneRelay { state: RelayState::Streaming, dest, repo_name }
    }

    /// Whether the stream has ended.
    pub fn is_done(&self) -> (done: bool)
        ensures
            done == (self.state() == RelayState::Done),
    {
        match self.state {
            RelayState::Done => true,
            _ => false,
        }
    }

    /// The clone reported a snapshot: while the clone runs it is passed
    /// on as a progress event.
    pub fn on_progress(&mut self, snapshot: CloneProgress) -> (event: Option<CloneEvent>)
        ensures
            final(self).dest() == old(self).dest(),
            final(self).repo_name() == old(self).repo_name(),
            (final(self).state(), event.deep_view()) == relay_step(
                old(self).state(),
                old(self).dest(),
                RelayInput::Progress(snapshot),
            ),
    {
        match self.state {
            RelayState::Streaming => Some(CloneEvent::Progress(snapshot)),
            _ => None,
        }
    }

    /// The progress channel closed and the clone returned. After a
    /// successful clone the record is to be stored; a failure ends the
    /// stream with its error event.
    pub fn on_finished(&mut self, outcome: CloneOutcome) -> (action: RelayAction)
        ensures
            final(self).dest() == old(self).dest(),
            final(self).repo_name() == old(self).repo_name(),
            final(self).state() == relay_step(
                old(self).state(),
                old(self).dest(),
                RelayInput::Finished(outcome@),
            ).0,
            match action {
                RelayAction::InsertRepo { path, name } => old(self).state() == RelayState::Streaming
                    && outcome is Cloned && path@ == old(self).dest() && name@ == old(
                    self,
                ).repo_name(),
                RelayAction::Emit(event) => relay_step(
                    old(self).state(),
                    old(self).dest(),
                    RelayInput::Finished(outcome@),
                ).1 == Some(event@),
                RelayAction::Nothing => old(self).state() != RelayState::Streaming,
            },
    {
        match self.state {
            RelayState::Streaming => {},
            _ => {
                return RelayAction::Nothing;
            },
        }
        match outcome {
            CloneOutcome::Cloned => {
                self.state = RelayState::Saving;
                RelayAction::InsertRepo { path: self.dest.clone(), name: self.repo_name.clone() }
            },
            CloneOutcome::Failed(error) => {
                self.state = RelayState::Done;
                let event = match error {
                    CloneError::SshAuthFailed { message, help_steps } => CloneEvent::Error {
                        message,
                        help_steps,
                    },
                    CloneError::HttpsAuthFailed { message, help_steps } => CloneEvent::Error {
                        message,
                        help_steps,
                    },
                    CloneError::NetworkError { message } => Self::plain(
                        concat("Network error: ", message.as_str()),
                    ),
                    CloneError::OperationFailed { message } => Self::plain(
                        concat("Clone failed: ", message.as_str()),
                    ),
                };
                RelayAction::Emit(event)
            },
            CloneOutcome::TaskFailed(detail) => {
                self.state = RelayState::Done;
                RelayAction::Emit(Self::plain(concat("Clone task panicked: ", detail.as_str())))
            },
        }
    }

    /// The store answered the insertion of the record: the stream ends
    /// with `complete` where the record is stored, with an error event
    /// where it is not.
    pub fn on_saved(&mut self, saved: Result<Repo, String>) -> (event: Option<CloneEvent>)
        ensures
            final(self).dest() == old(self).dest(),
            final(self).repo_name() == old(self).repo_name(),
            (final(self).state(), event.deep_view()) == relay_step(
                old(self).state(),
                old(self).dest(),
                RelayInput::Saved(
                    match saved {
                        Ok(repo) => Ok(repo@),
                        Err(detail) => Err(detail@),
                    },
                ),
            ),
    {
        match self.state {
            RelayState::Saving => {},
            _ => {
                return None;
            },
        }
        self.state = RelayState::Done;
        match saved {
            Ok(repo) => Some(
                CloneEvent::Complete { repo, message: concat("Cloned to ", self.dest.as_str()) },
            ),
            Err(detail) => Some(
                Self::plain(concat("Failed to save repo to database: ", detail.as_str())),
            ),
        }
    }

    fn plain(message: String) -> (e: CloneEvent)
        ensures
            e@ == plain_error(message@),
    {
        let help_steps: Vec<String> = Vec::new();
        assert(help_steps.deep_view() =~= Seq::<Seq<char>>::empty());
        CloneEvent::Error { message, help_steps }
    }
}

/// Whatever a relay is told, once it is `Done` it stays so and emits
/// nothing more.
pub proof fn lemma_done_is_final(dest: Seq<char>, inputs: Seq<RelayInput>)
    ensures
        relay_state_after(RelayState::Done, dest, inputs) == RelayState::Done,
        relay_events(RelayState::Done, dest, inputs) == Seq::<CloneEventView>::empty(),
    decreases inputs.len(),
{
    if inputs.len() > 0 {
        lemma_done_is_final(dest, inputs.drop_last());
    }
}

/// Terminality: whatever a relay is told, and in whatever order, every
/// event but the last is a progress event, and the last is the one that
/// ends the stream exactly if the relay is `Done`. So a stream holds at
/// most one terminal event, nothing follows it, and a relay that is
/// `Done` has sent exactly one.
pub proof fn lemma_terminal_event_is_last(dest: Seq<char>, inputs: Seq<RelayInput>)
    ensures
        forall|i: int|
            0 <= i < relay_events(RelayState::Streaming, dest, inputs).len() - 1 ==> !(
            #[trigger] relay_events(RelayState::Streaming, dest, inputs)[i]).terminal(),
        relay_state_after(RelayState::Streaming, dest, inputs) == RelayState::Done <==> (
            relay_events(RelayState::Streaming, dest, inputs).len() > 0 && relay_events(
                RelayState::Streaming,
                dest,
                inputs,
            ).last().terminal()),
    decreases inputs.len(),
{
    if inputs.len() > 0 {
        lemma_terminal_event_is_last(dest, inputs.drop_last());
    }
}

/// A relay that is only told of snapshots passes each on, in order, and
/// goes on streaming.
pub proof fn lemma_progress_is_relayed(dest: Seq<char>, snapshots: Seq<CloneProgress>)
    ensures
        relay_state_after(RelayState::Streaming, dest, progress_inputs(snapshots))
            == RelayState::Streaming,
        relay_events(RelayState::Streaming, dest, progress_inputs(snapshots)) == progress_events(
            snapshots,
        ),
    decreases snapshots.len(),
{
    if snapshots.len() > 0 {
        lemma_progress_is_relayed(dest, snapshots.drop_last());
        assert(progress_inputs(snapshots).drop_last() =~= progress_inputs(snapshots.drop_last()));
        assert(progress_events(snapshots) =~= progress_events(snapshots.drop_last()).push(
            CloneEventView::Progress(snapshots.last()),
        ));
    } else {
        assert(progress_events(snapshots) =~= Seq::<CloneEventView>::empty());
    }
}

/// A successful clone: the stream is the progress events, in order, and
/// then exactly one `complete` with the stored record.
pub proof fn lemma_successful_clone_stream(
    dest: Seq<char>,
    snapshots: Seq<CloneProgress>,
    repo: RepoView,
)
    ensures
        relay_events(
            RelayState::Streaming,
            dest,
            progress_inputs(snapshots).push(RelayInput::Finished(CloneOutcomeView::Cloned)).push(
                RelayInput::Saved(Ok(repo)),
            ),
        ) == progress_events(snapshots).push(
            CloneEventView::Complete { repo, message: cloned_text(dest) },
        ),
        relay_state_after(
            RelayState::Streaming,
            dest,
            progress_inputs(snapshots).push(RelayInput::Finished(CloneOutcomeView::Cloned)).push(
                RelayInput::Saved(Ok(repo)),
            ),
        ) == RelayState::Done,
{
    lemma_progress_is_relayed(dest, snapshots);
    let first = progress_inputs(snapshots);
    let second = first.push(RelayInput::Finished(CloneOutcomeView::Cloned));
    let third = second.push(RelayInput::Saved(Ok(repo)));
    assert(second.drop_last() =~= first);
    assert(third.drop_last() =~= second);
    assert(relay_state_after(RelayState::Streaming, dest, second) == RelayState::Saving);
    assert(relay_events(RelayState::Streaming, dest, second) == progress_events(snapshots));
}

/// A failed clone: the stream is the progress events, in order, and then
/// exactly one `error`; no `complete` is among its events.
pub proof fn lemma_failed_clone_stream(
    dest: Seq<char>,
    snapshots: Seq<CloneProgress>,
    error: CloneErrorView,
)
    ensures
        relay_events(
            RelayState::Streaming,
            dest,
            progress_inputs(snapshots).push(RelayInput::Finished(CloneOutcomeView::Failed(error))),
        ) == progress_events(snapshots).push(failure_event(error)),
        failure_event(error) is Error,
        forall|i: int|
            0 <= i < progress_events(snapshots).push(failure_event(error)).len() ==> !(
            #[trigger] progress_events(snapshots).push(failure_event(error))[i] is Complete),
        relay_state_after(
            RelayState::Streaming,
            dest,
            progress_inputs(snapshots).push(RelayInput::Finished(CloneOutcomeView::Failed(error))),
        ) == RelayState::Done,
{
    lemma_progress_is_relayed(dest, snapshots);
    let first = progress_inputs(snapshots);
    let second = first.push(RelayInput::Finished(CloneOutcomeView::Failed(error)));
    assert(second.drop_last() =~= first);
}

} // verus!
