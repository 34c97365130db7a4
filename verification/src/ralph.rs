//! The process orchestrator: which session runs an agent process on which
//! repository, and what has to be recorded and announced when a process
//! starts, writes a line, exits or is cancelled.
//!
//! The orchestrator owns the registry of live processes and decides; the
//! caller spawns, signals, waits, stores and broadcasts. A repository backs
//! at most one running session, and a session has at most one process.
//! A run is recorded with one terminal status, by the step that takes its
//! session out of the registry: the end of its output or the close of its
//! cancellation, whichever comes first.

use vstd::prelude::*;
use std::collections::HashMap;
use vstd::std_specs::iter::IteratorSpec;
use crate::ids::{format_uuid, uuid_text, RepoId, SessionId};
use crate::session::{next_status, OutputStream, SessionEvent, SessionStatus};
use crate::text::{concat, concat3};

verus! {

/// Seconds between the graceful and the forced termination signal.
pub const CANCEL_GRACE_SECS: u64 = 5;

/// Why a run or a cancellation was refused.
#[derive(Clone, Debug, PartialEq, Eq)]
pub enum RalphError {
    /// The repository already backs another running session.
    RepoBusy(RepoId),
    /// The session already has a process.
    SessionAlreadyRunning(SessionId),
    /// The process could not be started.
    SpawnFailed(String),
    /// The session has no process to cancel.
    NotRunning(SessionId),
    /// The agent executable is not on the search path.
    NotFound { message: String, help_steps: Vec<String> },
}

/// A `RalphError` with its texts as sequences.
pub enum RalphErrorView {
    RepoBusy(RepoId),
    SessionAlreadyRunning(SessionId),
    SpawnFailed(Seq<char>),
    NotRunning(SessionId),
    NotFound { message: Seq<char>, help_steps: Seq<Seq<char>> },
}

impl View for RalphError {
    type V = RalphErrorView;

    open spec fn view(&self) -> RalphErrorView {
        match *self {
            RalphError::RepoBusy(id) => RalphErrorView::RepoBusy(id),
            RalphError::SessionAlreadyRunning(id) => RalphErrorView::SessionAlreadyRunning(id),
            RalphError::SpawnFailed(detail) => RalphErrorView::SpawnFailed(detail@),
            RalphError::NotRunning(id) => RalphErrorView::NotRunning(id),
            RalphError::NotFound { message, help_steps } => RalphErrorView::NotFound {
                message: message@,
                help_steps: help_steps.deep_view(),
            },
        }
    }
}

/// The message of an error.
pub open spec fn ralph_error_text(e: RalphErrorView) -> Seq<char> {
    match e {
        RalphErrorView::RepoBusy(id) => "Repository "@ + uuid_text(id)
            + " already has a running ralph process"@,
        RalphErrorView::SessionAlreadyRunning(id) => "Session "@ + uuid_text(id)
            + " already has a running process"@,
        RalphErrorView::SpawnFailed(detail) => "Failed to spawn ralph process: "@ + detail,
        RalphErrorView::NotRunning(id) => "Session "@ + uuid_text(id) + " has no running process"@,
        RalphErrorView::NotFound { message, help_steps } => "ralph CLI not found: "@ + message,
    }
}

impl RalphError {
    /// The message of the error.
    pub fn to_string(&self) -> (s: String)
        ensures
            s@ == ralph_error_text(self@),
    {
        match self {
            RalphError::RepoBusy(id) => {
                let id_text = format_uuid(*id);
                concat3("Repository ", id_text.as_str(), " already has a running ralph process")
            },
            RalphError::SessionAlreadyRunning(id) => {
                let id_text = format_uuid(*id);
                concat3("Session ", id_text.as_str(), " already has a running process")
            },
            RalphError::SpawnFailed(detail) => concat(
                "Failed to spawn ralph process: ",
                detail.as_str(),
            ),
            RalphError::NotRunning(id) => {
                let id_text = format_uuid(*id);
                concat3("Session ", id_text.as_str(), " has no running process")
            },
            RalphError::NotFound { message, help_steps } => concat(
                "ralph CLI not found: ",
                message.as_str(),
            ),
        }
    }
}

/// How one of the three standard streams of a child is set up.
#[derive(Clone, Copy, Debug, PartialEq, Eq, Structural)]
pub enum StdioMode {
    /// Closed: the child reads end-of-file at once.
    Null,
    /// Captured through a pipe.
    Piped,
}

/// The command that starts the agent for a session.
#[derive(Clone, Debug, PartialEq, Eq)]
pub struct SpawnRequest {
    pub program: String,
    pub args: Vec<String>,
    pub working_dir: String,
    pub stdin: StdioMode,
    pub stdout: StdioMode,
    pub stderr: StdioMode,
    /// The child leads a new process group, so that one signal reaches it
    /// and all its descendants.
    pub new_process_group: bool,
}

/// A `SpawnRequest` with its texts as sequences.
pub struct SpawnRequestView {
    pub program: Seq<char>,
    pub args: Seq<Seq<char>>,
    pub working_dir: Seq<char>,
    pub stdin: StdioMode,
    pub stdout: StdioMode,
    pub stderr: StdioMode,
    pub new_process_group: bool,
}

impl View for SpawnRequest {
    type V = SpawnRequestView;

    open spec fn view(&self) -> SpawnRequestView {
        SpawnRequestView {
            program: self.program@,
            args: self.args.deep_view(),
            working_dir: self.working_dir@,
            stdin: self.stdin,
            stdout: self.stdout,
            stderr: self.stderr,
            new_process_group: self.new_process_group,
        }
    }
}

/// The fixed shape of the agent's invocation: `ralph run --autonomous
/// --prompt <prompt>` in the repository, input closed, both outputs
/// captured, in a process group of its own.
pub open spec fn agent_invocation(repo_path: Seq<char>, prompt: Seq<char>) -> SpawnRequestView {
    SpawnRequestView {
        program: "ralph"@,
        args: seq!["run"@, "--autonomous"@, "--prompt"@, prompt],
        working_dir: repo_path,
        stdin: StdioMode::Null,
        stdout: StdioMode::Piped,
        stderr: StdioMode::Piped,
        new_process_group: true,
    }
}

/// A started child: the caller's handle on it and its process id.
pub struct Spawned<H> {
    pub child: H,
    pub pid: Option<u32>,
}

/// Why the operating system did not start the child.
#[derive(Clone, Debug, PartialEq, Eq)]
pub enum SpawnFailure {
    /// The executable was not found.
    NotFound,
    /// Anything else, with the system's message.
    Other(String),
}

/// The four steps that the `NotFound` error offers.
pub open spec fn install_steps() -> Seq<Seq<char>> {
    seq![
        "Install ralph: cargo install ralph"@,
        "Or download from release page"@,
        "Ensure ~/.cargo/bin is in your PATH"@,
        "Restart your terminal after installation"@,
    ]
}

/// The error that a spawn failure is reported as.
pub open spec fn spawn_error(failure: SpawnFailure) -> RalphErrorView {
    match failure {
        SpawnFailure::NotFound => RalphErrorView::NotFound {
            message: "ralph CLI not found in PATH"@,
            help_steps: install_steps(),
        },
        SpawnFailure::Other(detail) => RalphErrorView::SpawnFailed(detail@),
    }
}

/// Something for the caller to carry out, in the order given.
#[derive(Clone, Debug, PartialEq, Eq)]
pub enum Effect {
    /// Store the session's status.
    PersistStatus { session_id: SessionId, status: SessionStatus },
    /// Announce the session's status to its subscribers.
    BroadcastStatus { session_id: SessionId, status: SessionStatus },
    /// Append one line of output to the session's log.
    PersistOutput { session_id: SessionId, stream: OutputStream, content: String },
    /// Send one line of output to the session's subscribers.
    BroadcastOutput { session_id: SessionId, stream: OutputStream, content: String },
}

/// An `Effect` with its text as a sequence.
pub enum EffectView {
    PersistStatus { session_id: SessionId, status: SessionStatus },
    BroadcastStatus { session_id: SessionId, status: SessionStatus },
    PersistOutput { session_id: SessionId, stream: OutputStream, content: Seq<char> },
    BroadcastOutput { session_id: SessionId, stream: OutputStream, content: Seq<char> },
}

impl View for Effect {
    type V = EffectView;

    open spec fn view(&self) -> EffectView {
        match *self {
            Effect::PersistStatus { session_id, status } => EffectView::PersistStatus {
                session_id,
                status,
            },
            Effect::BroadcastStatus { session_id, status } => EffectView::BroadcastStatus {
                session_id,
                status,
            },
            Effect::PersistOutput { session_id, stream, content } => EffectView::PersistOutput {
                session_id,
                stream,
                content: content@,
            },
            Effect::BroadcastOutput { session_id, stream, content } => EffectView::BroadcastOutput {
                session_id,
                stream,
                content: content@,
            },
        }
    }
}

impl DeepView for Effect {
    type V = EffectView;

    open spec fn deep_view(&self) -> EffectView {
        self@
    }
}

/// Recording a status: first stored, then announced.
pub open spec fn status_effects(session_id: SessionId, status: SessionStatus) -> Seq<EffectView> {
    seq![
        EffectView::PersistStatus { session_id, status },
        EffectView::BroadcastStatus { session_id, status },
    ]
}

/// Relaying one line: first stored, then sent.
pub open spec fn line_effects(session_id: SessionId, stream: OutputStream, content: Seq<char>) -> Seq<
    EffectView,
> {
    seq![
        EffectView::PersistOutput { session_id, stream, content },
        EffectView::BroadcastOutput { session_id, stream, content },
    ]
}

/// How many bytes of a line, as it was read up to and with its line feed,
/// are its content: all but the line feed at its end and a carriage
/// return before that. A last line without a line feed is all content.
pub open spec fn content_len(line: Seq<u8>) -> int {
    if line.len() > 0 && line.last() == 10u8 {
        if line.len() > 1 && line[line.len() - 2] == 13u8 {
            line.len() - 2
        } else {
            line.len() - 1
        }
    } else {
        line.len() as int
    }
}

/// How many bytes of a line as it was read are its content.
pub fn line_content_len(line: &Vec<u8>) -> (n: usize)
    ensures
        n == content_len(line@),
{
    let len: usize = line.len();
    if len > 0 && line[len - 1] == 10u8 {
        if len > 1 && line[len - 2] == 13u8 {
            len - 2
        } else {
            len - 1
        }
    } else {
        len
    }
}

/// One line that a process wrote, with the stream it came from.
#[derive(Clone, Debug, PartialEq, Eq)]
pub struct OutputLine {
    pub stream: OutputStream,
    pub content: String,
}

impl View for OutputLine {
    type V = (OutputStream, Seq<char>);

    open spec fn view(&self) -> (OutputStream, Seq<char>) {
        (self.stream, self.content@)
    }
}

impl DeepView for OutputLine {
    type V = (OutputStream, Seq<char>);

    open spec fn deep_view(&self) -> (OutputStream, Seq<char>) {
        self@
    }
}

/// What relaying `lines`, in the order in which they were read, asks for:
/// the two effects of each line, line after line.
pub open spec fn relay_effects(session_id: SessionId, lines: Seq<(OutputStream, Seq<char>)>) -> Seq<
    EffectView,
>
    decreases lines.len(),
{
    if lines.len() == 0 {
        Seq::empty()
    } else {
        relay_effects(session_id, lines.drop_last()).push(
            EffectView::PersistOutput {
                session_id,
                stream: lines.last().0,
                content: lines.last().1,
            },
        ).push(
            EffectView::BroadcastOutput {
                session_id,
                stream: lines.last().0,
                content: lines.last().1,
            },
        )
    }
}

/// The lines of one stream among `lines`, in their order.
pub open spec fn lines_of(lines: Seq<(OutputStream, Seq<char>)>, stream: OutputStream) -> Seq<
    Seq<char>,
>
    decreases lines.len(),
{
    if lines.len() == 0 {
        Seq::empty()
    } else if lines.last().0 == stream {
        lines_of(lines.drop_last(), stream).push(lines.last().1)
    } else {
        lines_of(lines.drop_last(), stream)
    }
}

/// The lines that `effects` store for one session and stream, in their
/// order.
pub open spec fn persisted_lines(
    effects: Seq<EffectView>,
    session_id: SessionId,
    stream: OutputStream,
) -> Seq<Seq<char>>
    decreases effects.len(),
{
    if effects.len() == 0 {
        Seq::empty()
    } else {
        let before = persisted_lines(effects.drop_last(), session_id, stream);
        match effects.last() {
            EffectView::PersistOutput { session_id: s, stream: t, content } => if s == session_id
                && t == stream {
                before.push(content)
            } else {
                before
            },
            _ => before,
        }
    }
}

/// The lines that `effects` send to the subscribers of one session for
/// one stream, in their order.
pub open spec fn broadcast_lines(
    effects: Seq<EffectView>,
    session_id: SessionId,
    stream: OutputStream,
) -> Seq<Seq<char>>
    decreases effects.len(),
{
    if effects.len() == 0 {
        Seq::empty()
    } else {
        let before = broadcast_lines(effects.drop_last(), session_id, stream);
        match effects.last() {
            EffectView::BroadcastOutput { session_id: s, stream: t, content } => if s == session_id
                && t == stream {
                before.push(content)
            } else {
                before
            },
            _ => before,
        }
    }
}

/// Output fidelity: of the lines read, in whatever way the two streams
/// interleave, exactly those of a stream are stored under that stream,
/// once each and in the order in which the stream gave them; the same
/// holds of what is sent to the subscribers.
pub proof fn lemma_output_fidelity(
    session_id: SessionId,
    lines: Seq<(OutputStream, Seq<char>)>,
    stream: OutputStream,
)
    ensures
        persisted_lines(relay_effects(session_id, lines), session_id, stream) == lines_of(
            lines,
            stream,
        ),
        broadcast_lines(relay_effects(session_id, lines), session_id, stream) == lines_of(
            lines,
            stream,
        ),
    decreases lines.len(),
{
    if lines.len() > 0 {
        lemma_output_fidelity(session_id, lines.drop_last(), stream);
        let before = relay_effects(session_id, lines.drop_last());
        let stored = EffectView::PersistOutput {
            session_id,
            stream: lines.last().0,
            content: lines.last().1,
        };
        let sent = EffectView::BroadcastOutput {
            session_id,
            stream: lines.last().0,
            content: lines.last().1,
        };
        let all = before.push(stored).push(sent);
        assert(all.drop_last() =~= before.push(stored));
        assert(before.push(stored).drop_last() =~= before);
        assert(persisted_lines(all, session_id, stream) == persisted_lines(
            before.push(stored),
            session_id,
            stream,
        ));
        assert(broadcast_lines(before.push(stored), session_id, stream) == broadcast_lines(
            before,
            session_id,
            stream,
        ));
    }
}

/// Exclusivity: two running sessions never share a repository.
pub proof fn lemma_exclusivity<H>(manager: &RalphManager<H>, a: SessionId, b: SessionId)
    requires
        manager.wf(),
        manager@.contains_key(a),
        manager@.contains_key(b),
        manager@[a] == manager@[b],
    ensures
        a == b,
{
}

/// A session that has left the registry is not running, its repository is
/// free unless another session occupies it, and every other session runs
/// on as before.
pub proof fn lemma_released_session_is_gone<H>(
    before: &RalphManager<H>,
    after: &RalphManager<H>,
    session_id: SessionId,
)
    requires
        before.wf(),
        after.released(before, session_id),
    ensures
        after.wf(),
        !after@.contains_key(session_id),
        before@.contains_key(session_id) ==> !after.occupants().contains_key(before@[session_id]),
        forall|s: SessionId|
            s != session_id ==> (after@.contains_key(s) <==> before@.contains_key(s)) && (
            before@.contains_key(s) ==> after@[s] == before@[s]),
{
}

/// A repository is busy exactly if some running session works in it, and
/// then that session is its occupant.
pub proof fn lemma_busy_means_occupied<H>(manager: &RalphManager<H>, repo_id: RepoId)
    requires
        manager.wf(),
    ensures
        manager.occupants().contains_key(repo_id) <==> exists|s: SessionId|
            manager@.contains_key(s) && #[trigger] manager@[s] == repo_id,
        manager.occupants().contains_key(repo_id) ==> manager@.contains_key(
            manager.occupants()[repo_id],
        ) && manager@[manager.occupants()[repo_id]] == repo_id,
{
    if manager.occupants().contains_key(repo_id) {
        let s = manager.occupants()[repo_id];
        assert(manager@.contains_key(s) && manager@[s] == repo_id);
    }
}

/// The final status for what the wait on the process gave: `Completed` for
/// a zero exit, `Error` for a non-zero or abnormal one and where no exit
/// status could be had.
pub open spec fn final_status_of(exit_success: Option<bool>) -> SessionStatus {
    if exit_success == Some(true) {
        SessionStatus::Completed
    } else {
        SessionStatus::Error
    }
}

/// The event that an exit is for the session: a successful exit for a
/// zero status, a failed one for anything else.
pub open spec fn exit_event(exit_success: Option<bool>) -> SessionEvent {
    if exit_success == Some(true) {
        SessionEvent::ExitSuccess
    } else {
        SessionEvent::ExitFailure
    }
}

/// A live process with the repository it works in.
pub struct ProcessHandle<H> {
    pub child: H,
    pub pid: Option<u32>,
    pub repo_id: RepoId,
    /// A cancellation of the session is under way: whoever takes the
    /// session out of the registry records `Cancelled`.
    pub cancelling: bool,
}

/// How the end of a process's output found its session in the registry.
#[derive(Clone, Copy, Debug, PartialEq, Eq, Structural)]
pub enum Departure {
    /// The session had left the registry before: the close of its
    /// cancellation took it out and recorded its end.
    Gone,
    /// The session was registered and a cancellation of it was under way.
    Cancelled,
    /// The session was registered and no cancellation was under way: the
    /// process ran to its own end.
    Exited,
}

/// How the end of the output found the session, from what the registry
/// gave up for it.
pub open spec fn departure_of<H>(handle: Option<ProcessHandle<H>>) -> Departure {
    match handle {
        None => Departure::Gone,
        Some(h) => if h.cancelling {
            Departure::Cancelled
        } else {
            Departure::Exited
        },
    }
}

/// The terminal status that the end of the output gives a session: none
/// for a session that had left the registry, `Cancelled` where a
/// cancellation was under way, else the final status of the exit.
pub open spec fn exit_status(departure: Departure, exit_success: Option<bool>) -> Option<
    SessionStatus,
> {
    match departure {
        Departure::Gone => None,
        Departure::Cancelled => Some(SessionStatus::Cancelled),
        Departure::Exited => Some(final_status_of(exit_success)),
    }
}

/// What is recorded at the end of the output: the terminal status, stored
/// and then announced, and nothing for a session that had left the
/// registry.
pub open spec fn exit_record(
    session_id: SessionId,
    departure: Departure,
    exit_success: Option<bool>,
) -> Seq<EffectView> {
    match exit_status(departure, exit_success) {
        Some(status) => status_effects(session_id, status),
        None => Seq::empty(),
    }
}

/// The statuses that the orchestrator records are those of the session's
/// state machine: `Running` for a run that starts from rest; at the end
/// of the output `Cancelled` where a cancellation was under way and else
/// the final status of the exit; nothing for a session that has its
/// terminal status already, as the machine takes no exit and no
/// cancellation there.
pub proof fn lemma_recorded_statuses_follow_the_machine(
    before: SessionStatus,
    exit_success: Option<bool>,
)
    ensures
        before != SessionStatus::Running ==> next_status(before, SessionEvent::Run) == Some(
            SessionStatus::Running,
        ),
        exit_status(Departure::Exited, exit_success) == next_status(
            SessionStatus::Running,
            exit_event(exit_success),
        ),
        exit_status(Departure::Cancelled, exit_success) == next_status(
            SessionStatus::Running,
            SessionEvent::Cancel,
        ),
        before.terminal() ==> exit_status(Departure::Gone, exit_success) == next_status(
            before,
            exit_event(exit_success),
        ) && next_status(before, SessionEvent::Cancel) is None,
{
}

/// What a cancellation has to do outside the registry.
#[derive(Clone, Copy, Debug, PartialEq, Eq, Structural)]
pub struct CancelPlan {
    pub session_id: SessionId,
    pub repo_id: RepoId,
    /// The process group to signal, where the process id is known.
    pub pid: Option<u32>,
    /// How long to wait after the graceful signal before forcing.
    pub grace_secs: u64,
}

/// The registry of live processes and the decisions around it.
pub struct RalphManager<H> {
    processes: HashMap<SessionId, ProcessHandle<H>>,
    active_repos: HashMap<RepoId, SessionId>,
}

impl<H> View for RalphManager<H> {
    type V = Map<SessionId, RepoId>;

    /// The running sessions, each with the repository it occupies.
    open spec fn view(&self) -> Map<SessionId, RepoId> {
        Map::new(
            |s: SessionId| self.handles().contains_key(s),
            |s: SessionId| self.handles()[s].repo_id,
        )
    }
}

impl<H> RalphManager<H> {
    /// The live process of each running session.
    pub closed spec fn handles(&self) -> Map<SessionId, ProcessHandle<H>> {
        self.processes@
    }

    /// The session that occupies each busy repository.
    pub closed spec fn occupants(&self) -> Map<RepoId, SessionId> {
        self.active_repos@
    }

    /// The two maps mirror each other: a session runs on a repository
    /// exactly if that repository is occupied by that session.
    pub open spec fn wf(&self) -> bool {
        &&& forall|s: SessionId| #[trigger]
            self.handles().contains_key(s) ==> {
                &&& self.occupants().contains_key(self.handles()[s].repo_id)
                &&& self.occupants()[self.handles()[s].repo_id] == s
            }
        &&& forall|r: RepoId| #[trigger]
            self.occupants().contains_key(r) ==> {
                &&& self.handles().contains_key(self.occupants()[r])
                &&& self.handles()[self.occupants()[r]].repo_id == r
            }
    }

    /// The registry after `session_id` left it.
    pub open spec fn released(&self, before: &Self, session_id: SessionId) -> bool {
        &&& self.handles() == before.handles().remove(session_id)
        &&& self.occupants() == if before.handles().contains_key(session_id) {
            before.occupants().remove(before.handles()[session_id].repo_id)
        } else {
            before.occupants()
        }
    }

    /// Whether a run of `session_id` on `repo_id` may start: the session
    /// has no process and no session occupies the repository.
    pub open spec fn admits(&self, session_id: SessionId, repo_id: RepoId) -> bool {
        !self.handles().contains_key(session_id) && !self.occupants().contains_key(repo_id)
    }

    /// A cancellation of the session is under way.
    pub open spec fn cancelling(&self, session_id: SessionId) -> bool {
        self.handles().contains_key(session_id) && self.handles()[session_id].cancelling
    }

    /// How the end of its output would find the session.
    pub open spec fn departure(&self, session_id: SessionId) -> Departure {
        if self.handles().contains_key(session_id) {
            departure_of(Some(self.handles()[session_id]))
        } else {
            Departure::Gone
        }
    }

    /// The registry after the registered session `session_id` was marked
    /// for cancellation: nothing else of it changed.
    pub open spec fn marked(&self, before: &Self, session_id: SessionId) -> bool {
        &&& before.handles().contains_key(session_id)
        &&& self.handles() == before.handles().insert(
            session_id,
            ProcessHandle {
                child: before.handles()[session_id].child,
                pid: before.handles()[session_id].pid,
                repo_id: before.handles()[session_id].repo_id,
                cancelling: true,
            },
        )
        &&& self.occupants() == before.occupants()
    }

    /// What `spawn_finished` does for a session that may run.
    pub open spec fn settled(
        &self,
        before: &Self,
        session_id: SessionId,
        repo_id: RepoId,
        outcome: Result<Spawned<H>, SpawnFailure>,
        result: Result<Vec<Effect>, RalphError>,
    ) -> bool {
        match outcome {
            Ok(spawned) => {
                &&& result is Ok
                &&& result->Ok_0.deep_view() == status_effects(session_id, SessionStatus::Running)
                &&& self.handles() == before.handles().insert(
                    session_id,
                    ProcessHandle {
                        child: spawned.child,
                        pid: spawned.pid,
                        repo_id,
                        cancelling: false,
                    },
                )
                &&& self.occupants() == before.occupants().insert(repo_id, session_id)
            },
            Err(failure) => {
                &&& result is Err
                &&& result->Err_0@ == spawn_error(failure)
                &&& *self == *before
            },
        }
    }

    /// An empty registry.
    pub fn new() -> (m: Self)
        ensures
            m.wf(),
            m.handles() == Map::<SessionId, ProcessHandle<H>>::empty(),
            m.occupants() == Map::<RepoId, SessionId>::empty(),
    {
        RalphManager { processes: HashMap::new(), active_repos: HashMap::new() }
    }

    /// Whether a session runs on the repository.
    pub fn is_repo_busy(&self, repo_id: RepoId) -> (b: bool)
        ensures
            b == self.occupants().contains_key(repo_id),
    {
        self.active_repos.contains_key(&repo_id)
    }

    /// The session that runs on the repository, if one does.
    pub fn get_active_session_for_repo(&self, repo_id: RepoId) -> (r: Option<SessionId>)
        ensures
            r == if self.occupants().contains_key(repo_id) {
                Some(self.occupants()[repo_id])
            } else {
                None
            },
    {
        match self.active_repos.get(&repo_id) {
            Some(session_id) => Some(*session_id),
            None => None,
        }
    }

    /// Whether the session has a live process.
    pub fn is_session_running(&self, session_id: SessionId) -> (b: bool)
        ensures
            b == self.handles().contains_key(session_id),
    {
        self.processes.contains_key(&session_id)
    }

    /// The running sessions, each once, in no particular order.
    pub fn active_sessions(&self) -> (v: Vec<SessionId>)
        ensures
            v@.to_set() == self.handles().dom(),
            v@.no_duplicates(),
    {
        let mut v: Vec<SessionId> = Vec::new();
        let keys = self.processes.keys();
        let ghost all: Seq<SessionId> = IteratorSpec::remaining(&keys).unref();
        for k in it: keys
            invariant
                it.seq().unref() == all,
                all.to_set() == self.processes@.dom(),
                it.seq().no_duplicates(),
                v@ == all.take(it.index() as int),
        {
            v.push(*k);
        }
        assert(v@ =~= all);
        v
    }

    /// Whether a run of `session_id` on `repo_id` may start: the session
    /// must not be running, and no other session may occupy the
    /// repository. Nothing changes.
    pub fn check_run(&self, session_id: SessionId, repo_id: RepoId) -> (r: Result<(), RalphError>)
        ensures
            self.handles().contains_key(session_id) ==> r == Err::<(), RalphError>(
                RalphError::SessionAlreadyRunning(session_id),
            ),
            !self.handles().contains_key(session_id) && self.occupants().contains_key(repo_id)
                ==> r == Err::<(), RalphError>(RalphError::RepoBusy(repo_id)),
            !self.handles().contains_key(session_id) && !self.occupants().contains_key(repo_id)
                ==> r is Ok,
    {
        if self.processes.contains_key(&session_id) {
            return Err(RalphError::SessionAlreadyRunning(session_id));
        }
        if self.active_repos.contains_key(&repo_id) {
            return Err(RalphError::RepoBusy(repo_id));
        }
        Ok(())
    }

    /// Admits a run and hands out the command to spawn. A session that
    /// has a process is refused with `SessionAlreadyRunning`, a
    /// repository that is occupied with `RepoBusy`, and a refusal carries
    /// no command: there is one to spawn only where the run may start.
    /// Nothing changes.
    pub fn begin_run(
        &self,
        session_id: SessionId,
        repo_id: RepoId,
        repo_path: &str,
        prompt: &str,
    ) -> (r: Result<SpawnRequest, RalphError>)
        ensures
            self.handles().contains_key(session_id) ==> r == Err::<SpawnRequest, RalphError>(
                RalphError::SessionAlreadyRunning(session_id),
            ),
            !self.handles().contains_key(session_id) && self.occupants().contains_key(repo_id)
                ==> r == Err::<SpawnRequest, RalphError>(RalphError::RepoBusy(repo_id)),
            self.admits(session_id, repo_id) ==> r is Ok && r->Ok_0@ == agent_invocation(
                repo_path@,
                prompt@,
            ),
    {
        match self.check_run(session_id, repo_id) {
            Err(e) => Err(e),
            Ok(()) => Ok(Self::spawn_request(repo_path, prompt)),
        }
    }

    /// The command that runs the agent on `prompt` in the repository at
    /// `repo_path`.
    fn spawn_request(repo_path: &str, prompt: &str) -> (req: SpawnRequest)
        ensures
            req@ == agent_invocation(repo_path@, prompt@),
    {
        let mut args: Vec<String> = Vec::new();
        args.push(String::from_str("run"));
        args.push(String::from_str("--autonomous"));
        args.push(String::from_str("--prompt"));
        args.push(String::from_str(prompt));
        assert(args.deep_view() =~= agent_invocation(repo_path@, prompt@).args);
        SpawnRequest {
            program: String::from_str("ralph"),
            args,
            working_dir: String::from_str(repo_path),
            stdin: StdioMode::Null,
            stdout: StdioMode::Piped,
            stderr: StdioMode::Piped,
            new_process_group: true,
        }
    }

    /// The error that a failed spawn is reported as: the missing
    /// executable with the steps that install it, anything else with the
    /// system's message.
    pub fn spawn_failed(failure: SpawnFailure) -> (e: RalphError)
        ensures
            e@ == spawn_error(failure),
    {
        match failure {
            SpawnFailure::NotFound => {
                let mut help_steps: Vec<String> = Vec::new();
                help_steps.push(String::from_str("Install ralph: cargo install ralph"));
                help_steps.push(String::from_str("Or download from release page"));
                help_steps.push(String::from_str("Ensure ~/.cargo/bin is in your PATH"));
                help_steps.push(String::from_str("Restart your terminal after installation"));
                assert(help_steps.deep_view() =~= install_steps());
                RalphError::NotFound {
                    message: String::from_str("ralph CLI not found in PATH"),
                    help_steps,
                }
            },
            SpawnFailure::Other(detail) => RalphError::SpawnFailed(detail),
        }
    }

    /// Storing and announcing `status` for the session, in that order.
    pub fn record_status(session_id: SessionId, status: SessionStatus) -> (effects: Vec<Effect>)
        ensures
            effects.deep_view() == status_effects(session_id, status),
    {
        let mut effects: Vec<Effect> = Vec::new();
        effects.push(Effect::PersistStatus { session_id, status });
        effects.push(Effect::BroadcastStatus { session_id, status });
        assert(effects.deep_view() =~= status_effects(session_id, status));
        effects
    }

    /// Takes in what the spawn gave. A session that may not run is
    /// refused as by `check_run`. Otherwise a started child is registered
    /// for the session and the repository, and `Running` is to be stored
    /// and announced; a failed spawn is reported and changes nothing.
    pub fn spawn_finished(
        &mut self,
        session_id: SessionId,
        repo_id: RepoId,
        outcome: Result<Spawned<H>, SpawnFailure>,
    ) -> (r: Result<Vec<Effect>, RalphError>)
        requires
            old(self).wf(),
        ensures
            final(self).wf(),
            old(self).handles().contains_key(session_id) ==> *final(self) == *old(self) && r
                == Err::<Vec<Effect>, RalphError>(RalphError::SessionAlreadyRunning(session_id)),
            !old(self).handles().contains_key(session_id) && old(self).occupants().contains_key(
                repo_id,
            ) ==> *final(self) == *old(self) && r == Err::<Vec<Effect>, RalphError>(
                RalphError::RepoBusy(repo_id),
            ),
            !old(self).handles().contains_key(session_id) && !old(self).occupants().contains_key(
                repo_id,
            ) ==> final(self).settled(old(self), session_id, repo_id, outcome, r),
    {
        if self.processes.contains_key(&session_id) {
            return Err(RalphError::SessionAlreadyRunning(session_id));
        }
        if self.active_repos.contains_key(&repo_id) {
            return Err(RalphError::RepoBusy(repo_id));
        }
        match outcome {
            Ok(spawned) => {
                self.processes.insert(
                    session_id,
                    ProcessHandle {
                        child: spawned.child,
                        pid: spawned.pid,
                        repo_id,
                        cancelling: false,
                    },
                );
                self.active_repos.insert(repo_id, session_id);
                Ok(Self::record_status(session_id, SessionStatus::Running))
            },
            Err(failure) => Err(Self::spawn_failed(failure)),
        }
    }

    /// Starts the agent for a session: checks that the session and its
    /// repository are free, and only then has `spawn` start the process
    /// with the fixed invocation; what `spawn` gives is taken in as by
    /// `spawn_finished`. A refusal changes nothing and spawns nothing:
    /// the caller licenses a call of `spawn` only for a run that may
    /// start, so none can be made for a run that is refused.
    pub fn run<F: FnOnce(SpawnRequest) -> Result<Spawned<H>, SpawnFailure>>(
        &mut self,
        session_id: SessionId,
        repo_id: RepoId,
        repo_path: &str,
        prompt: &str,
        spawn: F,
    ) -> (r: Result<Vec<Effect>, RalphError>)
        requires
            old(self).wf(),
            old(self).admits(session_id, repo_id) ==> forall|req: SpawnRequest|
                req@ == agent_invocation(repo_path@, prompt@) ==> #[trigger] spawn.requires((req,)),
        ensures
            final(self).wf(),
            old(self).handles().contains_key(session_id) ==> *final(self) == *old(self) && r
                == Err::<Vec<Effect>, RalphError>(RalphError::SessionAlreadyRunning(session_id)),
            !old(self).handles().contains_key(session_id) && old(self).occupants().contains_key(
                repo_id,
            ) ==> *final(self) == *old(self) && r == Err::<Vec<Effect>, RalphError>(
                RalphError::RepoBusy(repo_id),
            ),
            old(self).admits(session_id, repo_id) ==> exists|
                req: SpawnRequest,
                outcome: Result<Spawned<H>, SpawnFailure>,
            |
                req@ == agent_invocation(repo_path@, prompt@) && #[trigger] spawn.ensures(
                    (req,),
                    outcome,
                ) && final(self).settled(old(self), session_id, repo_id, outcome, r),
    {
        match self.begin_run(session_id, repo_id, repo_path, prompt) {
            Err(e) => Err(e),
            Ok(req) => {
                let ghost sent = req;
                let outcome = spawn(req);
                let ghost got = outcome;
                let r = self.spawn_finished(session_id, repo_id, outcome);
                assert(spawn.ensures((sent,), got));
                r
            },
        }
    }

    /// Relaying one line of a process's output: it is stored under its
    /// stream's tag, then sent to the subscribers.
    pub fn output_line(session_id: SessionId, stream: OutputStream, line: &str) -> (effects: Vec<
        Effect,
    >)
        ensures
            effects.deep_view() == line_effects(session_id, stream, line@),
    {
        let mut effects: Vec<Effect> = Vec::new();
        effects.push(Effect::PersistOutput { session_id, stream, content: String::from_str(line) });
        effects.push(
            Effect::BroadcastOutput { session_id, stream, content: String::from_str(line) },
        );
        assert(effects.deep_view() =~= line_effects(session_id, stream, line@));
        effects
    }

    /// Relaying the lines of a process in the order in which they were
    /// read: each is stored, then sent, before the next one is taken up.
    pub fn relay_output(session_id: SessionId, lines: &Vec<OutputLine>) -> (effects: Vec<Effect>)
        ensures
            effects.deep_view() == relay_effects(session_id, lines.deep_view()),
    {
        let mut effects: Vec<Effect> = Vec::new();
        let mut i: usize = 0;
        assert(lines.deep_view().take(0) =~= Seq::empty());
        assert(effects.deep_view() =~= Seq::empty());
        while i < lines.len()
            invariant
                i <= lines.len(),
                effects.deep_view() == relay_effects(session_id, lines.deep_view().take(i as int)),
            decreases lines.len() - i,
        {
            let ghost before = effects.deep_view();
            let line = &lines[i];
            effects.push(
                Effect::PersistOutput {
                    session_id,
                    stream: line.stream,
                    content: line.content.clone(),
                },
            );
            effects.push(
                Effect::BroadcastOutput {
                    session_id,
                    stream: line.stream,
                    content: line.content.clone(),
                },
            );
            proof {
                let taken = lines.deep_view().take(i + 1);
                assert(taken.drop_last() =~= lines.deep_view().take(i as int));
                assert(taken.last() == lines[i as int]@);
                assert(effects.deep_view() =~= before.push(
                    EffectView::PersistOutput {
                        session_id,
                        stream: line.stream,
                        content: line.content@,
                    },
                ).push(
                    EffectView::BroadcastOutput {
                        session_id,
                        stream: line.stream,
                        content: line.content@,
                    },
                ));
            }
            i += 1;
        }
        assert(lines.deep_view().take(lines.len() as int) =~= lines.deep_view());
        effects
    }

    /// The final status for what the wait on the process gave.
    pub fn final_status(exit_success: Option<bool>) -> (status: SessionStatus)
        ensures
            status == final_status_of(exit_success),
            status.terminal(),
    {
        match exit_success {
            Some(true) => SessionStatus::Completed,
            _ => SessionStatus::Error,
        }
    }

    /// Both output streams have ended: the session leaves the registry
    /// and frees its repository. The caller gets the process to wait on;
    /// `None` where the session was not registered any more. What was
    /// given up says how the session was found, and with that what
    /// `exit_effects` records.
    pub fn handle_process_exit(&mut self, session_id: SessionId) -> (handle: Option<
        ProcessHandle<H>,
    >)
        requires
            old(self).wf(),
        ensures
            final(self).wf(),
            final(self).released(old(self), session_id),
            handle == if old(self).handles().contains_key(session_id) {
                Some(old(self).handles()[session_id])
            } else {
                None
            },
            departure_of(handle) == old(self).departure(session_id),
    {
        let removed = self.processes.remove(&session_id);
        match removed {
            Some(handle) => {
                self.active_repos.remove(&handle.repo_id);
                Some(handle)
            },
            None => None,
        }
    }

    /// How the end of the output found the session, from what
    /// `handle_process_exit` gave up for it.
    pub fn departure_from(handle: &Option<ProcessHandle<H>>) -> (departure: Departure)
        ensures
            departure == departure_of(*handle),
    {
        match handle {
            None => Departure::Gone,
            Some(h) => if h.cancelling {
                Departure::Cancelled
            } else {
                Departure::Exited
            },
        }
    }

    /// What to record once the wait on an exited process has returned. A
    /// session that was registered until then gets its terminal status,
    /// stored and then announced: `Cancelled` where a cancellation was
    /// under way, else the final status of the exit. For a session that
    /// had left the registry before, nothing is recorded: it has its
    /// terminal status already.
    pub fn exit_effects(
        session_id: SessionId,
        departure: Departure,
        exit_success: Option<bool>,
    ) -> (effects: Vec<Effect>)
        ensures
            effects.deep_view() == exit_record(session_id, departure, exit_success),
    {
        match departure {
            Departure::Gone => Self::nothing(),
            Departure::Cancelled => Self::record_status(session_id, SessionStatus::Cancelled),
            Departure::Exited => Self::record_status(session_id, Self::final_status(exit_success)),
        }
    }

    fn nothing() -> (effects: Vec<Effect>)
        ensures
            effects.deep_view() == Seq::<EffectView>::empty(),
    {
        let effects: Vec<Effect> = Vec::new();
        assert(effects.deep_view() =~= Seq::<EffectView>::empty());
        effects
    }

    /// Opens a cancellation. A session without a process is refused with
    /// `NotRunning`, and nothing changes. A running one is marked: from
    /// now on its end is recorded as `Cancelled`. The plan names the
    /// process group to signal and the grace period.
    pub fn cancel(&mut self, session_id: SessionId) -> (r: Result<CancelPlan, RalphError>)
        requires
            old(self).wf(),
        ensures
            final(self).wf(),
            old(self).handles().contains_key(session_id) ==> final(self).marked(old(self), session_id)
                && r == Ok::<CancelPlan, RalphError>(
                CancelPlan {
                    session_id,
                    repo_id: old(self).handles()[session_id].repo_id,
                    pid: old(self).handles()[session_id].pid,
                    grace_secs: CANCEL_GRACE_SECS,
                },
            ),
            !old(self).handles().contains_key(session_id) ==> *final(self) == *old(self) && r
                == Err::<CancelPlan, RalphError>(RalphError::NotRunning(session_id)),
    {
        if !self.processes.contains_key(&session_id) {
            return Err(RalphError::NotRunning(session_id));
        }
        match self.processes.remove(&session_id) {
            Some(handle) => {
                let plan = CancelPlan {
                    session_id,
                    repo_id: handle.repo_id,
                    pid: handle.pid,
                    grace_secs: CANCEL_GRACE_SECS,
                };
                self.processes.insert(
                    session_id,
                    ProcessHandle {
                        child: handle.child,
                        pid: handle.pid,
                        repo_id: handle.repo_id,
                        cancelling: true,
                    },
                );
                assert(self.handles() =~= old(self).handles().insert(
                    session_id,
                    ProcessHandle {
                        child: old(self).handles()[session_id].child,
                        pid: old(self).handles()[session_id].pid,
                        repo_id: old(self).handles()[session_id].repo_id,
                        cancelling: true,
                    },
                ));
                Ok(plan)
            },
            None => Err(RalphError::NotRunning(session_id)),
        }
    }

    /// After the grace period: whether the forced signal is due. It is
    /// where the graceful one was sent and the session is still
    /// registered for its cancellation.
    pub fn needs_force_stop(&self, plan: &CancelPlan) -> (force: bool)
        ensures
            force == (plan.pid is Some && self.cancelling(plan.session_id)),
    {
        plan.pid.is_some() && self.is_cancelling(plan.session_id)
    }

    /// Whether a cancellation of the session is under way.
    pub fn is_cancelling(&self, session_id: SessionId) -> (b: bool)
        ensures
            b == self.cancelling(session_id),
    {
        match self.processes.get(&session_id) {
            Some(handle) => handle.cancelling,
            None => false,
        }
    }

    /// Closes a cancellation. Where the session is still registered for
    /// it, the session leaves the registry and frees its repository,
    /// `Cancelled` is to be stored and announced, and the caller gets the
    /// process. Where the end of the output has taken the session out
    /// already, its end is recorded: nothing changes and nothing more is
    /// recorded.
    pub fn finish_cancel(&mut self, plan: &CancelPlan) -> (r: (Option<ProcessHandle<H>>, Vec<Effect>))
        requires
            old(self).wf(),
        ensures
            final(self).wf(),
            old(self).cancelling(plan.session_id) ==> final(self).released(
                old(self),
                plan.session_id,
            ) && r.0 == Some(old(self).handles()[plan.session_id]) && r.1.deep_view()
                == status_effects(plan.session_id, SessionStatus::Cancelled),
            !old(self).cancelling(plan.session_id) ==> *final(self) == *old(self) && r.0 is None
                && r.1.deep_view() == Seq::<EffectView>::empty(),
    {
        if self.is_cancelling(plan.session_id) {
            let handle = self.handle_process_exit(plan.session_id);
            (handle, Self::record_status(plan.session_id, SessionStatus::Cancelled))
        } else {
            (None, Self::nothing())
        }
    }
}

/// One terminal status for each run: once a session has left the
/// registry, the end of its output finds it gone and records nothing, and
/// no cancellation of it is under way, so the close of one records
/// nothing either.
pub proof fn lemma_released_session_records_nothing<H>(
    before: &RalphManager<H>,
    after: &RalphManager<H>,
    session_id: SessionId,
    exit_success: Option<bool>,
)
    requires
        before.wf(),
        after.released(before, session_id),
    ensures
        after.departure(session_id) == Departure::Gone,
        exit_record(session_id, after.departure(session_id), exit_success) == Seq::<
            EffectView,
        >::empty(),
        !after.cancelling(session_id),
{
}

/// A session that leaves the registry at the end of its output is
/// recorded with exactly one terminal status.
pub proof fn lemma_registered_exit_records_one_status<H>(
    manager: &RalphManager<H>,
    session_id: SessionId,
    exit_success: Option<bool>,
)
    requires
        manager@.contains_key(session_id),
    ensures
        exit_status(manager.departure(session_id), exit_success) is Some,
        exit_status(manager.departure(session_id), exit_success)->Some_0.terminal(),
        exit_record(session_id, manager.departure(session_id), exit_success) == status_effects(
            session_id,
            exit_status(manager.departure(session_id), exit_success)->Some_0,
        ),
{
}

} // verus!
