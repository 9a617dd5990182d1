//! Starting the backend process, one step at a time.
//!
//! The embedding program performs each action that [`next_action`] names and
//! reports how it went as a [`LaunchEvent`]; [`launch_step`] answers with the
//! state that follows. A launch ends either with the monitor attached to the
//! running process or with an error to report. A failed launch never stops
//! the application: it goes on without a backend.

use crate::environment::{
    sidecar_environment, sidecar_vars, storage_dir, storage_dir_of, storage_path,
    storage_path_of, Environment, SIDECAR_PROGRAM,
};
use crate::text::chain;
use vstd::prelude::*;

verus! {

/// Said when the host has no data directory to offer.
pub const NO_DATA_DIR: &'static str = "Failed to get app data directory";

/// Put before the reason when the backend program is not available.
pub const COMMAND_REJECTED_PREFIX: &'static str = "Failed to create sidecar command: ";

/// Put before the reason when the process could not be started.
pub const SPAWN_FAILED_PREFIX: &'static str = "Failed to spawn backend: ";

/// Put before the message of a failed launch when it is reported.
pub const REPORT_PREFIX: &'static str = "Failed to start backend: ";

/// Why a launch failed.
#[derive(Debug, Clone, PartialEq, Eq)]
pub enum LaunchError {
    /// The host could not name a data directory.
    Directory,
    /// A directory could not be created; the text is the system's reason.
    Io(String),
    /// The process could not be created; the text says at which point and
    /// why.
    Spawn(String),
}

/// A [`LaunchError`] with its text as a character sequence.
pub ghost enum LaunchErrorView {
    Directory,
    Io(Seq<char>),
    Spawn(Seq<char>),
}

impl View for LaunchError {
    type V = LaunchErrorView;

    open spec fn view(&self) -> LaunchErrorView {
        match self {
            LaunchError::Directory => LaunchErrorView::Directory,
            LaunchError::Io(reason) => LaunchErrorView::Io(reason@),
            LaunchError::Spawn(reason) => LaunchErrorView::Spawn(reason@),
        }
    }
}

/// How far a launch has come.
#[derive(Debug, Clone, PartialEq, Eq)]
pub enum LaunchState {
    /// Nothing is known yet.
    Resolving,
    /// The data directory is known and is being created.
    CreatingDataDir { data_dir: String },
    /// The data directory exists; the storage directory is being created.
    CreatingStorageDir { data_dir: String },
    /// Both directories exist; the process is being started.
    Spawning { data_dir: String },
    /// The process runs.
    Running,
    /// The launch was given up.
    Failed(LaunchError),
}

/// A [`LaunchState`] with its text as character sequences.
pub ghost enum LaunchStateView {
    Resolving,
    CreatingDataDir { data_dir: Seq<char> },
    CreatingStorageDir { data_dir: Seq<char> },
    Spawning { data_dir: Seq<char> },
    Running,
    Failed(LaunchErrorView),
}

impl View for LaunchState {
    type V = LaunchStateView;

    open spec fn view(&self) -> LaunchStateView {
        match self {
            LaunchState::Resolving => LaunchStateView::Resolving,
            LaunchState::CreatingDataDir { data_dir } => LaunchStateView::CreatingDataDir {
                data_dir: data_dir@,
            },
            LaunchState::CreatingStorageDir { data_dir } => LaunchStateView::CreatingStorageDir {
                data_dir: data_dir@,
            },
            LaunchState::Spawning { data_dir } => LaunchStateView::Spawning { data_dir: data_dir@ },
            LaunchState::Running => LaunchStateView::Running,
            LaunchState::Failed(error) => LaunchStateView::Failed(error@),
        }
    }
}

/// What the embedding program reports back.
#[derive(Debug, Clone, PartialEq, Eq)]
pub enum LaunchEvent {
    /// The host named its data directory, or had none.
    DataDirResolved(Option<String>),
    /// The directory asked for exists now.
    DirectoryCreated,
    /// The directory asked for could not be created.
    DirectoryFailed(String),
    /// The process was started.
    Spawned,
    /// The backend program could not be set up for starting.
    CommandRejected(String),
    /// The system refused to start the process.
    SpawnFailed(String),
}

/// A [`LaunchEvent`] with its text as character sequences.
pub ghost enum LaunchEventView {
    DataDirResolved(Option<Seq<char>>),
    DirectoryCreated,
    DirectoryFailed(Seq<char>),
    Spawned,
    CommandRejected(Seq<char>),
    SpawnFailed(Seq<char>),
}

impl View for LaunchEvent {
    type V = LaunchEventView;

    open spec fn view(&self) -> LaunchEventView {
        match self {
            LaunchEvent::DataDirResolved(dir) => LaunchEventView::DataDirResolved(dir.deep_view()),
            LaunchEvent::DirectoryCreated => LaunchEventView::DirectoryCreated,
            LaunchEvent::DirectoryFailed(reason) => LaunchEventView::DirectoryFailed(reason@),
            LaunchEvent::Spawned => LaunchEventView::Spawned,
            LaunchEvent::CommandRejected(reason) => LaunchEventView::CommandRejected(reason@),
            LaunchEvent::SpawnFailed(reason) => LaunchEventView::SpawnFailed(reason@),
        }
    }
}

/// What the embedding program is to do next.
#[derive(Debug, Clone)]
pub enum LaunchAction {
    /// Ask the host for the data directory.
    ResolveDataDir,
    /// Create this directory and every missing one above it.
    CreateDirectory(String),
    /// Start the registered program with this environment and no arguments.
    Spawn { program: String, env: Environment },
    /// Follow the events of the running process; the launch is over.
    AttachMonitor,
    /// Report the error and go on without a backend; the launch is over.
    GiveUp(LaunchError),
}

/// A [`LaunchAction`] with its text as character sequences and its
/// environment as a mapping.
pub ghost enum LaunchActionView {
    ResolveDataDir,
    CreateDirectory(Seq<char>),
    Spawn { program: Seq<char>, env: Map<Seq<char>, Seq<char>> },
    AttachMonitor,
    GiveUp(LaunchErrorView),
}

impl View for LaunchAction {
    type V = LaunchActionView;

    open spec fn view(&self) -> LaunchActionView {
        match self {
            LaunchAction::ResolveDataDir => LaunchActionView::ResolveDataDir,
            LaunchAction::CreateDirectory(path) => LaunchActionView::CreateDirectory(path@),
            LaunchAction::Spawn { program, env } => LaunchActionView::Spawn {
                program: program@,
                env: env@,
            },
            LaunchAction::AttachMonitor => LaunchActionView::AttachMonitor,
            LaunchAction::GiveUp(error) => LaunchActionView::GiveUp(error@),
        }
    }
}

/// The message of an error.
pub open spec fn message_of(error: LaunchErrorView) -> Seq<char> {
    match error {
        LaunchErrorView::Directory => NO_DATA_DIR@,
        LaunchErrorView::Io(reason) => reason,
        LaunchErrorView::Spawn(reason) => reason,
    }
}

/// The state that follows when an event arrives. An event that does not
/// answer the action of the state leaves the state as it is.
pub open spec fn step(state: LaunchStateView, event: LaunchEventView) -> LaunchStateView {
    match (state, event) {
        (
            LaunchStateView::Resolving,
            LaunchEventView::DataDirResolved(Some(data_dir)),
        ) => LaunchStateView::CreatingDataDir { data_dir },
        (LaunchStateView::Resolving, LaunchEventView::DataDirResolved(None)) => {
            LaunchStateView::Failed(LaunchErrorView::Directory)
        },
        (
            LaunchStateView::CreatingDataDir { data_dir },
            LaunchEventView::DirectoryCreated,
        ) => LaunchStateView::CreatingStorageDir { data_dir },
        (
            LaunchStateView::CreatingStorageDir { data_dir },
            LaunchEventView::DirectoryCreated,
        ) => LaunchStateView::Spawning { data_dir },
        (LaunchStateView::CreatingDataDir { .. }, LaunchEventView::DirectoryFailed(reason)) => {
            LaunchStateView::Failed(LaunchErrorView::Io(reason))
        },
        (
            LaunchStateView::CreatingStorageDir { .. },
            LaunchEventView::DirectoryFailed(reason),
        ) => LaunchStateView::Failed(LaunchErrorView::Io(reason)),
        (LaunchStateView::Spawning { .. }, LaunchEventView::Spawned) => LaunchStateView::Running,
        (LaunchStateView::Spawning { .. }, LaunchEventView::CommandRejected(reason)) => {
            LaunchStateView::Failed(LaunchErrorView::Spawn(COMMAND_REJECTED_PREFIX@ + reason))
        },
        (LaunchStateView::Spawning { .. }, LaunchEventView::SpawnFailed(reason)) => {
            LaunchStateView::Failed(LaunchErrorView::Spawn(SPAWN_FAILED_PREFIX@ + reason))
        },
        _ => state,
    }
}

/// What a state asks the embedding program to do.
pub open spec fn action_of(state: LaunchStateView) -> LaunchActionView {
    match state {
        LaunchStateView::Resolving => LaunchActionView::ResolveDataDir,
        LaunchStateView::CreatingDataDir { data_dir } => LaunchActionView::CreateDirectory(
            data_dir,
        ),
        LaunchStateView::CreatingStorageDir { data_dir } => LaunchActionView::CreateDirectory(
            storage_dir_of(data_dir),
        ),
        LaunchStateView::Spawning { data_dir } => LaunchActionView::Spawn {
            program: SIDECAR_PROGRAM@,
            env: sidecar_vars(storage_path_of(data_dir)),
        },
        LaunchStateView::Running => LaunchActionView::AttachMonitor,
        LaunchStateView::Failed(error) => LaunchActionView::GiveUp(error),
    }
}

/// The state reached from `state` after the events of a sequence, in order.
pub open spec fn run(state: LaunchStateView, events: Seq<LaunchEventView>) -> LaunchStateView
    decreases events.len(),
{
    if events.len() == 0 {
        state
    } else {
        step(run(state, events.drop_last()), events.last())
    }
}

/// How many events of a sequence report a created directory.
pub open spec fn created_count(events: Seq<LaunchEventView>) -> nat
    decreases events.len(),
{
    if events.len() == 0 {
        0
    } else {
        created_count(events.drop_last()) + if events.last() is DirectoryCreated {
            1nat
        } else {
            0nat
        }
    }
}

/// How many created directories a state rests on.
pub open spec fn directories_behind(state: LaunchStateView) -> nat {
    match state {
        LaunchStateView::CreatingStorageDir { .. } => 1,
        LaunchStateView::Spawning { .. } => 2,
        LaunchStateView::Running => 2,
        _ => 0,
    }
}

/// A launch that has ended stays as it ended, whatever is reported
/// afterwards.
pub proof fn ended_launch_stays(state: LaunchStateView, events: Seq<LaunchEventView>)
    requires
        state is Failed || state is Running,
    ensures
        run(state, events) == state,
    decreases events.len(),
{
    if events.len() > 0 {
        ended_launch_stays(state, events.drop_last());
    }
}

/// Running a sequence of events is running its first event and then the
/// rest.
pub proof fn run_from_first(
    state: LaunchStateView,
    first: LaunchEventView,
    rest: Seq<LaunchEventView>,
)
    ensures
        run(state, seq![first] + rest) == run(step(state, first), rest),
    decreases rest.len(),
{
    let all = seq![first] + rest;
    if rest.len() == 0 {
        assert(all.drop_last() =~= Seq::<LaunchEventView>::empty());
        assert(run(state, all.drop_last()) == state);
    } else {
        run_from_first(state, first, rest.drop_last());
        assert(all.drop_last() =~= seq![first] + rest.drop_last());
    }
}

/// Without a data directory the launch fails with the directory error, and
/// no later report brings it to start a process: all it ever asks for is to
/// give up.
pub proof fn no_spawn_without_data_dir(rest: Seq<LaunchEventView>)
    ensures
        run(LaunchStateView::Resolving, seq![LaunchEventView::DataDirResolved(None)] + rest)
            == LaunchStateView::Failed(LaunchErrorView::Directory),
        action_of(
            run(LaunchStateView::Resolving, seq![LaunchEventView::DataDirResolved(None)] + rest),
        ) == LaunchActionView::GiveUp(LaunchErrorView::Directory),
{
    run_from_first(LaunchStateView::Resolving, LaunchEventView::DataDirResolved(None), rest);
    ended_launch_stays(LaunchStateView::Failed(LaunchErrorView::Directory), rest);
}

/// A launch rests on no more created directories than were reported.
pub proof fn directories_were_reported(events: Seq<LaunchEventView>)
    ensures
        directories_behind(run(LaunchStateView::Resolving, events)) <= created_count(events),
    decreases events.len(),
{
    if events.len() > 0 {
        directories_were_reported(events.drop_last());
    }
}

/// The process is started only after two directories were reported as
/// created: whenever a launch asks for the process to be started, or has it
/// running, at least two such reports came before.
pub proof fn spawn_follows_directories(events: Seq<LaunchEventView>)
    ensures
        action_of(run(LaunchStateView::Resolving, events)) is Spawn ==> created_count(events) >= 2,
        action_of(run(LaunchStateView::Resolving, events)) is AttachMonitor ==> created_count(
            events,
        ) >= 2,
{
    directories_were_reported(events);
}

impl LaunchError {
    /// The message of the error, as it is shown to the user.
    pub fn message(&self) -> (text: String)
        ensures
            text@ == message_of(self@),
    {
        match self {
            LaunchError::Directory => NO_DATA_DIR.to_owned(),
            LaunchError::Io(reason) => reason.clone(),
            LaunchError::Spawn(reason) => reason.clone(),
        }
    }

    /// The line that reports the error: `Failed to start backend: ` and the
    /// message.
    pub fn report(&self) -> (line: String)
        ensures
            line@ == REPORT_PREFIX@ + message_of(self@),
    {
        let message = self.message();
        chain(REPORT_PREFIX, message.as_str())
    }

    /// A copy of the error.
    pub fn duplicate(&self) -> (copy: LaunchError)
        ensures
            copy@ == self@,
    {
        match self {
            LaunchError::Directory => LaunchError::Directory,
            LaunchError::Io(reason) => LaunchError::Io(reason.clone()),
            LaunchError::Spawn(reason) => LaunchError::Spawn(reason.clone()),
        }
    }
}

/// The state in which every launch begins.
pub fn launch_start() -> (state: LaunchState)
    ensures
        state@ == LaunchStateView::Resolving,
{
    LaunchState::Resolving
}

/// Moves a launch on by one reported event.
pub fn launch_step(state: LaunchState, event: LaunchEvent) -> (next: LaunchState)
    ensures
        next@ == step(state@, event@),
{
    match (state, event) {
        (LaunchState::Resolving, LaunchEvent::DataDirResolved(Some(data_dir))) => {
            LaunchState::CreatingDataDir { data_dir }
        },
        (LaunchState::Resolving, LaunchEvent::DataDirResolved(None)) => {
            LaunchState::Failed(LaunchError::Directory)
        },
        (LaunchState::CreatingDataDir { data_dir }, LaunchEvent::DirectoryCreated) => {
            LaunchState::CreatingStorageDir { data_dir }
        },
        (LaunchState::CreatingStorageDir { data_dir }, LaunchEvent::DirectoryCreated) => {
            LaunchState::Spawning { data_dir }
        },
        (LaunchState::CreatingDataDir { .. }, LaunchEvent::DirectoryFailed(reason)) => {
            LaunchState::Failed(LaunchError::Io(reason))
        },
        (LaunchState::CreatingStorageDir { .. }, LaunchEvent::DirectoryFailed(reason)) => {
            LaunchState::Failed(LaunchError::Io(reason))
        },
        (LaunchState::Spawning { .. }, LaunchEvent::Spawned) => LaunchState::Running,
        (LaunchState::Spawning { .. }, LaunchEvent::CommandRejected(reason)) => {
            LaunchState::Failed(
                LaunchError::Spawn(chain(COMMAND_REJECTED_PREFIX, reason.as_str())),
            )
        },
        (LaunchState::Spawning { .. }, LaunchEvent::SpawnFailed(reason)) => {
            LaunchState::Failed(LaunchError::Spawn(chain(SPAWN_FAILED_PREFIX, reason.as_str())))
        },
        (state, _) => state,
    }
}

/// Names what the embedding program is to do in a state.
pub fn next_action(state: &LaunchState) -> (action: LaunchAction)
    ensures
        action@ == action_of(state@),
        action matches LaunchAction::Spawn { env, .. } ==> env.wf(),
{
    match state {
        LaunchState::Resolving => LaunchAction::ResolveDataDir,
        LaunchState::CreatingDataDir { data_dir } => LaunchAction::CreateDirectory(
            data_dir.clone(),
        ),
        LaunchState::CreatingStorageDir { data_dir } => LaunchAction::CreateDirectory(
            storage_dir(data_dir.as_str()),
        ),
        LaunchState::Spawning { data_dir } => {
            let path = storage_path(data_dir.as_str());
            LaunchAction::Spawn {
                program: SIDECAR_PROGRAM.to_owned(),
                env: sidecar_environment(path.as_str()),
            }
        },
        LaunchState::Running => LaunchAction::AttachMonitor,
        LaunchState::Failed(error) => LaunchAction::GiveUp(error.duplicate()),
    }
}

} // verus!
