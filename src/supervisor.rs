use vstd::prelude::*;

use crate::environment::{child_env, child_env_spec, env_view};
use crate::outcome::{SidecarError, StartOutcome, StopOutcome};

verus! {

/// Holds at most one handle `H` of a running child. An empty slot means
/// "not running".
pub struct Supervisor<H> {
    slot: Option<H>,
}

impl<H> View for Supervisor<H> {
    type V = Option<H>;

    closed spec fn view(&self) -> Option<H> {
        self.slot
    }
}

/// What the host does next on the way to stopping the child.
pub enum StopAction<H> {
    /// Send the termination signal to this child, then report the result
    /// through `finish_stop`.
    Kill(H),
    /// The stop is over, with this result.
    Finish(Result<StopOutcome, SidecarError>),
}

/// Stopping empties the slot at once; a held handle is handed out to be
/// killed.
pub open spec fn stop_spec<H>(slot: Option<H>) -> (Option<H>, StopAction<H>) {
    match slot {
        Some(h) => (None, StopAction::Kill(h)),
        None => (None, StopAction::Finish(Ok(StopOutcome::NotRunning))),
    }
}

/// The result of a stop, given how the termination signal went.
pub open spec fn kill_outcome_spec(killed: Result<(), String>) -> Result<StopOutcome, SidecarError> {
    match killed {
        Ok(_) => Ok(StopOutcome::Stopped),
        Err(cause) => Err(SidecarError::KillFailed(cause)),
    }
}

impl<H> Supervisor<H> {
    /// An empty supervisor.
    pub fn new() -> (r: Self)
        ensures
            r@ is None,
    {
        Supervisor { slot: None }
    }

    /// Whether the supervisor holds a handle. This is the supervisor's own
    /// knowledge, not the live state of the OS process.
    pub fn is_running(&self) -> (r: bool)
        ensures
            r == self@ is Some,
    {
        self.slot.is_some()
    }

    /// First step of a stop: takes the handle out of the slot, so that no
    /// later start can see it, and says what to do with it.
    pub fn begin_stop(&mut self) -> (r: StopAction<H>)
        ensures
            (final(self)@, r) == stop_spec(old(self)@),
    {
        match self.slot.take() {
            Some(h) => StopAction::Kill(h),
            None => StopAction::Finish(Ok(StopOutcome::NotRunning)),
        }
    }

    /// Gives up the handle, if any, so that the host can reclaim the child
    /// when it shuts down.
    pub fn release(self) -> (r: Option<H>)
        ensures
            r == self@,
    {
        self.slot
    }
}

/// Last step of a stop, after the host tried to kill the child.
pub fn finish_stop(killed: Result<(), String>) -> (r: Result<StopOutcome, SidecarError>)
    ensures
        r == kill_outcome_spec(killed),
{
    match killed {
        Ok(_) => Ok(StopOutcome::Stopped),
        Err(cause) => Err(SidecarError::KillFailed(cause)),
    }
}

/// Where a start attempt stands.
#[derive(Debug, Clone, Copy, PartialEq, Eq, Structural)]
pub enum StartPhase {
    ResolvingDataDir,
    CreatingDataDir,
    ConvertingDataDir,
    ReadingSearchPath,
    LocatingCommand,
    Spawning,
    Finished,
}

/// What the host reports after doing the action it was handed.
pub enum StartEvent<H> {
    /// The data directory was resolved, or why not.
    DataDirResolved(Result<(), String>),
    /// The data directory was created (or existed), or why not.
    DataDirCreated(Result<(), String>),
    /// The data directory's path as a string, or `None` if it is not Unicode.
    DataDirConverted(Option<String>),
    /// The host's search path, or `None` if it has none.
    SearchPathRead(Option<String>),
    /// The sidecar command was located, or why not.
    CommandLocated(Result<(), String>),
    /// The child was spawned, with its handle, or why not.
    Spawned(Result<H, String>),
}

/// What the host does next on the way to starting the child.
#[derive(Debug)]
pub enum StartAction {
    ResolveDataDir,
    CreateDataDir,
    ConvertDataDir,
    ReadSearchPath,
    LocateCommand,
    /// Spawn the located command with `StartSession::child_env`.
    Spawn,
    /// The start is over, with this result.
    Finish(Result<StartOutcome, SidecarError>),
}

/// Whether `event` is the report the phase waits for.
pub open spec fn answers<H>(phase: StartPhase, event: StartEvent<H>) -> bool {
    match event {
        StartEvent::DataDirResolved(_) => phase == StartPhase::ResolvingDataDir,
        StartEvent::DataDirCreated(_) => phase == StartPhase::CreatingDataDir,
        StartEvent::DataDirConverted(_) => phase == StartPhase::ConvertingDataDir,
        StartEvent::SearchPathRead(_) => phase == StartPhase::ReadingSearchPath,
        StartEvent::CommandLocated(_) => phase == StartPhase::LocatingCommand,
        StartEvent::Spawned(_) => phase == StartPhase::Spawning,
    }
}

/// The first phase and action of a start, given whether a child is held.
pub open spec fn begin_spec(running: bool) -> (StartPhase, StartAction) {
    if running {
        (StartPhase::Finished, StartAction::Finish(Ok(StartOutcome::AlreadyRunning)))
    } else {
        (StartPhase::ResolvingDataDir, StartAction::ResolveDataDir)
    }
}

/// The next phase and action once the awaited event has come.
pub open spec fn next_spec<H>(event: StartEvent<H>) -> (StartPhase, StartAction) {
    match event {
        StartEvent::DataDirResolved(Ok(_)) => (StartPhase::CreatingDataDir, StartAction::CreateDataDir),
        StartEvent::DataDirResolved(Err(cause)) => (
            StartPhase::Finished,
            StartAction::Finish(Err(SidecarError::DataDirUnavailable(cause))),
        ),
        StartEvent::DataDirCreated(Ok(_)) => (
            StartPhase::ConvertingDataDir,
            StartAction::ConvertDataDir,
        ),
        StartEvent::DataDirCreated(Err(cause)) => (
            StartPhase::Finished,
            StartAction::Finish(Err(SidecarError::DataDirCreation(cause))),
        ),
        StartEvent::DataDirConverted(Some(_)) => (
            StartPhase::ReadingSearchPath,
            StartAction::ReadSearchPath,
        ),
        StartEvent::DataDirConverted(None) => (
            StartPhase::Finished,
            StartAction::Finish(Err(SidecarError::DataDirNotUnicode)),
        ),
        StartEvent::SearchPathRead(_) => (StartPhase::LocatingCommand, StartAction::LocateCommand),
        StartEvent::CommandLocated(Ok(_)) => (StartPhase::Spawning, StartAction::Spawn),
        StartEvent::CommandLocated(Err(cause)) => (
            StartPhase::Finished,
            StartAction::Finish(Err(SidecarError::CommandUnavailable(cause))),
        ),
        StartEvent::Spawned(Ok(_)) => (
            StartPhase::Finished,
            StartAction::Finish(Ok(StartOutcome::Started)),
        ),
        StartEvent::Spawned(Err(cause)) => (
            StartPhase::Finished,
            StartAction::Finish(Err(SidecarError::SpawnFailed(cause))),
        ),
    }
}

/// The slot after `event`: only a successful spawn fills it.
pub open spec fn slot_after<H>(slot: Option<H>, event: StartEvent<H>) -> Option<H> {
    match event {
        StartEvent::Spawned(Ok(h)) => Some(h),
        _ => slot,
    }
}

/// The search path handed to the child: the host's, or empty if it has none.
pub open spec fn search_path_or_empty(path: Option<String>) -> Seq<char> {
    match path {
        Some(p) => p@,
        None => Seq::empty(),
    }
}

/// One start attempt, run by the host while it holds exclusive access to
/// the supervisor, from `begin` until it finishes.
pub struct StartSession {
    phase: StartPhase,
    data_dir: String,
    search_path: String,
}

impl StartSession {
    pub closed spec fn current_phase(&self) -> StartPhase {
        self.phase
    }

    /// The data directory the host resolved, once it has been converted.
    pub closed spec fn data_dir(&self) -> Seq<char> {
        self.data_dir@
    }

    /// The search path the child inherits, once it has been read.
    pub closed spec fn search_path(&self) -> Seq<char> {
        self.search_path@
    }

    /// Opens a start attempt. With a child already held it finishes at once
    /// with `AlreadyRunning` and nothing else happens.
    pub fn begin<H>(sup: &Supervisor<H>) -> (r: (StartSession, StartAction))
        ensures
            (r.0.current_phase(), r.1) == begin_spec(sup@ is Some),
            r.0.data_dir() == Seq::<char>::empty(),
            r.0.search_path() == Seq::<char>::empty(),
    {
        let phase = if sup.is_running() {
            StartPhase::Finished
        } else {
            StartPhase::ResolvingDataDir
        };
        let action = if sup.is_running() {
            StartAction::Finish(Ok(StartOutcome::AlreadyRunning))
        } else {
            StartAction::ResolveDataDir
        };
        (StartSession { phase, data_dir: String::new(), search_path: String::new() }, action)
    }

    pub fn is_finished(&self) -> (r: bool)
        ensures
            r == (self.current_phase() == StartPhase::Finished),
    {
        self.phase == StartPhase::Finished
    }

    /// Takes the host's report on the last action and says what to do next.
    /// A successful spawn stores the handle; nothing else touches the slot,
    /// so a failed attempt leaves it empty.
    pub fn step<H>(&mut self, sup: &mut Supervisor<H>, event: StartEvent<H>) -> (r: StartAction)
        requires
            answers(old(self).current_phase(), event),
            old(sup)@ is None,
        ensures
            (final(self).current_phase(), r) == next_spec(event),
            final(sup)@ == slot_after(old(sup)@, event),
            final(self).data_dir() == (match event {
                StartEvent::DataDirConverted(Some(dir)) => dir@,
                _ => old(self).data_dir(),
            }),
            final(self).search_path() == (match event {
                StartEvent::SearchPathRead(path) => search_path_or_empty(path),
                _ => old(self).search_path(),
            }),
    {
        match event {
            StartEvent::DataDirResolved(Ok(_)) => {
                self.phase = StartPhase::CreatingDataDir;
                StartAction::CreateDataDir
            },
            StartEvent::DataDirResolved(Err(cause)) => {
                self.phase = StartPhase::Finished;
                StartAction::Finish(Err(SidecarError::DataDirUnavailable(cause)))
            },
            StartEvent::DataDirCreated(Ok(_)) => {
                self.phase = StartPhase::ConvertingDataDir;
                StartAction::ConvertDataDir
            },
            StartEvent::DataDirCreated(Err(cause)) => {
                self.phase = StartPhase::Finished;
                StartAction::Finish(Err(SidecarError::DataDirCreation(cause)))
            },
            StartEvent::DataDirConverted(Some(dir)) => {
                self.data_dir = dir;
                self.phase = StartPhase::ReadingSearchPath;
                StartAction::ReadSearchPath
            },
            StartEvent::DataDirConverted(None) => {
                self.phase = StartPhase::Finished;
                StartAction::Finish(Err(SidecarError::DataDirNotUnicode))
            },
            StartEvent::SearchPathRead(path) => {
                self.search_path = match path {
                    Some(p) => p,
                    None => String::new(),
                };
                self.phase = StartPhase::LocatingCommand;
                StartAction::LocateCommand
            },
            StartEvent::CommandLocated(Ok(_)) => {
                self.phase = StartPhase::Spawning;
                StartAction::Spawn
            },
            StartEvent::CommandLocated(Err(cause)) => {
                self.phase = StartPhase::Finished;
                StartAction::Finish(Err(SidecarError::CommandUnavailable(cause)))
            },
            StartEvent::Spawned(Ok(h)) => {
                sup.slot = Some(h);
                self.phase = StartPhase::Finished;
                StartAction::Finish(Ok(StartOutcome::Started))
            },
            StartEvent::Spawned(Err(cause)) => {
                self.phase = StartPhase::Finished;
                StartAction::Finish(Err(SidecarError::SpawnFailed(cause)))
            },
        }
    }

    /// The environment to spawn the child with: the fixed variables, the
    /// converted data directory and the inherited search path.
    pub fn child_env(&self) -> (r: Vec<(String, String)>)
        ensures
            env_view(r@) == child_env_spec(self.data_dir(), self.search_path()),
    {
        child_env(self.data_dir.as_str(), self.search_path.as_str())
    }
}

} // verus!
