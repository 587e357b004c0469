//! Starting the player and shutting it down.
//!
//! The supervisor's life is a walk through four phases. The program that owns
//! the process performs each [`Action`] and reports what came of it as an
//! [`Event`]; [`step`] decides what follows.

use vstd::prelude::*;
use vstd::string::StringExecFns;

verus! {

/// `tokio::task::JoinError`: why the reader task could not be joined.
#[verifier::external_type_specification]
#[verifier::external_body]
pub struct ExJoinError(tokio::task::JoinError);

/// How the player is started.
#[derive(Debug, Clone, Copy, PartialEq, Eq)]
pub struct Config {
    fullscreen: bool,
}

/// Collects the settings of a [`Config`]; what is not set keeps its default.
#[derive(Debug, Clone, Copy)]
pub struct ConfigBuilder {
    fullscreen: Option<bool>,
}

impl Config {
    /// Whether the player is asked to fill the screen.
    pub closed spec fn fullscreen_spec(&self) -> bool {
        self.fullscreen
    }

    #[verifier::when_used_as_spec(fullscreen_spec)]
    pub fn fullscreen(&self) -> (on: bool)
        ensures
            on == self.fullscreen_spec(),
    {
        self.fullscreen
    }

    /// The options that the player is started with, in order; the path of the
    /// medium follows them. The player takes its commands from the descriptor
    /// it inherits as standard input and leaves the terminal alone.
    pub open spec fn options_spec(&self) -> Seq<Seq<char>> {
        if self.fullscreen_spec() {
            seq!["--input-ipc-client=fd://0"@, "--no-input-terminal"@, "--fullscreen"@, "--"@]
        } else {
            seq!["--input-ipc-client=fd://0"@, "--no-input-terminal"@, "--"@]
        }
    }

    pub fn options(&self) -> (options: Vec<String>)
        ensures
            options@.len() == self.options_spec().len(),
            forall|i: int|
                0 <= i < options@.len() ==> (#[trigger] options@[i])@ == self.options_spec()[i],
    {
        let mut options: Vec<String> = Vec::new();
        options.push(String::from_str("--input-ipc-client=fd://0"));
        options.push(String::from_str("--no-input-terminal"));
        if self.fullscreen {
            options.push(String::from_str("--fullscreen"));
        }
        options.push(String::from_str("--"));
        options
    }
}

impl ConfigBuilder {
    /// The setting that the builder holds, if one was made.
    pub closed spec fn chosen(&self) -> Option<bool> {
        self.fullscreen
    }

    /// A builder in which nothing is set.
    pub fn new() -> (builder: ConfigBuilder)
        ensures
            builder.chosen() is None,
    {
        ConfigBuilder { fullscreen: None }
    }

    /// Sets whether the player fills the screen.
    pub fn fullscreen(&mut self, value: bool)
        ensures
            final(self).chosen() == Some(value),
    {
        self.fullscreen = Some(value);
    }

    /// The configuration: full screen unless it was switched off.
    pub fn build(&self) -> (config: Config)
        ensures
            config.fullscreen() == match self.chosen() {
                Some(value) => value,
                None => true,
            },
    {
        let fullscreen = match self.fullscreen {
            Some(value) => value,
            None => true,
        };
        Config { fullscreen }
    }
}

impl Default for ConfigBuilder {
    fn default() -> (builder: ConfigBuilder)
        ensures
            builder.chosen() is None,
    {
        ConfigBuilder::new()
    }
}

/// Why the player could not be started.
#[derive(Debug)]
pub enum StartError {
    /// The pair of sockets could not be made.
    SocketCreate(std::io::Error),
    /// The process could not be spawned.
    StartingMPV(std::io::Error),
}

/// How the player's process ended.
#[derive(Debug, Clone, Copy, PartialEq, Eq)]
pub struct ExitReport {
    /// Whether the process reported success.
    pub success: bool,
    /// Its exit code, unless a signal ended it.
    pub code: Option<i32>,
}

/// Why closing did not end well. The kinds stay apart: each names the one
/// thing that went wrong.
#[derive(Debug)]
pub enum CloseError {
    /// The reader task could not be joined.
    TaskError(tokio::task::JoinError),
    /// The reader ended on an I/O error.
    IpcError(std::io::Error),
    /// Waiting for the process failed.
    ProcessError(std::io::Error),
    /// The process reported a failure.
    MPVExitStatus(ExitReport),
}

/// Where the supervisor stands.
#[derive(Debug, Clone, Copy, PartialEq, Eq)]
pub enum Phase {
    /// Nothing runs yet.
    Starting,
    /// The process and the reader run; commands and events flow.
    Running,
    /// Closing has begun; the signal is being sent.
    Signalling,
    /// Closing: the reader is being waited for.
    Joining,
    /// Closing: the process is being waited for.
    Reaping,
    /// Nothing runs any more.
    Closed,
}

impl Phase {
    /// The three phases in which the supervisor is closing.
    pub open spec fn is_closing(self) -> bool {
        self is Signalling || self is Joining || self is Reaping
    }

    /// The place of a phase in the order in which phases follow each other.
    pub open spec fn rank(self) -> nat {
        match self {
            Phase::Starting => 0,
            Phase::Running => 1,
            Phase::Signalling => 2,
            Phase::Joining => 3,
            Phase::Reaping => 4,
            Phase::Closed => 5,
        }
    }
}

/// What the owner of the process reports.
#[derive(Debug)]
pub enum Event {
    /// The pair of sockets could not be made.
    SocketFailed(std::io::Error),
    /// The process could not be spawned.
    SpawnFailed(std::io::Error),
    /// The process and the reader task run.
    Spawned,
    /// The caller asks for an orderly shutdown.
    CloseRequested,
    /// The termination signal was sent, or could not be.
    Signalled { delivered: bool },
    /// The reader task is over: it could not be joined, or it ended with or
    /// without an I/O error.
    ReaderJoined(Result<Result<(), std::io::Error>, tokio::task::JoinError>),
    /// The wait for the process is over.
    Exited(Result<ExitReport, std::io::Error>),
}

/// What the owner of the process does next.
#[derive(Debug)]
pub enum Action {
    /// Report that the player did not start. Nothing is left to clean up.
    FailStart(StartError),
    /// Serve commands and events.
    Serve,
    /// Send the termination signal to the process.
    SendTerminate,
    /// Wait for the reader task, which closes the table and the event stream
    /// as it ends.
    JoinReader,
    /// Wait for the process to exit.
    WaitExit,
    /// Closing is over: report how it went.
    Report(Result<(), CloseError>),
    /// The event does not belong to the phase: nothing to do.
    Ignore,
}

/// What follows an event in a phase.
pub open spec fn step_spec(phase: Phase, event: Event) -> (Phase, Action) {
    match (phase, event) {
        (Phase::Starting, Event::SocketFailed(error)) => (
            Phase::Closed,
            Action::FailStart(StartError::SocketCreate(error)),
        ),
        (Phase::Starting, Event::SpawnFailed(error)) => (
            Phase::Closed,
            Action::FailStart(StartError::StartingMPV(error)),
        ),
        (Phase::Starting, Event::Spawned) => (Phase::Running, Action::Serve),
        (Phase::Running, Event::CloseRequested) => (Phase::Signalling, Action::SendTerminate),
        (Phase::Signalling, Event::Signalled { delivered }) => (Phase::Joining, Action::JoinReader),
        (Phase::Joining, Event::ReaderJoined(Err(error))) => (
            Phase::Closed,
            Action::Report(Err(CloseError::TaskError(error))),
        ),
        (Phase::Joining, Event::ReaderJoined(Ok(Err(error)))) => (
            Phase::Closed,
            Action::Report(Err(CloseError::IpcError(error))),
        ),
        (Phase::Joining, Event::ReaderJoined(Ok(Ok(())))) => (Phase::Reaping, Action::WaitExit),
        (Phase::Reaping, Event::Exited(Err(error))) => (
            Phase::Closed,
            Action::Report(Err(CloseError::ProcessError(error))),
        ),
        (Phase::Reaping, Event::Exited(Ok(report))) => (
            Phase::Closed,
            Action::Report(
                if report.success {
                    Ok(())
                } else {
                    Err(CloseError::MPVExitStatus(report))
                },
            ),
        ),
        (_, _) => (phase, Action::Ignore),
    }
}

/// Decides what follows an event. A failure to send the signal is tolerated:
/// the process may be gone already. The process is waited for only after the
/// reader has ended, and success is reported only where the reader ended
/// without an error and the process reported success.
pub fn step(phase: Phase, event: Event) -> (next: (Phase, Action))
    ensures
        next == step_spec(phase, event),
{
    match (phase, event) {
        (Phase::Starting, Event::SocketFailed(error)) => (
            Phase::Closed,
            Action::FailStart(StartError::SocketCreate(error)),
        ),
        (Phase::Starting, Event::SpawnFailed(error)) => (
            Phase::Closed,
            Action::FailStart(StartError::StartingMPV(error)),
        ),
        (Phase::Starting, Event::Spawned) => (Phase::Running, Action::Serve),
        (Phase::Running, Event::CloseRequested) => (Phase::Signalling, Action::SendTerminate),
        (Phase::Signalling, Event::Signalled { delivered: _ }) => (
            Phase::Joining,
            Action::JoinReader,
        ),
        (Phase::Joining, Event::ReaderJoined(Err(error))) => (
            Phase::Closed,
            Action::Report(Err(CloseError::TaskError(error))),
        ),
        (Phase::Joining, Event::ReaderJoined(Ok(Err(error)))) => (
            Phase::Closed,
            Action::Report(Err(CloseError::IpcError(error))),
        ),
        (Phase::Joining, Event::ReaderJoined(Ok(Ok(())))) => (Phase::Reaping, Action::WaitExit),
        (Phase::Reaping, Event::Exited(Err(error))) => (
            Phase::Closed,
            Action::Report(Err(CloseError::ProcessError(error))),
        ),
        (Phase::Reaping, Event::Exited(Ok(report))) => {
            if report.success {
                (Phase::Closed, Action::Report(Ok(())))
            } else {
                (Phase::Closed, Action::Report(Err(CloseError::MPVExitStatus(report))))
            }
        },
        (phase, _) => (phase, Action::Ignore),
    }
}

/// The supervisor never goes back: a step leaves the phase as it is or moves
/// it forward, and from `Closed` nothing moves.
pub proof fn lemma_phases_advance(phase: Phase, event: Event)
    ensures
        step_spec(phase, event).0.rank() >= phase.rank(),
        phase is Closed ==> step_spec(phase, event) == (Phase::Closed, Action::Ignore),
        step_spec(phase, event).1 is Ignore <==> step_spec(phase, event).0 == phase,
{
}

/// Closing reports success only from the last wait, and only where the
/// process reported success, which is after the reader ended without an
/// error.
pub proof fn lemma_success_needs_clean_exit(phase: Phase, event: Event)
    requires
        step_spec(phase, event).1 == Action::Report(Ok(())),
    ensures
        phase is Reaping,
        event is Exited,
        event->Exited_0 is Ok,
        event->Exited_0->Ok_0.success,
        step_spec(phase, event).0 is Closed,
{
}

/// A report ends the closing, and each kind of failure is reported as its
/// own kind of error.
pub proof fn lemma_report_closes(phase: Phase, event: Event)
    requires
        step_spec(phase, event).1 is Report,
    ensures
        phase.is_closing(),
        step_spec(phase, event).0 is Closed,
        match step_spec(phase, event).1->Report_0 {
            Ok(()) => phase is Reaping,
            Err(CloseError::TaskError(_)) => phase is Joining && event->ReaderJoined_0 is Err,
            Err(CloseError::IpcError(_)) => phase is Joining && event->ReaderJoined_0 is Ok,
            Err(CloseError::ProcessError(_)) => phase is Reaping && event->Exited_0 is Err,
            Err(CloseError::MPVExitStatus(report)) => phase is Reaping && !report.success,
        },
{
}

/// Whether the signal could be sent does not matter for what follows.
pub proof fn lemma_signal_failure_tolerated(delivered: bool)
    ensures
        step_spec(Phase::Signalling, Event::Signalled { delivered }) == (
            Phase::Joining,
            Action::JoinReader,
        ),
{
}

} // verus!
