use vstd::prelude::*;

verus! {

/// Seconds to wait after a disconnect before collection is started again.
pub const RECONNECT_DELAY_SECONDS: u64 = 20;

/// Where the orchestrator stands.
#[derive(Debug, Clone, Copy, PartialEq, Eq, Structural)]
pub enum RunnerState {
    /// The first start of collection has been asked for.
    Starting,
    /// Collection runs; the orchestrator waits for a disconnect.
    Collecting,
    /// Waiting out the delay before the next start.
    BackingOff,
    /// A restart has been asked for.
    Restarting,
    /// The orchestrator is done.
    Finished,
}

/// What happened outside.
#[derive(Debug, Clone, Copy, PartialEq, Eq, Structural)]
pub enum RunnerEvent {
    /// Collection started.
    Started,
    /// Collection could not be started.
    StartFailed,
    /// The polling loop lost the PLC.
    Disconnected,
    /// The back-off delay is over.
    SleepDone,
    /// Every disconnect sender is gone: nothing will be reported any more.
    ChannelClosed,
}

/// What the orchestrator does next.
#[derive(Debug, Clone, Copy, PartialEq, Eq, Structural)]
pub enum RunnerAction {
    StartCollection,
    WaitForDisconnect,
    /// Sleep for this many seconds.
    Sleep(u64),
    /// Return normally.
    Exit,
    /// Return with an error: collection could not be started at all.
    Fail,
    /// The event means nothing in this state; keep waiting.
    Ignore,
}

/// The reconnection policy: the first start must succeed; after that every
/// disconnect is followed by a delay and a restart, retried without limit.
pub open spec fn runner_step(s: RunnerState, e: RunnerEvent) -> (RunnerState, RunnerAction) {
    match (s, e) {
        (RunnerState::Starting, RunnerEvent::Started) => (
            RunnerState::Collecting,
            RunnerAction::WaitForDisconnect,
        ),
        (RunnerState::Starting, RunnerEvent::StartFailed) => (
            RunnerState::Finished,
            RunnerAction::Fail,
        ),
        (RunnerState::Collecting, RunnerEvent::Disconnected) => (
            RunnerState::BackingOff,
            RunnerAction::Sleep(RECONNECT_DELAY_SECONDS),
        ),
        (RunnerState::Collecting, RunnerEvent::ChannelClosed) => (
            RunnerState::Finished,
            RunnerAction::Exit,
        ),
        (RunnerState::BackingOff, RunnerEvent::SleepDone) => (
            RunnerState::Restarting,
            RunnerAction::StartCollection,
        ),
        (RunnerState::Restarting, RunnerEvent::Started) => (
            RunnerState::Collecting,
            RunnerAction::WaitForDisconnect,
        ),
        (RunnerState::Restarting, RunnerEvent::StartFailed) => (
            RunnerState::BackingOff,
            RunnerAction::Sleep(RECONNECT_DELAY_SECONDS),
        ),
        _ => (s, RunnerAction::Ignore),
    }
}

/// The orchestrator's decisions, apart from the waiting and the I/O.
#[derive(Debug, Clone, Copy, PartialEq, Eq, Structural)]
pub struct Supervisor {
    pub state: RunnerState,
}

impl Supervisor {
    /// A supervisor that starts by asking for collection to start.
    pub fn begin() -> (r: (Self, RunnerAction))
        ensures
            r.0.state == RunnerState::Starting,
            r.1 == RunnerAction::StartCollection,
    {
        (Supervisor { state: RunnerState::Starting }, RunnerAction::StartCollection)
    }

    /// Takes an event and says what to do next.
    pub fn on_event(&mut self, e: RunnerEvent) -> (r: RunnerAction)
        ensures
            (final(self).state, r) == runner_step(old(self).state, e),
    {
        let (s, a) = match (self.state, e) {
            (RunnerState::Starting, RunnerEvent::Started) => (
                RunnerState::Collecting,
                RunnerAction::WaitForDisconnect,
            ),
            (RunnerState::Starting, RunnerEvent::StartFailed) => (
                RunnerState::Finished,
                RunnerAction::Fail,
            ),
            (RunnerState::Collecting, RunnerEvent::Disconnected) => (
                RunnerState::BackingOff,
                RunnerAction::Sleep(RECONNECT_DELAY_SECONDS),
            ),
            (RunnerState::Collecting, RunnerEvent::ChannelClosed) => (
                RunnerState::Finished,
                RunnerAction::Exit,
            ),
            (RunnerState::BackingOff, RunnerEvent::SleepDone) => (
                RunnerState::Restarting,
                RunnerAction::StartCollection,
            ),
            (RunnerState::Restarting, RunnerEvent::Started) => (
                RunnerState::Collecting,
                RunnerAction::WaitForDisconnect,
            ),
            (RunnerState::Restarting, RunnerEvent::StartFailed) => (
                RunnerState::BackingOff,
                RunnerAction::Sleep(RECONNECT_DELAY_SECONDS),
            ),
            _ => (self.state, RunnerAction::Ignore),
        };
        self.state = s;
        a
    }
}

/// Why collection cannot be started or stopped.
#[derive(Debug, Clone, Copy, PartialEq, Eq, Structural)]
pub enum CollectorError {
    /// The polling loop already runs.
    AlreadyMonitoring,
    /// The polling loop does not run.
    NotMonitoring,
    /// The engine task is gone, so observations would have nowhere to go.
    EngineStopped,
}

/// Collection can start when no polling loop runs and the engine task,
/// which outlives every session, is there to take the observations.
pub fn check_can_start(is_monitoring: bool, engine_running: bool) -> (r: Result<
    (),
    CollectorError,
>)
    ensures
        r == if is_monitoring {
            Err(CollectorError::AlreadyMonitoring)
        } else if !engine_running {
            Err(CollectorError::EngineStopped)
        } else {
            Ok::<(), CollectorError>(())
        },
{
    if is_monitoring {
        Err(CollectorError::AlreadyMonitoring)
    } else if !engine_running {
        Err(CollectorError::EngineStopped)
    } else {
        Ok(())
    }
}

/// Collection can stop only while a polling loop runs.
pub fn check_can_stop(is_monitoring: bool) -> (r: Result<(), CollectorError>)
    ensures
        r == if is_monitoring {
            Ok::<(), CollectorError>(())
        } else {
            Err(CollectorError::NotMonitoring)
        },
{
    if is_monitoring {
        Ok(())
    } else {
        Err(CollectorError::NotMonitoring)
    }
}

} // verus!
