use vstd::prelude::*;

verus! {

/// How long a stop waits for the session thread, in milliseconds.
pub const STOP_TIMEOUT_MS: u64 = 1000;

/// How long to sleep between two checks of the session thread, in milliseconds.
pub const JOIN_POLL_MS: u64 = 50;

/// The running tunnel session, if any: the cancellation token shared with it
/// and the handle of its thread. Both are set together and taken together.
pub struct Session<T, H> {
    pub token: Option<T>,
    pub handle: Option<H>,
}

/// Why a session cannot be started.
#[derive(Clone, Copy, Debug, PartialEq, Eq, Structural)]
pub enum StartError {
    AlreadyRunning,
}

/// A stop that did not end a session cleanly.
#[derive(Clone, Copy, Debug, PartialEq, Eq, Structural)]
pub enum StopError {
    /// There was no session to stop.
    NoSession,
    /// The session thread did not end within the timeout and was left.
    Timeout,
}

impl StartError {
    pub fn message(&self) -> (r: &'static str) {
        "A node is already running. Please stop it first."
    }
}

impl StopError {
    pub fn message(&self) -> (r: &'static str) {
        match self {
            StopError::NoSession => "No running node.",
            StopError::Timeout => "Node thread did not finish in 1 second, force exit.",
        }
    }
}

impl<T, H> Session<T, H> {
    /// Token and handle are both set or both unset.
    pub open spec fn wf(&self) -> bool {
        self.token.is_some() == self.handle.is_some()
    }

    pub open spec fn running(&self) -> bool {
        self.token.is_some()
    }

    /// The record once a session's token and handle are taken out of it.
    pub open spec fn after_take(self) -> Self {
        Session { token: None, handle: None }
    }

    /// No session.
    pub fn new() -> (r: Self)
        ensures
            r.wf(),
            !r.running(),
            r.handle.is_none(),
    {
        Session { token: None, handle: None }
    }

    pub fn is_running(&self) -> (r: bool)
        ensures
            r == self.running(),
    {
        self.token.is_some()
    }

    /// Records a started session. While one runs, this is refused and the
    /// running session's token and handle stay as they are.
    pub fn start(&mut self, token: T, handle: H) -> (r: Result<(), StartError>)
        requires
            old(self).wf(),
        ensures
            final(self).wf(),
            old(self).running() ==> r == Err::<(), StartError>(StartError::AlreadyRunning),
            old(self).running() ==> *final(self) == *old(self),
            !old(self).running() ==> r is Ok && final(self).token == Some(token)
                && final(self).handle == Some(handle),
    {
        if self.token.is_some() {
            return Err(StartError::AlreadyRunning);
        }
        self.token = Some(token);
        self.handle = Some(handle);
        Ok(())
    }

    /// Takes the token and handle of the running session, if any, for the
    /// caller to cancel and join; afterwards no session is recorded.
    pub fn take(&mut self) -> (r: Option<(T, H)>)
        requires
            old(self).wf(),
        ensures
            final(self).wf(),
            *final(self) == old(self).after_take(),
            !old(self).running() ==> r is None,
            old(self).running() ==> r == Some((old(self).token.unwrap(), old(self).handle.unwrap())),
    {
        let token = self.token.take();
        let handle = self.handle.take();
        match (token, handle) {
            (Some(t), Some(h)) => Some((t, h)),
            _ => None,
        }
    }
}

/// What a stop reports: whether there was a session, and whether its thread
/// ended within the timeout.
pub open spec fn stop_result(had_session: bool, ended_in_time: bool) -> Result<(), StopError> {
    if !had_session {
        Err(StopError::NoSession)
    } else if !ended_in_time {
        Err(StopError::Timeout)
    } else {
        Ok(())
    }
}

pub fn stop_report(had_session: bool, ended_in_time: bool) -> (r: Result<(), StopError>)
    ensures
        r == stop_result(had_session, ended_in_time),
{
    if !had_session {
        Err(StopError::NoSession)
    } else if !ended_in_time {
        Err(StopError::Timeout)
    } else {
        Ok(())
    }
}

/// The next step while waiting for a thread to end.
#[derive(Clone, Copy, Debug, PartialEq, Eq, Structural)]
pub enum JoinStep {
    /// The thread has ended: join it.
    Join,
    /// The timeout has passed: stop waiting and leave the thread.
    GiveUp,
    /// Sleep for one poll interval, then check again.
    Wait,
}

pub open spec fn join_step_spec(finished: bool, elapsed_ms: u64, timeout_ms: u64) -> JoinStep {
    if finished {
        JoinStep::Join
    } else if elapsed_ms > timeout_ms {
        JoinStep::GiveUp
    } else {
        JoinStep::Wait
    }
}

/// Decides one round of a join with timeout.
pub fn join_step(finished: bool, elapsed_ms: u64, timeout_ms: u64) -> (r: JoinStep)
    ensures
        r == join_step_spec(finished, elapsed_ms, timeout_ms),
{
    if finished {
        JoinStep::Join
    } else if elapsed_ms > timeout_ms {
        JoinStep::GiveUp
    } else {
        JoinStep::Wait
    }
}

/// Stopping when no session runs reports that there is none and leaves the
/// session record as it was.
pub proof fn lemma_stop_without_session<T, H>(s: Session<T, H>, ended_in_time: bool)
    requires
        s.wf(),
        !s.running(),
    ensures
        s.after_take() == s,
        stop_result(s.running(), ended_in_time) == Err::<(), StopError>(StopError::NoSession),
{
}

/// Once the timeout has passed, a wait for a thread that has not ended gives
/// up rather than waiting further, and the stop reports the timeout.
pub proof fn lemma_stop_past_timeout(elapsed_ms: u64, timeout_ms: u64)
    requires
        elapsed_ms > timeout_ms,
    ensures
        join_step_spec(false, elapsed_ms, timeout_ms) == JoinStep::GiveUp,
        stop_result(true, false) == Err::<(), StopError>(StopError::Timeout),
{
}

} // verus!
