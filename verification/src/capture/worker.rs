//! The owner of capture: starting, stopping and restarting it.
//!
//! Threads and waiting are the caller's. Each function here takes what came of
//! the last action and says which is next.
use crate::backend::MAX_WAYLAND_SELECTION_BYTES;
use vstd::prelude::*;
use vstd::string::*;

verus! {

/// The first pause before a reconnection, in milliseconds.
pub const FIRST_BACKOFF: u64 = 250;

/// The longest pause before a reconnection, in milliseconds.
pub const LAST_BACKOFF: u64 = 10_000;

/// The pause before the next reconnection.
#[derive(Debug, Clone, Copy, PartialEq, Eq, Structural)]
pub struct Backoff {
    pub milliseconds: u64,
}

impl Backoff {
    pub open spec fn bounded(self) -> bool {
        FIRST_BACKOFF <= self.milliseconds <= LAST_BACKOFF
    }

    pub fn first() -> (backoff: Self)
        ensures
            backoff.milliseconds == FIRST_BACKOFF,
            backoff.bounded(),
    {
        Backoff { milliseconds: FIRST_BACKOFF }
    }

    /// Each pause is twice the one before, up to the longest.
    pub fn next(self) -> (backoff: Self)
        requires
            self.bounded(),
        ensures
            backoff.bounded(),
            backoff.milliseconds == (if self.milliseconds * 2 <= LAST_BACKOFF {
                self.milliseconds * 2
            } else {
                LAST_BACKOFF as int
            }),
    {
        if self.milliseconds * 2 <= LAST_BACKOFF {
            Backoff { milliseconds: self.milliseconds * 2 }
        } else {
            Backoff { milliseconds: LAST_BACKOFF }
        }
    }
}

/// How far one connection to the compositor came.
pub enum Connected {
    /// The store was not ready, or admission stayed closed, or the connection
    /// ended with this error.
    Failed(String),
    /// The connection ended because it was asked to.
    Ended,
}

/// What the reconnection loop does after a connection ended.
pub enum Reconnect {
    /// Says so and gives up: the outcome of a submission is not known.
    GiveUp(String),
    /// Says what went wrong, and connects again after a pause.
    ReportAndRetry(String),
    /// Connects again after a pause.
    Retry,
}

/// What follows the end of a connection, given whether the fence held.
pub fn after_connection(result: Connected, fence: Result<(), String>) -> (next: Reconnect)
    ensures
        next == (match fence {
            Err(error) => Reconnect::GiveUp(error),
            Ok(_) => match result {
                Connected::Failed(error) => Reconnect::ReportAndRetry(error),
                Connected::Ended => Reconnect::Retry,
            },
        }),
{
    match fence {
        Err(error) => Reconnect::GiveUp(error),
        Ok(_) => match result {
            Connected::Failed(error) => Reconnect::ReportAndRetry(error),
            Connected::Ended => Reconnect::Retry,
        },
    }
}

/// What a running capture says of itself.
pub struct Session {
    status: Result<bool, String>,
    acknowledged: bool,
}

impl Session {
    /// Whether capture is paused, or why that is not known.
    pub closed spec fn status(self) -> Result<bool, String> {
        self.status
    }

    /// Whoever started capture has been told how that went.
    pub closed spec fn acknowledged(self) -> bool {
        self.acknowledged
    }

    pub fn starting() -> (session: Self)
        ensures
            session.status() matches Err(message) && message@ == "Capture is starting"@,
            !session.acknowledged(),
    {
        Session { status: Err("Capture is starting".to_owned()), acknowledged: false }
    }

    /// Whether the connection to the compositor has to end.
    pub fn stopped(stop: bool, admitted: bool) -> (result: bool)
        ensures
            result == (stop || !admitted),
    {
        stop || !admitted
    }

    /// Takes note of how capture is going. The first report is also the
    /// acknowledgement of the start, which is given back.
    pub fn report(&mut self, result: Result<(), String>) -> (acknowledgement: Option<
        Result<(), String>,
    >)
        ensures
            final(self).acknowledged(),
            final(self).status() == (match result {
                Ok(_) => Ok::<bool, String>(false),
                Err(error) => Err(error),
            }),
            acknowledgement == (if old(self).acknowledged() {
                None
            } else {
                Some(result)
            }),
    {
        let first: bool = !self.acknowledged;
        self.acknowledged = true;
        match result {
            Ok(done) => {
                self.status = Ok(false);
                if first {
                    Some(Ok(done))
                } else {
                    None
                }
            },
            Err(error) => {
                self.status = Err(error.clone());
                if first {
                    Some(Err(error))
                } else {
                    None
                }
            },
        }
    }

    /// Whether capture is paused, given whether its thread has ended and whether
    /// admission is open.
    pub fn state(&self, finished: bool, admitted: bool) -> (state: Result<bool, String>)
        ensures
            if finished {
                state matches Err(message) && message@ == "Capture worker exited"@
            } else if !admitted {
                state matches Err(message) && message@ == "Capture is unavailable or transitioning"@
            } else {
                state == self.status()
            },
    {
        if finished {
            return Err("Capture worker exited".to_owned());
        }
        if !admitted {
            return Err("Capture is unavailable or transitioning".to_owned());
        }
        match &self.status {
            Ok(paused) => Ok(*paused),
            Err(error) => Err(error.clone()),
        }
    }
}

/// What waiting for a worker to end gave.
pub enum Stopped {
    TimedOut,
    TaskFailed,
    Finished(Result<(), String>),
}

/// What the controller wants done.
pub enum Step {
    /// Nothing: this is the answer.
    Done(Result<(), String>),
    /// The state of the worker; the answer is whether it is known.
    CheckWorker,
    /// Closes the admission of the worker, and waits for it to end.
    StopWorker,
    /// Starts a worker.
    StartWorker { limit: u64, skip_initial: bool },
}

/// What the controller is in the middle of.
#[derive(Debug, Clone, Copy, PartialEq, Eq, Structural)]
pub enum Pending {
    Nothing,
    /// A stop, to be followed by a pause or a start under this limit.
    Stopping { paused: bool, limit: u64 },
    /// A stop for good.
    ShuttingDown,
    /// A start under this limit.
    Starting { limit: u64 },
}

/// The owner of capture.
pub struct Controller {
    pub worker: Option<u64>,
    pub attached: bool,
    pub terminal_error: Option<String>,
    pub pending: Pending,
}

/// The limit under which capture runs.
pub open spec fn capture_limit(max_bytes: u64) -> u64 {
    if max_bytes < MAX_WAYLAND_SELECTION_BYTES {
        max_bytes
    } else {
        MAX_WAYLAND_SELECTION_BYTES
    }
}

/// What a stop that failed says.
pub open spec fn stop_failed(outcome: Stopped, error: Option<String>) -> bool {
    match outcome {
        Stopped::TimedOut => error matches Some(message) && message@
            == "Capture shutdown timed out"@,
        Stopped::TaskFailed => error matches Some(message) && message@
            == "Capture shutdown task failed"@,
        Stopped::Finished(Err(reason)) => error == Some(reason),
        Stopped::Finished(Ok(_)) => error is None,
    }
}

fn stop_error(outcome: Stopped) -> (error: Option<String>)
    ensures
        stop_failed(outcome, error),
{
    match outcome {
        Stopped::TimedOut => Some("Capture shutdown timed out".to_owned()),
        Stopped::TaskFailed => Some("Capture shutdown task failed".to_owned()),
        Stopped::Finished(Err(reason)) => Some(reason),
        Stopped::Finished(Ok(_)) => None,
    }
}

impl Controller {
    pub fn new() -> (controller: Self)
        ensures
            controller.worker is None,
            !controller.attached,
            controller.terminal_error is None,
            controller.pending == Pending::Nothing,
    {
        Controller { worker: None, attached: false, terminal_error: None, pending: Pending::Nothing }
    }

    /// What is done once no worker runs: a pause is done with; a start begins,
    /// unless the limit allows nothing. The clipboard of before a pause is not
    /// captured afterwards.
    pub open spec fn proceeds(self, before: Self, paused: bool, limit: u64, step: Step) -> bool {
        &&& self.worker == before.worker
        &&& self.terminal_error == before.terminal_error
        &&& if paused {
            self.attached && self.pending == Pending::Nothing && step == Step::Done(Ok(()))
        } else if limit == 0 {
            self.attached == before.attached && self.pending == Pending::Nothing && (
            step matches Step::Done(Err(message)) && message@
                == "Capture byte limit must be positive"@)
        } else {
            self.attached == before.attached && self.pending == Pending::Starting { limit } && step
                == Step::StartWorker { limit, skip_initial: before.attached }
        }
    }

    fn proceed(&mut self, paused: bool, limit: u64) -> (step: Step)
        ensures
            final(self).proceeds(*old(self), paused, limit, step),
    {
        self.pending = Pending::Nothing;
        if paused {
            self.attached = true;
            return Step::Done(Ok(()));
        }
        if limit == 0 {
            return Step::Done(Err("Capture byte limit must be positive".to_owned()));
        }
        self.pending = Pending::Starting { limit };
        Step::StartWorker { limit, skip_initial: self.attached }
    }

    /// `self` is the controller after a request to `before`, answered by `step`.
    pub open spec fn requested(self, before: Self, paused: bool, max_bytes: u64, step: Step) -> bool {
        let limit = capture_limit(max_bytes);
        match before.terminal_error {
            Some(error) => self == before && step == Step::Done(Err(error)),
            None => if !paused && before.worker == Some(limit) {
                self == before && step == Step::CheckWorker
            } else if before.worker is Some {
                &&& step == Step::StopWorker
                &&& self.worker is None
                &&& self.attached == before.attached
                &&& self.pending == (Pending::Stopping { paused, limit })
                &&& self.terminal_error matches Some(message)
                &&& message@ == "Capture shutdown is not yet verified"@
            } else {
                self.proceeds(before, paused, limit, step)
            },
        }
    }

    /// Pauses capture, or lets it run under a limit. A worker that runs under
    /// the same limit is left alone; any other is stopped first.
    pub fn set_paused(&mut self, paused: bool, max_bytes: u64) -> (step: Step)
        ensures
            final(self).requested(*old(self), paused, max_bytes, step),
    {
        if let Some(error) = &self.terminal_error {
            return Step::Done(Err(error.clone()));
        }
        let limit: u64 = if max_bytes < MAX_WAYLAND_SELECTION_BYTES {
            max_bytes
        } else {
            MAX_WAYLAND_SELECTION_BYTES
        };
        match self.worker {
            Some(running) => {
                if !paused && running == limit {
                    return Step::CheckWorker;
                }
                self.worker = None;
                self.terminal_error = Some("Capture shutdown is not yet verified".to_owned());
                self.pending = Pending::Stopping { paused, limit };
                Step::StopWorker
            },
            None => self.proceed(paused, limit),
        }
    }

    /// Stops capture for good.
    pub fn shutdown(&mut self) -> (step: Step)
        ensures
            final(self).attached == old(self).attached,
            match old(self).terminal_error {
                Some(error) => {
                    &&& step == Step::Done(Err(error))
                    &&& final(self).shut_down()
                    &&& final(self).worker == old(self).worker
                    &&& final(self).pending == old(self).pending
                },
                None => if old(self).worker is Some {
                    &&& step == Step::StopWorker
                    &&& final(self).worker is None
                    &&& final(self).pending == Pending::ShuttingDown
                    &&& final(self).terminal_error matches Some(message)
                    &&& message@ == "Capture shutdown is not yet verified"@
                } else {
                    &&& step == Step::Done(Ok(()))
                    &&& final(self).shut_down()
                    &&& final(self).worker is None
                    &&& final(self).pending == old(self).pending
                },
            },
    {
        let running: bool = self.worker.is_some();
        let error = match &self.terminal_error {
            Some(error) => Some(error.clone()),
            None => None,
        };
        if let Some(error) = error {
            self.terminal_error = Some("Capture owner has shut down".to_owned());
            return Step::Done(Err(error));
        }
        if running {
            self.worker = None;
            self.terminal_error = Some("Capture shutdown is not yet verified".to_owned());
            self.pending = Pending::ShuttingDown;
            return Step::StopWorker;
        }
        self.terminal_error = Some("Capture owner has shut down".to_owned());
        Step::Done(Ok(()))
    }

    /// Capture has been stopped for good.
    pub open spec fn shut_down(self) -> bool {
        self.terminal_error matches Some(message) && message@ == "Capture owner has shut down"@
    }

    /// `self` is the controller after the stop that `before` was waiting for,
    /// followed by `step`.
    pub open spec fn ended(self, before: Self, outcome: Stopped, step: Step) -> bool {
        match before.pending {
            Pending::Stopping { paused, limit } => if outcome is Finished && outcome->Finished_0
                is Ok {
                self.proceeds(
                    Controller { terminal_error: None, ..before },
                    paused,
                    limit,
                    step,
                )
            } else {
                &&& stop_failed(outcome, self.terminal_error)
                &&& self.pending == Pending::Nothing
                &&& self.worker == before.worker
                &&& self.attached == before.attached
                &&& step == Step::Done(Err(self.terminal_error->0))
            },
            _ => {
                &&& self.shut_down()
                &&& self.pending == Pending::Nothing
                &&& self.worker == before.worker
                &&& self.attached == before.attached
                &&& match step {
                    Step::Done(Ok(_)) => stop_failed(outcome, None),
                    Step::Done(Err(error)) => stop_failed(outcome, Some(error)),
                    _ => false,
                }
            },
        }
    }

    /// Takes note of how the stop of the worker went. A stop that is not known
    /// to have succeeded is remembered for good.
    pub fn stopped(&mut self, outcome: Stopped) -> (step: Step)
        requires
            old(self).pending is Stopping || old(self).pending is ShuttingDown,
        ensures
            final(self).ended(*old(self), outcome, step),
    {
        let pending: Pending = self.pending;
        self.pending = Pending::Nothing;
        let error = stop_error(outcome);
        match pending {
            Pending::Stopping { paused, limit } => match error {
                Some(error) => {
                    self.terminal_error = Some(error.clone());
                    Step::Done(Err(error))
                },
                None => {
                    self.terminal_error = None;
                    self.proceed(paused, limit)
                },
            },
            _ => {
                self.terminal_error = Some("Capture owner has shut down".to_owned());
                match error {
                    Some(error) => Step::Done(Err(error)),
                    None => Step::Done(Ok(())),
                }
            },
        }
    }

    /// Takes note of whether the worker's threads could be started. Whether
    /// capture runs is then up to the worker to acknowledge.
    pub fn started(&mut self, running: bool)
        requires
            old(self).pending is Starting,
        ensures
            final(self).pending == Pending::Nothing,
            final(self).terminal_error == old(self).terminal_error,
            running ==> final(self).attached && final(self).worker == Some(
                old(self).pending->Starting_limit,
            ),
            !running ==> final(self).attached == old(self).attached && final(self).worker
                == old(self).worker,
    {
        if let Pending::Starting { limit } = self.pending {
            if running {
                self.attached = true;
                self.worker = Some(limit);
            }
        }
        self.pending = Pending::Nothing;
    }

    /// Whether capture is paused, given what the worker says, if one runs.
    pub fn is_paused(&self, state: Result<bool, String>) -> (paused: Result<bool, String>)
        ensures
            paused == (match self.terminal_error {
                Some(error) => Err::<bool, String>(error),
                None => match self.worker {
                    None => Ok(true),
                    Some(_) => state,
                },
            }),
    {
        match &self.terminal_error {
            Some(error) => Err(error.clone()),
            None => match self.worker {
                None => Ok(true),
                Some(_) => state,
            },
        }
    }
}

/// What is not known to have stopped stays unknown: with an error on record, no
/// request starts a worker, none is answered with success, and the error stays.
pub proof fn unverified_stops_are_latched(
    before: Controller,
    after: Controller,
    paused: bool,
    max_bytes: u64,
    step: Step,
)
    requires
        before.terminal_error is Some,
        after.requested(before, paused, max_bytes, step),
    ensures
        after.terminal_error == before.terminal_error,
        step is Done,
        step->Done_0 is Err,
{
}

/// A pause that is answered with success, at once or after a stop, leaves no
/// worker running, and what was on the clipboard before is not captured later.
pub proof fn acknowledged_pauses_have_no_worker(
    before: Controller,
    after: Controller,
    max_bytes: u64,
    outcome: Stopped,
    step: Step,
)
    requires
        step == Step::Done(Ok(())),
        after.requested(before, true, max_bytes, step) || (after.ended(before, outcome, step)
            && before.pending is Stopping && before.pending->paused && before.worker is None),
    ensures
        after.worker is None,
        after.attached,
        after.terminal_error is None,
{
}

/// A worker is only ever started when none runs, under a positive limit of at
/// most what can be published.
pub proof fn workers_start_alone_and_bounded(
    before: Controller,
    after: Controller,
    paused: bool,
    max_bytes: u64,
    step: Step,
)
    requires
        after.requested(before, paused, max_bytes, step),
        step is StartWorker,
    ensures
        !paused,
        after.worker is None,
        after.terminal_error is None,
        0 < step->limit <= MAX_WAYLAND_SELECTION_BYTES,
        step->skip_initial == before.attached,
{
}

} // verus!
