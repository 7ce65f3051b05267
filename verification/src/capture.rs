//! When clipboard contents may be captured. Publication has an independent
//! lifetime.
use vstd::prelude::*;
use vstd::string::*;

pub mod policy;
pub mod transfer;
pub mod wayland;
pub mod worker;

verus! {

/// Who turns capture on and off. A pause is acknowledged only after every
/// submission to the store has ended.
pub trait CaptureControl: Sized {
    fn set_paused(&mut self, paused: bool, max_bytes: u64) -> Result<(), String>;

    fn is_paused(&self) -> Result<bool, String>;

    /// Stops for good; unless it is done otherwise, by a pause.
    fn shutdown(&mut self) -> (result: Result<(), String>)
        default_ensures
            exists|asked: &mut Self|
                *asked == *old(self) && *final(asked) == *final(self) && #[trigger] call_ensures(
                    Self::set_paused,
                    (asked, true, 0),
                    result,
                ),
    {
        self.set_paused(true, 0)
    }
}

/// No capture at all: it is always paused, and cannot be resumed.
pub struct Unavailable;

impl CaptureControl for Unavailable {
    fn set_paused(&mut self, paused: bool, max_bytes: u64) -> (result: Result<(), String>)
        ensures
            paused ==> result is Ok,
            !paused ==> (result matches Err(message) && message@
                == "No capture owner is attached to this API"@),
    {
        if paused {
            Ok(())
        } else {
            Err("No capture owner is attached to this API".to_owned())
        }
    }

    fn is_paused(&self) -> (result: Result<bool, String>)
        ensures
            result == Ok::<bool, String>(true),
    {
        Ok(true)
    }
}

/// The period of capture to which an offer belongs, from admission to storage.
#[derive(Clone, Copy, Debug, PartialEq, Eq, Structural)]
pub struct Generation(pub u64);

/// What the store made of a submission.
pub enum Sink<T> {
    /// It was stored, or safely refused.
    Accepted(T),
    /// It is not known whether it was stored.
    Uncertain(String),
    /// The store gave up half-way.
    Panicked,
}

/// Whether contents may be captured. It starts closed; closing takes effect at
/// once, even while a submission is under way.
pub struct Admission {
    open: bool,
    generation: u64,
    in_flight: bool,
    uncertain: bool,
}

/// The state of an `Admission`.
pub struct AdmissionView {
    pub open: bool,
    pub generation: u64,
    pub in_flight: bool,
    pub uncertain: bool,
}

impl View for Admission {
    type V = AdmissionView;

    closed spec fn view(&self) -> AdmissionView {
        AdmissionView {
            open: self.open,
            generation: self.generation,
            in_flight: self.in_flight,
            uncertain: self.uncertain,
        }
    }
}

/// The generation after `generation`; after the last one comes the first.
pub open spec fn next_generation(generation: u64) -> u64 {
    if generation == u64::MAX {
        0
    } else {
        (generation + 1) as u64
    }
}

impl AdmissionView {
    pub open spec fn closed(self) -> Self {
        AdmissionView { open: false, generation: next_generation(self.generation), ..self }
    }

    pub open spec fn resumed(self) -> Self {
        if self.uncertain {
            self
        } else {
            AdmissionView { open: true, generation: next_generation(self.generation), ..self }
        }
    }

    pub open spec fn accepts(self, generation: Generation) -> bool {
        self.open && generation.0 == self.generation
    }

    /// What a failed submission leaves behind: it is never forgotten.
    pub open spec fn failed(self) -> Self {
        AdmissionView { uncertain: true, in_flight: false, ..self.closed() }
    }
}

fn increment(generation: u64) -> (next: u64)
    ensures
        next == next_generation(generation),
{
    if generation == u64::MAX {
        0
    } else {
        generation + 1
    }
}

impl Default for Admission {
    fn default() -> (gate: Self)
        ensures
            gate@ == (AdmissionView {
                open: false,
                generation: 0,
                in_flight: false,
                uncertain: false,
            }),
    {
        Admission { open: false, generation: 0, in_flight: false, uncertain: false }
    }
}

/// What is said of a submission whose outcome is unknown.
pub open spec fn uncertain_message() -> Seq<char> {
    "Capture submission outcome is uncertain; engine recovery is required"@
}

impl Admission {
    /// Refuses everything from now on.
    pub fn close(&mut self)
        ensures
            final(self)@ == old(self)@.closed(),
    {
        self.open = false;
        self.generation = increment(self.generation);
    }

    /// Whether no submission is under way.
    pub fn idle(&self) -> (idle: bool)
        ensures
            idle == !self@.in_flight,
    {
        !self.in_flight
    }

    fn verified_submission(&self) -> (result: Result<(), String>)
        ensures
            match result {
                Ok(_) => !self@.uncertain,
                Err(message) => self@.uncertain && message@ == uncertain_message(),
            },
    {
        if self.uncertain {
            Err(
                "Capture submission outcome is uncertain; engine recovery is required".to_owned(),
            )
        } else {
            Ok(())
        }
    }

    /// Confirms, once no submission is under way, that what was submitted is
    /// known to have been stored or refused.
    pub fn fence(&self) -> (result: Result<(), String>)
        requires
            !self@.in_flight,
        ensures
            match result {
                Ok(_) => !self@.uncertain,
                Err(message) => self@.uncertain && message@ == uncertain_message(),
            },
    {
        self.verified_submission()
    }

    /// Opens a new generation, unless the outcome of a submission is unknown.
    pub fn resume(&mut self) -> (result: Result<(), String>)
        requires
            !old(self)@.in_flight,
        ensures
            final(self)@ == old(self)@.resumed(),
            match result {
                Ok(_) => !old(self)@.uncertain,
                Err(message) => old(self)@.uncertain && message@ == uncertain_message(),
            },
    {
        match self.verified_submission() {
            Ok(_) => {
                self.generation = increment(self.generation);
                self.open = true;
                Ok(())
            },
            Err(message) => Err(message),
        }
    }

    /// The current generation, while open.
    pub fn admitted(&self) -> (generation: Option<Generation>)
        ensures
            generation == (if self@.open {
                Some(Generation(self@.generation))
            } else {
                None
            }),
    {
        if self.open {
            Some(Generation(self.generation))
        } else {
            None
        }
    }

    /// Whether what was admitted under `generation` may still be stored.
    pub fn accepts(&self, generation: Generation) -> (accepted: bool)
        ensures
            accepted == self@.accepts(generation),
    {
        self.open && generation.0 == self.generation
    }

    /// Begins a submission of what was admitted under `generation`, where it may
    /// still be stored.
    pub fn begin(&mut self, generation: Generation) -> (begun: bool)
        requires
            !old(self)@.in_flight,
        ensures
            begun == old(self)@.accepts(generation),
            final(self)@ == (AdmissionView { in_flight: begun, ..old(self)@ }),
    {
        let begun = self.accepts(generation);
        self.in_flight = begun;
        begun
    }

    /// Ends a submission. An outcome that is not known closes admission for good.
    pub fn record<T>(&mut self, outcome: Sink<T>) -> (result: Result<T, String>)
        requires
            old(self)@.in_flight,
        ensures
            match outcome {
                Sink::Accepted(value) => result == Ok::<T, String>(value) && final(self)@ == (
                AdmissionView { in_flight: false, ..old(self)@ }),
                Sink::Uncertain(message) => result == Err::<T, String>(message) && final(self)@
                    == old(self)@.failed(),
                Sink::Panicked => (result matches Err(message) && message@
                    == "Capture sink panicked"@) && final(self)@ == old(self)@.failed(),
            },
    {
        self.in_flight = false;
        let message = match outcome {
            Sink::Accepted(value) => {
                return Ok(value);
            },
            Sink::Uncertain(message) => message,
            Sink::Panicked => "Capture sink panicked".to_owned(),
        };
        self.uncertain = true;
        self.close();
        Err(message)
    }

    /// Submits what was admitted under `generation`: nothing reaches the store
    /// where it may not be stored any more.
    pub fn submit<T, F: FnOnce() -> Sink<T>>(&mut self, generation: Generation, submit: F) -> (result:
        Result<Option<T>, String>)
        requires
            !old(self)@.in_flight,
            call_requires(submit, ()),
        ensures
            !old(self)@.accepts(generation) ==> result == Ok::<Option<T>, String>(None)
                && final(self)@ == old(self)@,
            old(self)@.accepts(generation) ==> exists|outcome: Sink<T>| #[trigger]
                call_ensures(submit, (), outcome) && match outcome {
                    Sink::Accepted(value) => result == Ok::<Option<T>, String>(Some(value))
                        && final(self)@ == old(self)@,
                    Sink::Uncertain(message) => result == Err::<Option<T>, String>(message)
                        && final(self)@ == old(self)@.failed(),
                    Sink::Panicked => (result matches Err(message) && message@
                        == "Capture sink panicked"@) && final(self)@ == old(self)@.failed(),
                },
    {
        if !self.begin(generation) {
            return Ok(None);
        }
        let outcome = submit();
        match self.record(outcome) {
            Ok(value) => Ok(Some(value)),
            Err(message) => Err(message),
        }
    }
}

/// One thing that can happen to an `Admission`.
pub enum AdmissionStep {
    Close,
    Resume,
    Begin(Generation),
    Stored,
    Lost,
}

impl AdmissionView {
    /// The state after `step`; a step whose time has not come changes nothing.
    pub open spec fn after(self, step: AdmissionStep) -> Self {
        match step {
            AdmissionStep::Close => self.closed(),
            AdmissionStep::Resume => if self.in_flight {
                self
            } else {
                self.resumed()
            },
            AdmissionStep::Begin(generation) => if self.in_flight {
                self
            } else {
                AdmissionView { in_flight: self.accepts(generation), ..self }
            },
            AdmissionStep::Stored => AdmissionView { in_flight: false, ..self },
            AdmissionStep::Lost => if self.in_flight {
                self.failed()
            } else {
                self
            },
        }
    }

    /// The state after several steps.
    pub open spec fn run(self, steps: Seq<AdmissionStep>) -> Self
        decreases steps.len(),
    {
        if steps.len() == 0 {
            self
        } else {
            self.run(steps.drop_last()).after(steps.last())
        }
    }
}

/// `later` is `k` generations after `earlier`.
spec fn generations_apart(earlier: u64, later: u64, k: int) -> bool {
    later == (earlier + k) % 0x1_0000_0000_0000_0000
}

proof fn generation_moves(start: AdmissionView, steps: Seq<AdmissionStep>) -> (k: int)
    ensures
        0 <= k <= steps.len(),
        generations_apart(start.generation, start.run(steps).generation, k),
    decreases steps.len(),
{
    if steps.len() == 0 {
        0
    } else {
        let before = generation_moves(start, steps.drop_last());
        let a = start.run(steps.drop_last()).generation;
        let b = start.run(steps).generation;
        assert(b == a || b == next_generation(a));
        if b == a {
            before
        } else {
            before + 1
        }
    }
}

/// What was admitted before a pause is never stored after it: once closed, a
/// gate does not accept the generation that was open until then, whatever
/// happens next, short of the counter coming round.
pub proof fn closed_generations_never_revive(start: AdmissionView, steps: Seq<AdmissionStep>)
    requires
        start.open,
        steps.len() < u64::MAX,
    ensures
        !start.closed().run(steps).accepts(Generation(start.generation)),
{
    let k = generation_moves(start.closed(), steps);
    let now = start.closed().run(steps).generation;
    assert(now == (start.closed().generation + k) % 0x1_0000_0000_0000_0000);
    assert(now != start.generation);
}

/// A submission whose outcome is unknown is never forgotten: from then on the
/// gate admits nothing, and neither a fence nor a resumption succeeds.
pub proof fn uncertainty_is_latched(start: AdmissionView, steps: Seq<AdmissionStep>)
    requires
        start.uncertain,
        !start.open,
    ensures
        start.run(steps).uncertain,
        !start.run(steps).open,
    decreases steps.len(),
{
    if steps.len() > 0 {
        uncertainty_is_latched(start, steps.drop_last());
    }
}

} // verus!
