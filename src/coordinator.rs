//! The watch lifecycle: `Idle -> Watching -> {Matched | Cancelled}`.
//!
//! A [`Coordinator`] makes every decision of the watcher and of the
//! foreground interface; the caller performs what it asks for. Each method
//! stands for one event, and its contract is stated through [`next_phase`]
//! and [`effect_of`], which also drive the trace model in `laws`.

use vstd::prelude::*;
use crate::command::{parse_extra_command, split_extra};

verus! {

/// Seconds the watcher sleeps between two existence checks.
pub const POLL_INTERVAL_SECS: u64 = 1;

/// Where a coordinator stands.
#[derive(Clone, Copy, Debug, PartialEq, Eq, Structural)]
pub enum Phase {
    /// Constructed, the watcher not yet started.
    Idle,
    /// The watcher polls for the presence file.
    Watching,
    /// The file was seen and the main command handed out; the found signal
    /// is owed once the launch has been attempted.
    Dispatching,
    /// The main command was launched and the found signal sent.
    Matched,
    /// The watch was cancelled before any match.
    Cancelled,
}

/// What the watcher does after one existence check.
#[derive(Clone, Copy, Debug, PartialEq, Eq, Structural)]
pub enum Step {
    /// Launch the main command, then report the launch attempt.
    Dispatch,
    /// Sleep one poll interval, then poll again.
    Sleep,
    /// Leave the poll loop for good.
    Stop,
}

/// An input to the coordinator, one per method.
#[derive(Clone, Copy, Debug, PartialEq, Eq, Structural)]
pub enum Event {
    Start,
    Cancel,
    /// One existence check, with whether the file was there.
    Poll(bool),
    /// The main command's launch was attempted, with whether it succeeded.
    Dispatched(bool),
    /// The auxiliary action was triggered, by hand or at startup.
    Auxiliary,
}

/// An outward effect the coordinator asks for in answer to an event.
#[derive(Clone, Copy, Debug, PartialEq, Eq, Structural)]
pub enum Effect {
    Nothing,
    RunMain,
    SendFound,
    RunAuxiliary,
}

/// The phase after event `e` in phase `p`.
pub open spec fn next_phase(p: Phase, e: Event) -> Phase {
    match e {
        Event::Start => if p == Phase::Idle { Phase::Watching } else { p },
        Event::Cancel => if p == Phase::Idle || p == Phase::Watching { Phase::Cancelled } else { p },
        Event::Poll(present) => if p == Phase::Watching && present { Phase::Dispatching } else { p },
        Event::Dispatched(_) => if p == Phase::Dispatching { Phase::Matched } else { p },
        Event::Auxiliary => p,
    }
}

/// The effect that event `e` in phase `p` asks for.
pub open spec fn effect_of(p: Phase, e: Event) -> Effect {
    match e {
        Event::Poll(present) => if p == Phase::Watching && present { Effect::RunMain } else { Effect::Nothing },
        Event::Dispatched(_) => if p == Phase::Dispatching { Effect::SendFound } else { Effect::Nothing },
        Event::Auxiliary => Effect::RunAuxiliary,
        _ => Effect::Nothing,
    }
}

/// What the watcher does after an existence check in phase `p`.
pub open spec fn poll_step(p: Phase, present: bool) -> Step {
    if p == Phase::Watching {
        if present { Step::Dispatch } else { Step::Sleep }
    } else {
        Step::Stop
    }
}

/// The shared run flag: true from construction until a cancellation.
pub open spec fn is_active_phase(p: Phase) -> bool {
    p != Phase::Cancelled
}

/// What a coordinator holds, as plain values.
pub ghost struct CoordinatorModel {
    pub phase: Phase,
    pub presence_file: Seq<char>,
    pub main_command: Seq<char>,
    pub extra_label: Seq<char>,
    pub extra_command: Seq<char>,
}

impl CoordinatorModel {
    /// The same coordinator in phase `p`.
    pub open spec fn with_phase(self, p: Phase) -> CoordinatorModel {
        CoordinatorModel { phase: p, ..self }
    }
}

/// Coordinates one watch: the presence file, the main command launched once
/// on a match, and the auxiliary action.
pub struct Coordinator {
    phase: Phase,
    presence_file: String,
    main_command: String,
    extra_label: String,
    extra_command: String,
}

impl View for Coordinator {
    type V = CoordinatorModel;

    closed spec fn view(&self) -> CoordinatorModel {
        CoordinatorModel {
            phase: self.phase,
            presence_file: self.presence_file@,
            main_command: self.main_command@,
            extra_label: self.extra_label@,
            extra_command: self.extra_command@,
        }
    }
}

impl Coordinator {
    /// A coordinator in phase `Idle`; `extra_command` is a `Label:command`
    /// pair, parsed as [`parse_extra_command`] does.
    pub fn new(presence_file: String, main_command: String, extra_command: &str) -> (r: Coordinator)
        ensures
            r@.phase == Phase::Idle,
            r@.presence_file == presence_file@,
            r@.main_command == main_command@,
            (r@.extra_label, r@.extra_command) == split_extra(extra_command@),
    {
        let (extra_label, extra_command) = parse_extra_command(extra_command);
        Coordinator { phase: Phase::Idle, presence_file, main_command, extra_label, extra_command }
    }

    pub fn phase(&self) -> (r: Phase)
        ensures
            r == self@.phase,
    {
        self.phase
    }

    /// The run flag that the watcher observes; it falls only on cancellation.
    pub fn is_active(&self) -> (r: bool)
        ensures
            r == is_active_phase(self@.phase),
    {
        self.phase != Phase::Cancelled
    }

    pub fn presence_file(&self) -> (r: &str)
        ensures
            r@ == self@.presence_file,
    {
        self.presence_file.as_str()
    }

    pub fn main_command(&self) -> (r: &str)
        ensures
            r@ == self@.main_command,
    {
        self.main_command.as_str()
    }

    pub fn extra_label(&self) -> (r: &str)
        ensures
            r@ == self@.extra_label,
    {
        self.extra_label.as_str()
    }

    /// Starts the watch; a second start, or one after cancellation, changes
    /// nothing.
    pub fn start(&mut self)
        ensures
            final(self)@ == old(self)@.with_phase(next_phase(old(self)@.phase, Event::Start)),
    {
        if self.phase == Phase::Idle {
            self.phase = Phase::Watching;
        }
    }

    /// Cancels the watch unless a match has already fired, in which case it
    /// changes nothing.
    pub fn cancel(&mut self)
        ensures
            final(self)@ == old(self)@.with_phase(next_phase(old(self)@.phase, Event::Cancel)),
            effect_of(old(self)@.phase, Event::Cancel) == Effect::Nothing,
    {
        if self.phase == Phase::Idle || self.phase == Phase::Watching {
            self.phase = Phase::Cancelled;
        }
    }

    /// Takes the result of one existence check of the presence file and says
    /// what the watcher does next. `Step::Dispatch` comes at most once: the
    /// caller then launches [`Self::main_command`] and reports it through
    /// [`Self::main_dispatched`].
    pub fn poll(&mut self, present: bool) -> (r: Step)
        ensures
            r == poll_step(old(self)@.phase, present),
            (r == Step::Dispatch) == (effect_of(old(self)@.phase, Event::Poll(present)) == Effect::RunMain),
            final(self)@ == old(self)@.with_phase(next_phase(old(self)@.phase, Event::Poll(present))),
    {
        if self.phase == Phase::Watching {
            if present {
                self.phase = Phase::Dispatching;
                Step::Dispatch
            } else {
                Step::Sleep
            }
        } else {
            Step::Stop
        }
    }

    /// Records that the launch of the main command was attempted; whether it
    /// succeeded does not matter. Returns whether the found signal is to be
    /// sent now.
    pub fn main_dispatched(&mut self, spawned: bool) -> (r: bool)
        ensures
            r == (effect_of(old(self)@.phase, Event::Dispatched(spawned)) == Effect::SendFound),
            r == (old(self)@.phase == Phase::Dispatching),
            final(self)@ == old(self)@.with_phase(next_phase(old(self)@.phase, Event::Dispatched(spawned))),
    {
        if self.phase == Phase::Dispatching {
            self.phase = Phase::Matched;
            true
        } else {
            false
        }
    }

    /// The command to launch for one trigger of the auxiliary action. Every
    /// trigger asks for one launch, whatever the phase, and leaves the phase
    /// as it is.
    pub fn trigger_auxiliary(&self) -> (r: &str)
        ensures
            r@ == self@.extra_command,
            effect_of(self@.phase, Event::Auxiliary) == Effect::RunAuxiliary,
            next_phase(self@.phase, Event::Auxiliary) == self@.phase,
    {
        self.extra_command.as_str()
    }
}

} // verus!
