//! The rendering context, and the negotiation that leads to it.

use crate::fault::Fault;
use crate::frame::{frame, Color, Command, Draw, Span};
use crate::window::PhysicalSize;
use vstd::prelude::*;

verus! {

/// One step of the negotiation with the GPU. Each can fail.
#[derive(Clone, Copy, Debug, PartialEq, Eq, Structural)]
pub enum SetupStep {
    /// Make the surface that presents to the window.
    Surface,
    /// Ask for an adapter.
    Adapter,
    /// Ask the adapter for a device and its queue.
    Device,
    /// Ask the surface which texture formats it supports on the adapter.
    Format,
    /// Ask the surface for its default configuration at the window's size.
    Configuration,
}

/// How far a negotiation has come.
pub enum Verdict {
    /// The step is to be performed next.
    Pending(SetupStep),
    /// Every step succeeded.
    Ready,
    /// A step failed, and the negotiation is over.
    Halted(Fault),
}

impl SetupStep {
    /// The steps in the order in which they are performed.
    pub open spec fn order() -> Seq<SetupStep> {
        seq![
            SetupStep::Surface,
            SetupStep::Adapter,
            SetupStep::Device,
            SetupStep::Format,
            SetupStep::Configuration,
        ]
    }

    /// The place of the step in [`SetupStep::order`].
    pub open spec fn index(self) -> int {
        match self {
            SetupStep::Surface => 0,
            SetupStep::Adapter => 1,
            SetupStep::Device => 2,
            SetupStep::Format => 3,
            SetupStep::Configuration => 4,
        }
    }

    /// The fault that the negotiation halts with where the step fails.
    pub open spec fn fault(self) -> Fault {
        match self {
            SetupStep::Surface => Fault::Surface,
            SetupStep::Adapter => Fault::Adapter,
            SetupStep::Device => Fault::Device,
            SetupStep::Format => Fault::Format,
            SetupStep::Configuration => Fault::Configuration,
        }
    }

    /// What the negotiation comes to when the step has been performed:
    /// a failure halts it, a success leads to the next step in order,
    /// and after the last to a context that is ready.
    pub open spec fn advanced(self, succeeded: bool) -> Verdict {
        if !succeeded {
            Verdict::Halted(self.fault())
        } else if self.index() + 1 < Self::order().len() {
            Verdict::Pending(Self::order()[self.index() + 1])
        } else {
            Verdict::Ready
        }
    }

    /// What the negotiation comes to when the steps from this one on have
    /// been performed with `outcomes`, one after the other. Outcomes that
    /// follow the end of the negotiation change nothing.
    pub open spec fn after(self, outcomes: Seq<bool>) -> Verdict
        decreases outcomes.len(),
    {
        if outcomes.len() == 0 {
            Verdict::Pending(self)
        } else {
            match self.advanced(outcomes[0]) {
                Verdict::Pending(step) => step.after(outcomes.skip(1)),
                verdict => verdict,
            }
        }
    }
}

/// A negotiation under way for a window of a given size.
#[derive(Debug, PartialEq, Eq)]
pub struct Setup {
    size: PhysicalSize,
    step: SetupStep,
}

/// The rendering context of a window. The program holds the handles to
/// the surface, the device, the queue and the pipeline; this record holds
/// what the decisions depend on. One exists only where a negotiation has
/// succeeded in every step.
#[derive(Debug, PartialEq, Eq)]
pub struct GameState {
    size: PhysicalSize,
}

/// What a negotiation has come to after one more step.
#[derive(Debug, PartialEq, Eq)]
pub enum Progress {
    /// Another step is to be performed.
    Continue(Setup),
    /// The context is ready.
    Ready(GameState),
    /// The step failed. The process stops with the fault's message.
    Halted(Fault),
}

impl Progress {
    /// How far the negotiation has come.
    pub open spec fn verdict(self) -> Verdict {
        match self {
            Progress::Continue(setup) => Verdict::Pending(setup.step()),
            Progress::Ready(_) => Verdict::Ready,
            Progress::Halted(fault) => Verdict::Halted(fault),
        }
    }
}

impl Setup {
    /// The size of the window's drawable area.
    pub closed spec fn spec_size(&self) -> PhysicalSize {
        self.size
    }

    /// The step to perform next.
    pub closed spec fn spec_step(&self) -> SetupStep {
        self.step
    }

    /// Begins the negotiation for a window whose drawable area has `size`.
    pub fn begin(size: PhysicalSize) -> (setup: Setup)
        ensures
            setup.size() == size,
            setup.step() == SetupStep::Surface,
    {
        Setup { size, step: SetupStep::Surface }
    }

    /// The size of the window's drawable area.
    #[verifier::when_used_as_spec(spec_size)]
    pub fn size(&self) -> (size: PhysicalSize)
        ensures
            size == self.spec_size(),
    {
        self.size
    }

    /// The step to perform next.
    #[verifier::when_used_as_spec(spec_step)]
    pub fn step(&self) -> (step: SetupStep)
        ensures
            step == self.spec_step(),
    {
        self.step
    }

    /// Takes in whether the pending step succeeded. A failure halts the
    /// negotiation with the step's fault; a success leads to the next step,
    /// and after the last step to the context, for the same size.
    pub fn advance(self, succeeded: bool) -> (progress: Progress)
        ensures
            progress.verdict() == self.step().advanced(succeeded),
            progress matches Progress::Continue(setup) ==> setup.size() == self.size(),
            progress matches Progress::Ready(state) ==> state.size() == self.size(),
    {
        let size = self.size;
        if !succeeded {
            let fault = match self.step {
                SetupStep::Surface => Fault::Surface,
                SetupStep::Adapter => Fault::Adapter,
                SetupStep::Device => Fault::Device,
                SetupStep::Format => Fault::Format,
                SetupStep::Configuration => Fault::Configuration,
            };
            Progress::Halted(fault)
        } else {
            match self.step {
                SetupStep::Surface => Progress::Continue(Setup { size, step: SetupStep::Adapter }),
                SetupStep::Adapter => Progress::Continue(Setup { size, step: SetupStep::Device }),
                SetupStep::Device => Progress::Continue(Setup { size, step: SetupStep::Format }),
                SetupStep::Format => Progress::Continue(
                    Setup { size, step: SetupStep::Configuration },
                ),
                SetupStep::Configuration => Progress::Ready(GameState { size }),
            }
        }
    }
}

impl GameState {
    /// The size of the window's drawable area.
    pub closed spec fn spec_size(&self) -> PhysicalSize {
        self.size
    }

    /// The size of the window's drawable area, as it was when the context
    /// was negotiated.
    #[verifier::when_used_as_spec(spec_size)]
    pub fn size(&self) -> (size: PhysicalSize)
        ensures
            size == self.spec_size(),
    {
        self.size
    }

    /// The commands that draw one frame: take a frame, record the one
    /// pass that clears it and draws the triangle, submit, present.
    pub fn render(&self) -> (commands: Vec<Command>)
        ensures
            commands@ == frame(),
    {
        let clear = Color { red: 500, green: 500, blue: 500, alpha: 1000 };
        let draw = Draw {
            vertices: Span { start: 0, end: 3 },
            instances: Span { start: 0, end: 1 },
        };
        let mut commands: Vec<Command> = Vec::new();
        commands.push(Command::Acquire);
        commands.push(Command::Pass { clear, draw });
        commands.push(Command::Submit);
        commands.push(Command::Present);
        commands
    }
}

/// Whether each of the first `upto` outcomes, as far as there are that
/// many, is a success.
pub open spec fn all_succeeded(outcomes: Seq<bool>, upto: int) -> bool {
    forall|i: int| 0 <= i < upto && i < outcomes.len() ==> outcomes[i]
}

/// While no step has failed and steps remain, the next step in order is
/// the pending one.
pub proof fn negotiation_follows_the_order(outcomes: Seq<bool>)
    requires
        outcomes.len() < SetupStep::order().len(),
        all_succeeded(outcomes, outcomes.len() as int),
    ensures
        SetupStep::Surface.after(outcomes) == Verdict::Pending(
            SetupStep::order()[outcomes.len() as int],
        ),
{
    reveal_with_fuel(SetupStep::after, 6);
}

/// The context is ready exactly when every step has been performed and
/// every one succeeded.
pub proof fn negotiation_is_ready_iff_every_step_succeeded(outcomes: Seq<bool>)
    ensures
        SetupStep::Surface.after(outcomes) is Ready <==> outcomes.len() >= SetupStep::order().len()
            && all_succeeded(outcomes, SetupStep::order().len() as int),
{
    reveal_with_fuel(SetupStep::after, 6);
}

/// The first step that fails halts the negotiation with its own fault,
/// whatever the outcomes after it.
pub proof fn negotiation_halts_at_the_first_failure(outcomes: Seq<bool>, failed: int)
    requires
        0 <= failed < outcomes.len(),
        failed < SetupStep::order().len(),
        !outcomes[failed],
        all_succeeded(outcomes, failed),
    ensures
        SetupStep::Surface.after(outcomes) == Verdict::Halted(SetupStep::order()[failed].fault()),
{
    reveal_with_fuel(SetupStep::after, 6);
}

/// A negotiation does not go round: once each step has had an outcome,
/// it is over, ready or halted.
pub proof fn negotiation_is_over_after_every_step(outcomes: Seq<bool>)
    requires
        outcomes.len() >= SetupStep::order().len(),
    ensures
        SetupStep::Surface.after(outcomes) !is Pending,
{
    reveal_with_fuel(SetupStep::after, 6);
}

} // verus!
