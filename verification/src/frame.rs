//! What drawing one frame consists of.

use crate::fault::Fault;
use vstd::prelude::*;

verus! {

/// A colour, each channel in thousandths of full intensity.
#[derive(Clone, Copy, Debug, PartialEq, Eq, Structural)]
pub struct Color {
    pub red: u16,
    pub green: u16,
    pub blue: u16,
    pub alpha: u16,
}

/// The numbers from `start` up to, and without, `end`.
#[derive(Clone, Copy, Debug, PartialEq, Eq, Structural)]
pub struct Span {
    pub start: u32,
    pub end: u32,
}

/// One draw call without an index buffer.
#[derive(Clone, Copy, Debug, PartialEq, Eq, Structural)]
pub struct Draw {
    pub vertices: Span,
    pub instances: Span,
}

/// One thing that is done to bring a frame to the screen.
#[derive(Clone, Copy, Debug, PartialEq, Eq, Structural)]
pub enum Command {
    /// Take the next frame from the surface. Where the surface hands
    /// none out, the process stops with [`Command::fault`].
    Acquire,
    /// Record one render pass on the frame: it clears the frame to
    /// `clear`, binds the pipeline and issues `draw`.
    Pass { clear: Color, draw: Draw },
    /// Hand what was recorded to the queue.
    Submit,
    /// Show the frame.
    Present,
}

impl Span {
    /// How many numbers the span holds.
    pub open spec fn len(self) -> nat {
        if self.start <= self.end {
            (self.end - self.start) as nat
        } else {
            0
        }
    }
}

/// The colour that every frame is cleared to: opaque mid grey.
pub open spec fn clear_color() -> Color {
    Color { red: 500, green: 500, blue: 500, alpha: 1000 }
}

/// The one draw of every frame: three vertices, one instance.
pub open spec fn triangle() -> Draw {
    Draw { vertices: Span { start: 0, end: 3 }, instances: Span { start: 0, end: 1 } }
}

/// The commands of every frame, in the order in which they are carried out.
pub open spec fn frame() -> Seq<Command> {
    seq![
        Command::Acquire,
        Command::Pass { clear: clear_color(), draw: triangle() },
        Command::Submit,
        Command::Present,
    ]
}

/// How many of `commands` meet `wanted`.
pub open spec fn count(commands: Seq<Command>, wanted: spec_fn(Command) -> bool) -> nat
    decreases commands.len(),
{
    if commands.len() == 0 {
        0
    } else {
        count(commands.drop_last(), wanted) + if wanted(commands.last()) {
            1nat
        } else {
            0nat
        }
    }
}

/// A frame is acquired once, cleared once, drawn on once with three
/// vertices in one instance, submitted once and presented once.
pub proof fn frame_is_one_clear_one_draw_one_present()
    ensures
        count(frame(), |c: Command| c is Acquire) == 1,
        count(frame(), |c: Command| c is Pass) == 1,
        count(
            frame(),
            |c: Command|
                c matches Command::Pass { clear, draw } && clear == clear_color()
                    && draw.vertices.len() == 3 && draw.instances.len() == 1,
        ) == 1,
        count(frame(), |c: Command| c is Submit) == 1,
        count(frame(), |c: Command| c is Present) == 1,
{
    reveal_with_fuel(count, 5);
}

impl Command {
    /// The fault that the process stops with where the command cannot
    /// be carried out. Only taking a frame can fail.
    pub open spec fn fault_of(self) -> Option<Fault> {
        match self {
            Command::Acquire => Some(Fault::Frame),
            _ => None,
        }
    }

    /// The fault that the process stops with where the command cannot
    /// be carried out, and `None` for a command that cannot fail.
    pub fn fault(&self) -> (fault: Option<Fault>)
        ensures
            fault == self.fault_of(),
    {
        match self {
            Command::Acquire => Some(Fault::Frame),
            _ => None,
        }
    }
}

} // verus!
