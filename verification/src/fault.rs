//! The failures that end the program.

use vstd::prelude::*;

verus! {

/// A failure that the program does not recover from. Whoever is handed one
/// stops the process with the fault's message.
#[derive(Clone, Copy, Debug, PartialEq, Eq, Structural)]
pub enum Fault {
    /// No surface could be made for the window.
    Surface,
    /// No adapter answered the request.
    Adapter,
    /// The adapter gave no device.
    Device,
    /// The surface reports no texture format.
    Format,
    /// The surface has no default configuration on the adapter.
    Configuration,
    /// The surface handed out no frame to draw on.
    Frame,
    /// A redraw was asked for while no rendering context exists.
    Redraw,
}

impl Fault {
    /// The text of the diagnostic for each fault.
    pub open spec fn message_text(self) -> Seq<char> {
        match self {
            Fault::Surface => "Failed to initialised surface"@,
            Fault::Adapter => "Failed to get adaptor"@,
            Fault::Device => "Failed to load device"@,
            Fault::Format => "Failed to get surface format"@,
            Fault::Configuration => "Failed to get surface configuration"@,
            Fault::Frame => "Failed to get frame"@,
            Fault::Redraw => "failed to redraw window"@,
        }
    }

    /// The diagnostic that the process stops with.
    pub fn message(&self) -> (text: &'static str)
        ensures
            text@ == self.message_text(),
    {
        match self {
            Fault::Surface => "Failed to initialised surface",
            Fault::Adapter => "Failed to get adaptor",
            Fault::Device => "Failed to load device",
            Fault::Format => "Failed to get surface format",
            Fault::Configuration => "Failed to get surface configuration",
            Fault::Frame => "Failed to get frame",
            Fault::Redraw => "failed to redraw window",
        }
    }
}

} // verus!
