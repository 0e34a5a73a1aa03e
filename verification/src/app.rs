//! How the program answers what its event loop tells it.

use crate::fault::Fault;
use crate::frame::{frame, Command};
use crate::state::GameState;
use crate::window::WindowAttributes;
use vstd::prelude::*;

verus! {

/// What the event loop tells about the window, as far as the program
/// tells events apart.
#[derive(Clone, Copy, Debug, PartialEq, Eq, Structural)]
pub enum WindowEvent {
    /// The user asked to close the window.
    CloseRequested,
    /// The window wants to be drawn.
    RedrawRequested,
    /// Anything else.
    Other,
}

/// What the program does in answer to an event.
#[derive(Debug, PartialEq, Eq)]
pub enum Action {
    /// Leave the event loop.
    Exit,
    /// Carry out the commands in order, then ask for the next redraw.
    Redraw(Vec<Command>),
    /// Stop the process with the fault's message.
    Abort(Fault),
    /// Nothing.
    Ignore,
}

/// An [`Action`], with the commands as a sequence.
pub enum Reaction {
    Exit,
    Redraw(Seq<Command>),
    Abort(Fault),
    Ignore,
}

impl View for Action {
    type V = Reaction;

    open spec fn view(&self) -> Reaction {
        match self {
            Action::Exit => Reaction::Exit,
            Action::Redraw(commands) => Reaction::Redraw(commands@),
            Action::Abort(fault) => Reaction::Abort(*fault),
            Action::Ignore => Reaction::Ignore,
        }
    }
}

/// The program, by what it has brought up so far.
#[derive(Debug, PartialEq, Eq)]
pub enum App {
    /// No window yet.
    Idle,
    /// The window is there or being opened; its rendering context is not.
    Opening,
    /// The window and its rendering context are there.
    Running(GameState),
}

impl App {
    /// Whether the program opens its window when the event loop resumes.
    pub open spec fn opens_window(self) -> bool {
        self is Idle
    }

    /// The program after the event loop has resumed.
    pub open spec fn resumed_to(self) -> App {
        match self {
            App::Idle => App::Opening,
            app => app,
        }
    }

    /// The answer to an event: a request to close leaves the event loop;
    /// a request to redraw draws one frame, and is a fault without a
    /// rendering context; nothing else is answered.
    pub open spec fn reaction(self, event: WindowEvent) -> Reaction {
        match event {
            WindowEvent::CloseRequested => Reaction::Exit,
            WindowEvent::RedrawRequested => match self {
                App::Running(_) => Reaction::Redraw(frame()),
                _ => Reaction::Abort(Fault::Redraw),
            },
            WindowEvent::Other => Reaction::Ignore,
        }
    }

    /// The program before anything has happened.
    pub fn new() -> (app: App)
        ensures
            app == App::Idle,
    {
        App::Idle
    }

    /// The event loop has resumed. Returns the window to open, which is
    /// the main window the first time and none afterwards.
    pub fn resumed(&mut self) -> (window: Option<WindowAttributes>)
        ensures
            *final(self) == old(self).resumed_to(),
            window is Some <==> old(self).opens_window(),
            window matches Some(attributes) ==> attributes.is_main_window(),
    {
        match self {
            App::Idle => {
                *self = App::Opening;
                Some(WindowAttributes::main_window())
            },
            _ => None,
        }
    }

    /// Takes in the rendering context that was negotiated for the window.
    pub fn attach(&mut self, state: GameState)
        ensures
            *final(self) == App::Running(state),
    {
        *self = App::Running(state);
    }

    /// Answers an event of the window.
    pub fn window_event(&self, event: WindowEvent) -> (action: Action)
        ensures
            action@ == self.reaction(event),
    {
        match event {
            WindowEvent::CloseRequested => Action::Exit,
            WindowEvent::RedrawRequested => match self {
                App::Running(state) => Action::Redraw(state.render()),
                _ => Action::Abort(Fault::Redraw),
            },
            WindowEvent::Other => Action::Ignore,
        }
    }
}

impl Default for App {
    fn default() -> (app: App)
        ensures
            app == App::Idle,
    {
        App::Idle
    }
}

/// Closing the window leaves the event loop, whatever the program has
/// brought up.
pub proof fn closing_always_exits(app: App)
    ensures
        app.reaction(WindowEvent::CloseRequested) == Reaction::Exit,
{
}

/// The window is opened once: after the event loop has resumed, or a
/// rendering context has been taken in, resuming opens no window.
pub proof fn window_is_opened_once(app: App, state: GameState)
    ensures
        !app.resumed_to().opens_window(),
        !App::Running(state).opens_window(),
{
}

/// With a rendering context, every request to redraw is answered with
/// the commands of one frame, and without one with a fault: nothing is
/// drawn before the negotiation has succeeded.
pub proof fn redraw_draws_one_frame(app: App)
    ensures
        app is Running ==> app.reaction(WindowEvent::RedrawRequested) == Reaction::Redraw(frame()),
        app !is Running ==> app.reaction(WindowEvent::RedrawRequested) == Reaction::Abort(
            Fault::Redraw,
        ),
{
}

} // verus!
