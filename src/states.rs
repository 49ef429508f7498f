//! The game's states and how window events move between them.
use vstd::prelude::*;

verus! {

/// Keys that the states react to.
#[derive(Clone, Copy, Debug, PartialEq, Eq, Structural)]
pub enum Key {
    Escape,
    P,
    Other,
}

/// What the window reports.
#[derive(Clone, Copy, Debug, PartialEq, Eq, Structural)]
pub enum WindowEvent {
    CloseRequested,
    KeyDown(Key),
    Other,
}

/// An event handed to the current state.
#[derive(Clone, Copy, Debug, PartialEq, Eq, Structural)]
pub enum StateEvent {
    Window(WindowEvent),
    Other,
}

/// What the state machine does next.
#[derive(Clone, Copy, Debug, PartialEq, Eq, Structural)]
pub enum Trans {
    /// Stay in the current state.
    Stay,
    /// Leave the game.
    Quit,
    /// Pause: put the menu on top of the current state.
    PushMenu,
    /// Leave the menu and resume.
    Pop,
}

/// Whether the event asks to close the game.
pub open spec fn asks_to_quit(event: StateEvent) -> bool {
    event == StateEvent::Window(WindowEvent::CloseRequested) || event == StateEvent::Window(
        WindowEvent::KeyDown(Key::Escape),
    )
}

pub open spec fn is_pause_key(event: StateEvent) -> bool {
    event == StateEvent::Window(WindowEvent::KeyDown(Key::P))
}

fn quit_requested(event: &StateEvent) -> (r: bool)
    ensures
        r == asks_to_quit(*event),
{
    match event {
        StateEvent::Window(WindowEvent::CloseRequested) => true,
        StateEvent::Window(WindowEvent::KeyDown(Key::Escape)) => true,
        _ => false,
    }
}

fn pause_pressed(event: &StateEvent) -> (r: bool)
    ensures
        r == is_pause_key(*event),
{
    match event {
        StateEvent::Window(WindowEvent::KeyDown(Key::P)) => true,
        _ => false,
    }
}

/// The running game.
pub struct Sidescroller;

/// The pause menu.
pub struct Menu;

impl Sidescroller {
    /// Escape or closing the window quits; P pauses.
    pub fn handle_event(&mut self, event: StateEvent) -> (r: Trans)
        ensures
            r == (if asks_to_quit(event) {
                Trans::Quit
            } else if is_pause_key(event) {
                Trans::PushMenu
            } else {
                Trans::Stay
            }),
    {
        if quit_requested(&event) {
            Trans::Quit
        } else if pause_pressed(&event) {
            Trans::PushMenu
        } else {
            Trans::Stay
        }
    }
}

impl Menu {
    /// Escape or closing the window quits; P resumes.
    pub fn handle_event(&mut self, event: StateEvent) -> (r: Trans)
        ensures
            r == (if asks_to_quit(event) {
                Trans::Quit
            } else if is_pause_key(event) {
                Trans::Pop
            } else {
                Trans::Stay
            }),
    {
        if quit_requested(&event) {
            Trans::Quit
        } else if pause_pressed(&event) {
            Trans::Pop
        } else {
            Trans::Stay
        }
    }
}

} // verus!
