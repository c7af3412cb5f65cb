use crate::input::{InputEvent, KeyEvent, KeyState};
use vstd::prelude::*;

verus! {

/// What the window's event loop reports, reduced to what the application reacts to.
#[derive(Clone, Copy, PartialEq, Eq, Structural, Debug)]
pub enum WindowSignal {
    /// The window asks to be drawn again.
    RedrawRequested,
    /// A keyboard key changed state; `key` is the code of its virtual key, if it has one.
    Keyboard { state: KeyState, key: Option<u32> },
    CloseRequested,
    /// The window's drawable area changed to `width` by `height` physical pixels.
    Resized { width: u32, height: u32 },
    /// The event loop is being torn down.
    LoopDestroyed,
    /// Anything else.
    Other,
}

/// What the application does in answer to a signal.
#[derive(Clone, Copy, PartialEq, Eq, Structural, Debug)]
pub enum LoopAction {
    /// Update the state, let it draw, and end the frame.
    Frame,
    /// Hand an input event to the application.
    Input(InputEvent),
    /// Adapt the surface and the camera to a new size in physical pixels.
    Resize { width: u32, height: u32 },
    /// Leave the event loop.
    Exit,
    /// Nothing to do.
    Ignore,
}

/// Maps a signal of the event loop to the application's answer: a redraw
/// request runs a frame, a key with a virtual key code becomes an input event,
/// a resize adapts the surface and the camera, a close request ends the loop,
/// and everything else is ignored.
pub fn loop_action(signal: WindowSignal) -> (r: LoopAction)
    ensures
        signal == WindowSignal::RedrawRequested ==> r == LoopAction::Frame,
        signal == WindowSignal::CloseRequested ==> r == LoopAction::Exit,
        signal matches WindowSignal::Keyboard { state, key } ==> r == match key {
            Some(k) => LoopAction::Input(InputEvent::Key(KeyEvent { state, key: k })),
            None => LoopAction::Ignore,
        },
        signal matches WindowSignal::Resized { width, height } ==> r == (LoopAction::Resize {
            width,
            height,
        }),
        (signal == WindowSignal::LoopDestroyed || signal == WindowSignal::Other) ==> r
            == LoopAction::Ignore,
{
    match signal {
        WindowSignal::RedrawRequested => LoopAction::Frame,
        WindowSignal::Keyboard { state, key } => match key {
            Some(k) => LoopAction::Input(InputEvent::Key(KeyEvent { state, key: k })),
            None => LoopAction::Ignore,
        },
        WindowSignal::CloseRequested => LoopAction::Exit,
        WindowSignal::Resized { width, height } => LoopAction::Resize { width, height },
        WindowSignal::LoopDestroyed => LoopAction::Ignore,
        WindowSignal::Other => LoopAction::Ignore,
    }
}

} // verus!
