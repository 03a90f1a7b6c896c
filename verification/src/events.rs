//! Hooks, the events that reach them, and the protocol's event numbers.

use vstd::prelude::*;

verus! {

/// A callback for an event that carries one number: a key symbol, or the
/// detail of any other event.
pub trait GeneralHook {
    fn call(&self, sym: i32);
}

/// A callback for a mouse button: the pointer's position and the button.
pub trait MouseHook {
    fn call(&self, x: i32, y: i32, sym: i32);
}

/// A general hook together with what it closes over.
pub type MlxGeneralHook = Box<dyn GeneralHook>;

/// A mouse hook together with what it closes over.
pub type MlxMouseHook = Box<dyn MouseHook>;

/// A hook of either shape, as the per-kind table of a window holds it.
pub enum MlxEventHook {
    General(MlxGeneralHook),
    Mouse(MlxMouseHook),
}

/// The event number of a key press.
pub const KEY_PRESS: i32 = 2;

/// The event number of a mouse button press.
pub const BUTTON_PRESS: i32 = 4;

/// The event number of an expose, the request to repaint.
pub const EXPOSE: i32 = 12;

/// The event number under which a close request of the window manager is
/// delivered.
pub const DESTROY_NOTIFY: i32 = 17;

/// The event number of a message from another client, the window manager
/// among them.
pub const CLIENT_MESSAGE: i32 = 33;

/// The number of event kinds of the protocol, and so of slots in a window's
/// hook table.
pub const MLX_MAX_EVENT: usize = 36;

/// The number of event kinds, read from `x11::xlib::LASTEvent`. The contract
/// repeats the value that the protocol gives it.
#[verifier::external_body]
pub(crate) fn last_event() -> (count: i32)
    ensures
        count == MLX_MAX_EVENT,
{
    x11::xlib::LASTEvent
}

/// One event of the protocol, reduced to what the dispatch reads.
#[derive(Clone, Copy, Debug, PartialEq, Eq, Structural)]
pub struct Event {
    /// The event number.
    pub kind: i32,
    /// The window that the event is for.
    pub window: u64,
    /// The pointer's position, where the event has one.
    pub x: i32,
    pub y: i32,
    /// The button, the key symbol, or whatever number the event carries.
    pub detail: i32,
    /// The atom that types a client message.
    pub message_type: u64,
    /// The atom that a client message carries as its first datum.
    pub atom: u64,
}

/// One slot of a window's hook table.
pub enum HookSlot {
    /// No hook is installed: the event is dropped.
    Empty,
    /// The default close handler: it asks the loop to stop.
    LoopEnd,
    /// A hook of the caller.
    Hook(MlxEventHook),
}

/// What became of an event.
#[derive(Clone, Copy, Debug, PartialEq, Eq, Structural)]
pub enum Dispatch {
    /// No hook was installed for the kind, or no live window took the event.
    Dropped,
    /// The mouse hook of the window ran.
    Mouse,
    /// The key hook of the window ran.
    Key,
    /// The expose hook of the window ran.
    Expose,
    /// The hook in the table slot of this kind ran.
    Generic(i32),
    /// The default close handler was reached: the loop is to stop.
    LoopEnd,
}

/// The hook that does nothing, for a slot that must hold a callback.
pub fn mlx_int_do_nothing() {
}

} // verus!
