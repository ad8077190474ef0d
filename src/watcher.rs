//! The decisions of a property-change watcher. The watcher owns a connection
//! of its own; whoever runs it waits for the next step and hands each
//! forwarded property name on.

use vstd::prelude::*;

use crate::error::XError;
use crate::transport::{open_display, select_property_events, wait_for_property_event, XConnection};
use crate::x11::get_atom_name;
use vstd::utf8::{decode_utf8, valid_utf8};

verus! {

/// What the server's event stream delivered.
#[derive(Debug, Clone, Copy, PartialEq, Eq, Structural)]
pub enum WatchEvent {
    /// A property of the watched window changed; the atom of the property.
    PropertyChanged(u32),
    /// Any other event.
    Other,
    /// Waiting failed: the connection is closed.
    Closed,
}

/// What to do with an event.
#[derive(Debug, Clone, Copy, PartialEq, Eq, Structural)]
pub enum WatchStep {
    /// Resolve this atom to its name and forward the name.
    Resolve(u32),
    /// Nothing to forward; wait for the next event.
    Ignore,
    /// End the watch.
    Stop,
}

/// The outcome of one step of a watcher.
#[derive(Debug)]
pub enum WatchAction {
    /// Forward this property name to the consumer.
    Forward(String),
    /// Nothing to forward this time.
    Skip,
    /// The connection is closed; the watch is over.
    Stop,
}

/// The step an event calls for: a property change is resolved and forwarded,
/// other events are ignored, and a failed wait ends the watch.
pub fn watch_step(event: WatchEvent) -> (r: WatchStep)
    ensures
        event matches WatchEvent::PropertyChanged(atom) ==> r == WatchStep::Resolve(atom),
        event is Other ==> r is Ignore,
        event is Closed ==> r is Stop,
{
    match event {
        WatchEvent::PropertyChanged(atom) => WatchStep::Resolve(atom),
        WatchEvent::Other => WatchStep::Ignore,
        WatchEvent::Closed => WatchStep::Stop,
    }
}

/// What follows the resolution of a changed property's atom: its name is
/// forwarded; a name that could not be resolved skips this event only.
pub fn forward_resolved(resolved: Result<String, XError>) -> (r: WatchAction)
    ensures
        resolved matches Ok(name) ==> r matches WatchAction::Forward(n) && n@ == name@,
        resolved is Err ==> r is Skip,
{
    match resolved {
        Ok(name) => WatchAction::Forward(name),
        Err(_) => WatchAction::Skip,
    }
}

/// A connection of its own that receives the property changes of one window.
pub struct PropertyWatcher {
    conn: XConnection,
}

impl PropertyWatcher {
    /// Opens a new connection to the display and asks for the property-change
    /// events of the window; fails if either request fails.
    pub fn start(display: &str, window_id: u32) -> (r: Result<PropertyWatcher, XError>)
        ensures
            r matches Err(e) ==> e == XError::Transport,
    {
        let (conn, _screen) = match open_display(display) {
            Ok(opened) => opened,
            Err(_) => {
                return Err(XError::Transport);
            },
        };
        match select_property_events(&conn, window_id) {
            Ok(()) => Ok(PropertyWatcher { conn }),
            Err(_) => Err(XError::Transport),
        }
    }

    /// Waits for the next event on the watcher's connection.
    pub fn wait_event(&self) -> (r: WatchEvent) {
        wait_for_property_event(&self.conn)
    }

    /// What to do with an event: a failed wait stops the watch, an event other
    /// than a property change forwards nothing, and a property change forwards
    /// the name the server gives for the changed atom, or nothing if that name
    /// cannot be had.
    pub fn action_for(&self, event: WatchEvent) -> (r: WatchAction)
        ensures
            event is Closed ==> r is Stop,
            event is Other ==> r is Skip,
            event is PropertyChanged ==> r is Forward || r is Skip,
            r matches WatchAction::Forward(n) ==> exists|b: Seq<u8>|
                valid_utf8(b) && n@ == decode_utf8(b),
    {
        match watch_step(event) {
            WatchStep::Resolve(atom) => forward_resolved(get_atom_name(&self.conn, atom)),
            WatchStep::Ignore => WatchAction::Skip,
            WatchStep::Stop => WatchAction::Stop,
        }
    }

    /// Waits for the next event and says what to do with it.
    pub fn next_action(&self) -> (r: WatchAction)
        ensures
            r matches WatchAction::Forward(n) ==> exists|b: Seq<u8>|
                valid_utf8(b) && n@ == decode_utf8(b),
    {
        let event = self.wait_event();
        self.action_for(event)
    }
}

} // verus!
