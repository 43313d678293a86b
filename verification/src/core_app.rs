//! The module side of the capability contract: the behavior a loadable
//! module exposes to the host. `CoreApp` is the concrete behavior this
//! crate ships; the host never assumes anything about a module instance
//! beyond the `AppInterface` capability set.

use vstd::prelude::*;
use crate::shared::{AppState, Message};

verus! {

/// A plain description of one rendered frame, handed from the module to
/// the host. The host's rendering runtime turns it into widgets; the
/// description itself holds no reference into module memory.
#[derive(Clone, Copy, Debug, PartialEq, Eq, Structural)]
pub enum ViewDescription {
    /// An empty frame, rendered while the host flushes references to the
    /// outgoing module's allocations before a reload.
    Placeholder,
    /// The counter column: an increment button, the counter label, and a
    /// decrement button.
    Counter { value: i32 },
}

/// Whether `message` may be applied to `state` without overflowing the
/// counter.
pub open spec fn core_update_ok(state: AppState, message: Message) -> bool {
    match message {
        Message::Increment => state.counter < i32::MAX,
        Message::Decrement => state.counter > i32::MIN,
        Message::Reload => true,
        Message::Tick => true,
    }
}

/// What one application event does to the module state.
pub open spec fn spec_core_update(state: AppState, message: Message) -> AppState {
    match message {
        Message::Increment => AppState { counter: (state.counter + 1) as i32 },
        Message::Decrement => AppState { counter: (state.counter - 1) as i32 },
        Message::Reload => state,
        Message::Tick => state,
    }
}

/// The capability contract between the host and a loaded module: react
/// to an event, describe a frame, and report the state that must survive
/// a reload.
pub trait AppInterface {
    /// The module's own precondition on applying `message`.
    spec fn update_allowed(&self, message: Message) -> bool;

    /// Apply one event to the instance's internal state.
    fn update(&mut self, message: Message)
        requires
            old(self).update_allowed(message),
    ;

    /// Describe the frame the instance currently wants rendered.
    fn view(&self) -> ViewDescription;

    /// Report the instance's current state snapshot.
    fn state(&self) -> AppState;
}

/// The behavior of the module this crate ships: a counter that reacts to
/// increment and decrement events.
pub struct CoreApp {
    pub state: AppState,
}

impl CoreApp {
    /// Construct an instance from the state handed across the reload
    /// boundary.
    pub fn new(state: AppState) -> (r: CoreApp)
        ensures
            r.state == state,
    {
        CoreApp { state }
    }
}

impl AppInterface for CoreApp {
    open spec fn update_allowed(&self, message: Message) -> bool {
        core_update_ok(self.state, message)
    }

    fn update(&mut self, message: Message)
        ensures
            final(self).state == spec_core_update(old(self).state, message),
    {
        match message {
            Message::Increment => {
                self.state.counter = self.state.counter + 1;
            }
            Message::Decrement => {
                self.state.counter = self.state.counter - 1;
            }
            Message::Reload => {}
            Message::Tick => {}
        }
    }

    fn view(&self) -> (r: ViewDescription)
        ensures
            r == (ViewDescription::Counter { value: self.state.counter }),
    {
        ViewDescription::Counter { value: self.state.counter }
    }

    fn state(&self) -> (r: AppState)
        ensures
            r == self.state,
    {
        self.state
    }
}

} // verus!
