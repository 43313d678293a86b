//! The types shared between the host shell and a loadable module: the
//! event vocabulary and the state value that survives a reload. Both
//! sides must agree on these layouts verbatim.

use vstd::prelude::*;

verus! {

/// All UI events/messages passed between the shell and the module.
#[derive(Clone, Copy, Debug, PartialEq, Eq, Structural)]
pub enum Message {
    Tick,
    Increment,
    Decrement,
    Reload,
}

/// The state of the application: everything that must survive a reload.
/// Plain, copyable data; it never holds a reference into module memory.
#[derive(Clone, Copy, Debug, PartialEq, Eq, Structural)]
pub struct AppState {
    pub counter: i32,
}

} // verus!
