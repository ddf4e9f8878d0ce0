//! The input mode state machine and the pending command line.  The state is
//! an explicitly owned object handed by reference to whoever needs it, never
//! ambient process-wide data.

use vstd::prelude::*;

verus! {

#[derive(Debug, Clone, Copy, PartialEq, Eq, Structural)]
pub enum Mode {
    Insert,
    Normal,
    Command,
}

/// The shared editor state read by the renderer: the current mode and the
/// command line accumulated so far.
pub struct Store {
    pub mode: Mode,
    pub command: String,
}

impl Store {
    /// The initial state: Normal mode, no pending command.
    pub fn new() -> (s: Store)
        ensures
            s.mode == Mode::Normal,
            s.command@ == Seq::<char>::empty(),
    {
        Store { mode: Mode::Normal, command: String::new() }
    }
}

/// Switches the current mode, leaving the pending command line alone.
pub fn change_mode(store: &mut Store, new_mode: Mode)
    ensures
        final(store).mode == new_mode,
        final(store).command == old(store).command,
{
    store.mode = new_mode;
}

} // verus!
