use vstd::prelude::*;

verus! {

/// What the host loop should do when the current iteration finishes.
#[derive(Clone, Copy, PartialEq, Eq, Hash, Debug, Structural)]
pub enum WindowState {
    /// Keep polling: run the next iteration immediately.
    Run,
    /// When the current loop iteration finishes, suspend the thread until
    /// another event arrives.
    Wait,
    /// When the current loop iteration finishes, suspend the thread until
    /// either another event arrives or the given time has passed.
    WaitFor { nanos: u64 },
    /// Leave the event loop.
    Exit,
}

} // verus!
