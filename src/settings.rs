use vstd::prelude::*;

verus! {

/// Default grace period, in nanoseconds, between closing the subprocess's
/// input and asking it to terminate: 100 ms.
pub const WAIT_FOR_EXIT_DEFAULT_NS: u64 = 100_000_000;

/// Configuration supplied from outside the sink.
#[derive(Clone, Debug)]
pub struct Settings {
    /// Shell command line run through `sh -c`.
    pub cmd: String,
    /// Nanoseconds to wait after closing the subprocess's input before
    /// sending the termination signal.
    pub wait_for_exit: u64,
}

impl Default for Settings {
    fn default() -> (r: Settings)
        ensures
            r.cmd@ == Seq::<char>::empty(),
            r.wait_for_exit == WAIT_FOR_EXIT_DEFAULT_NS,
    {
        Settings { cmd: String::new(), wait_for_exit: WAIT_FOR_EXIT_DEFAULT_NS }
    }
}

} // verus!
