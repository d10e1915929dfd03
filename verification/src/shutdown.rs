use vstd::prelude::*;

verus! {

/// Why the process is stopping: which of the two single-fire external stop
/// signals fired first.
#[derive(Debug, Clone, Copy, PartialEq, Eq, Structural)]
pub enum StopReason {
    /// The interactive interrupt signal fired first.
    Interrupt,
    /// The termination request fired first.
    Terminate,
}

/// The resolution after one more signal is observed: the first observation
/// resolves the race, every later one is abandoned unchanged.
pub open spec fn spec_observe(
    resolution: Option<StopReason>,
    reason: StopReason,
) -> Option<StopReason> {
    match resolution {
        Some(first) => Some(first),
        None => Some(reason),
    }
}

/// Races the two stop signals and resolves to a single "stop now" outcome.
/// The delivery of the signals themselves is external; the coordinator owns
/// the resolution: whichever signal is observed first wins, and the other is
/// simply never consulted again.  On a platform where one source does not
/// exist, that source is never observed and the race degrades to waiting on
/// the remaining one.
pub struct ShutdownCoordinator {
    resolution: Option<StopReason>,
}

impl View for ShutdownCoordinator {
    type V = Option<StopReason>;

    closed spec fn view(&self) -> Option<StopReason> {
        self.resolution
    }
}

impl ShutdownCoordinator {
    /// A fresh coordinator has seen no signal and is unresolved.
    pub fn new() -> (coordinator: ShutdownCoordinator)
        ensures
            coordinator@.is_none(),
    {
        ShutdownCoordinator { resolution: None }
    }

    /// Records that a stop signal fired.  The first observed signal resolves
    /// the coordinator; observations after resolution change nothing.
    pub fn observe(&mut self, reason: StopReason)
        ensures
            final(self)@ == spec_observe(old(self)@, reason),
    {
        if self.resolution.is_none() {
            self.resolution = Some(reason);
        }
    }

    /// The resolved stop reason, or `None` while no signal has fired yet.
    pub fn resolution(&self) -> (resolution: Option<StopReason>)
        ensures
            resolution == self@,
    {
        self.resolution
    }
}

/// The race is first-come, first-served: the first signal observed by an
/// unresolved coordinator becomes the resolution, and it still stands after
/// any later signal is observed.
pub proof fn lemma_first_signal_wins(first: StopReason, second: StopReason)
    ensures
        spec_observe(None::<StopReason>, first) == Some(first),
        spec_observe(spec_observe(None::<StopReason>, first), second) == Some(first),
{
}

} // verus!
