use vstd::prelude::*;

verus! {

/// What the pause loop does next with the plotting thread pools.
#[derive(Debug, Clone, Copy, PartialEq, Eq, Structural)]
pub enum PauseStep {
    /// Acquire one more plotting thread pool group, then step again without waiting,
    /// so that a resume is seen after each acquisition.
    AcquireOne,
    /// Give every held group back, then wait for the pause signal to change.
    ReleaseAll,
    /// Keep what is held and wait for the pause signal to change.
    WaitForChange,
}

/// The step taken with `held` of `pools_count` groups held and the pause signal at
/// `paused`, and how many groups are held after it.
pub open spec fn pause_step(held: nat, pools_count: nat, paused: bool) -> (PauseStep, nat) {
    if !paused {
        (PauseStep::ReleaseAll, 0)
    } else if held < pools_count {
        (PauseStep::AcquireOne, held + 1)
    } else {
        (PauseStep::WaitForChange, held)
    }
}

/// Groups held after `k` steps taken while the signal stays at paused.
pub open spec fn held_while_paused(held: nat, pools_count: nat, k: nat) -> nat
    decreases k,
{
    if k == 0 {
        held
    } else {
        held_while_paused(pause_step(held, pools_count, true).1, pools_count, (k - 1) as nat)
    }
}

/// Bookkeeping of the loop that pauses plotting by holding every plotting thread pool
/// group, acquired one at a time, and resumes it by releasing them together.
pub struct PausePlotting {
    held: usize,
    pools_count: usize,
}

impl PausePlotting {
    /// Number of groups currently held.
    pub closed spec fn held(&self) -> nat {
        self.held as nat
    }

    /// Number of plotting thread pool groups there are to hold.
    pub closed spec fn pools_count(&self) -> nat {
        self.pools_count as nat
    }

    /// No more groups are held than there are.
    pub open spec fn wf(&self) -> bool {
        self.held() <= self.pools_count()
    }

    /// Nothing held, `pools_count` groups to hold when paused.
    pub fn new(pools_count: usize) -> (r: Self)
        ensures
            r.wf(),
            r.held() == 0,
            r.pools_count() == pools_count,
    {
        PausePlotting { held: 0, pools_count }
    }

    /// Number of groups currently held.
    pub fn held_count(&self) -> (r: usize)
        ensures
            r == self.held(),
    {
        self.held
    }

    /// Decides the next step for the current pause signal and counts its effect.
    pub fn step(&mut self, paused: bool) -> (r: PauseStep)
        requires
            old(self).wf(),
        ensures
            final(self).wf(),
            final(self).pools_count() == old(self).pools_count(),
            (r, final(self).held()) == pause_step(old(self).held(), old(self).pools_count(), paused),
    {
        if !paused {
            self.held = 0;
            PauseStep::ReleaseAll
        } else if self.held < self.pools_count {
            self.held = self.held + 1;
            PauseStep::AcquireOne
        } else {
            PauseStep::WaitForChange
        }
    }
}

/// While the signal stays at paused, each step acquires exactly one more group until all
/// are held: from `held` groups, `pools_count - held` steps acquire, after which every
/// group is held and the loop waits.
pub proof fn lemma_pause_holds_every_group(held: nat, pools_count: nat, k: nat)
    requires
        held <= pools_count,
        k <= pools_count - held,
    ensures
        held_while_paused(held, pools_count, k) == held + k,
        k < pools_count - held ==> pause_step(held_while_paused(held, pools_count, k), pools_count, true).0
            == PauseStep::AcquireOne,
        held_while_paused(held, pools_count, (pools_count - held) as nat) == pools_count,
        pause_step(pools_count, pools_count, true) == (PauseStep::WaitForChange, pools_count),
    decreases k,
{
    if k > 0 {
        lemma_pause_holds_every_group(held + 1, pools_count, (k - 1) as nat);
    }
    lemma_held_while_paused_full(held, pools_count);
}

proof fn lemma_held_while_paused_full(held: nat, pools_count: nat)
    requires
        held <= pools_count,
    ensures
        held_while_paused(held, pools_count, (pools_count - held) as nat) == pools_count,
    decreases pools_count - held,
{
    if held < pools_count {
        lemma_held_while_paused_full(held + 1, pools_count);
    }
}

/// Resuming releases whatever is held, however far acquisition had come.
pub proof fn lemma_resume_releases_all(held: nat, pools_count: nat)
    ensures
        pause_step(held, pools_count, false) == (PauseStep::ReleaseAll, 0nat),
{
}

} // verus!
