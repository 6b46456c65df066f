use vstd::prelude::*;

use crate::error::FarmerError;

verus! {

/// Seconds between two reminders that a farm has failed and stopped.
pub const FARM_ERROR_PRINT_INTERVAL_SECS: u64 = 30;

/// What the supervisor does when a farm's run loop ends.
#[derive(Debug, Clone, Copy, PartialEq, Eq, Structural)]
pub enum SupervisorAction {
    /// The farm stopped cleanly: note it, nothing more.
    NoteExit { farm_index: u8 },
    /// The farm failed: announce its error once to listeners and remind of it every
    /// `FARM_ERROR_PRINT_INTERVAL_SECS` seconds from now on.
    ReportFailure { farm_index: u8 },
    /// The report does not concern a running farm: nothing to do.
    Ignore,
}

/// Tracks which farms' run loops are still going. Farms end independently: the end of
/// one, cleanly or not, changes nothing for the others, and the supervisor itself keeps
/// running after the last one ended.
pub struct FarmSupervisor {
    running: Vec<bool>,
    failed: Vec<u8>,
}

impl FarmSupervisor {
    /// For each farm index, whether its run loop is still going.
    pub closed spec fn running(&self) -> Seq<bool> {
        self.running@
    }

    /// The farms whose run loop failed, in the order they failed.
    pub closed spec fn failed(&self) -> Seq<u8> {
        self.failed@
    }

    /// Farm indices fit in a byte; a failed farm has stopped and failed only once.
    pub open spec fn wf(&self) -> bool {
        &&& self.running().len() <= 256
        &&& self.failed().no_duplicates()
        &&& forall|k: int|
            0 <= k < self.failed().len() ==> (#[trigger] self.failed()[k]) < self.running().len()
                && !self.running()[self.failed()[k] as int]
    }

    /// Supervises `farms_count` farms, all running.
    pub fn new(farms_count: usize) -> (r: Self)
        requires
            farms_count <= 256,
        ensures
            r.wf(),
            r.running() == Seq::new(farms_count as nat, |_i: int| true),
            r.failed() == Seq::<u8>::empty(),
    {
        let mut running: Vec<bool> = Vec::with_capacity(farms_count);
        let mut i: usize = 0;
        while i < farms_count
            invariant
                i <= farms_count,
                running@ == Seq::new(i as nat, |_i: int| true),
            decreases farms_count - i,
        {
            running.push(true);
            i = i + 1;
            assert(running@ =~= Seq::new(i as nat, |_i: int| true));
        }
        FarmSupervisor { running, failed: Vec::new() }
    }

    /// Whether the run loop of farm `farm_index` is still going.
    pub fn is_running(&self, farm_index: u8) -> (r: bool)
        ensures
            r == (farm_index < self.running().len() && self.running()[farm_index as int]),
    {
        (farm_index as usize) < self.running.len() && self.running[farm_index as usize]
    }

    /// Whether every farm's run loop has ended. The supervisor then idles: it does not
    /// end because its farms did.
    pub fn all_exited(&self) -> (r: bool)
        ensures
            r == forall|k: int| 0 <= k < self.running().len() ==> !self.running()[k],
    {
        let mut k: usize = 0;
        while k < self.running.len()
            invariant
                k <= self.running.len(),
                forall|j: int| 0 <= j < k ==> !self.running@[j],
            decreases self.running.len() - k,
        {
            if self.running[k] {
                assert(self.running()[k as int]);
                return false;
            }
            k = k + 1;
        }
        true
    }

    /// Number of farms that failed.
    pub fn failed_count(&self) -> (r: usize)
        ensures
            r == self.failed().len(),
    {
        self.failed.len()
    }

    /// Handles the end of farm `farm_index`'s run loop, which `succeeded` or failed.
    /// Only that farm stops being running; a failure is reported once.
    pub fn on_farm_exit(&mut self, farm_index: u8, succeeded: bool) -> (r: SupervisorAction)
        requires
            old(self).wf(),
        ensures
            final(self).wf(),
            final(self).running().len() == old(self).running().len(),
            forall|k: int|
                0 <= k < old(self).running().len() && k != farm_index ==> final(self).running()[k]
                    == old(self).running()[k],
            farm_index < old(self).running().len() ==> !final(self).running()[farm_index as int],
            if farm_index < old(self).running().len() && old(self).running()[farm_index as int] {
                if succeeded {
                    &&& r == SupervisorAction::NoteExit { farm_index }
                    &&& final(self).failed() == old(self).failed()
                } else {
                    &&& r == SupervisorAction::ReportFailure { farm_index }
                    &&& final(self).failed() == old(self).failed().push(farm_index)
                }
            } else {
                &&& r == SupervisorAction::Ignore
                &&& final(self).running() == old(self).running()
                &&& final(self).failed() == old(self).failed()
            },
    {
        let i = farm_index as usize;
        if i >= self.running.len() || !self.running[i] {
            return SupervisorAction::Ignore;
        }
        self.running.set(i, false);
        if succeeded {
            SupervisorAction::NoteExit { farm_index }
        } else {
            proof {
                assert(!self.failed@.contains(farm_index));
            }
            self.failed.push(farm_index);
            SupervisorAction::ReportFailure { farm_index }
        }
    }
}

/// How the farmer's run ended, as far as its two background tasks tell.
#[derive(Debug)]
pub enum TaskEnd {
    /// The piece cache worker finished.
    CacheWorkerEnded,
    /// The farms task finished with this result.
    FarmsEnded(Result<(), FarmerError>),
    /// The farms task's thread went away without a result.
    FarmsLost { reason: String },
}

/// The result of the farmer's run once one of its background tasks ended: the cache
/// worker ending is a clean exit, the farms task passes on its own result.
pub fn run_outcome(end: TaskEnd) -> (r: Result<(), FarmerError>)
    ensures
        r == match end {
            TaskEnd::CacheWorkerEnded => Ok(()),
            TaskEnd::FarmsEnded(result) => result,
            TaskEnd::FarmsLost { reason } => Err(FarmerError::Backend { message: reason }),
        },
{
    match end {
        TaskEnd::CacheWorkerEnded => Ok(()),
        TaskEnd::FarmsEnded(result) => result,
        TaskEnd::FarmsLost { reason } => Err(FarmerError::Backend { message: reason }),
    }
}

} // verus!
