use vstd::prelude::*;

verus! {

/// More CPU cores than this lets farming run during initial plotting.
pub const FARM_DURING_PLOTTING_MIN_CORES: usize = 8;

/// Upper bound on how many records one farm encodes at once.
pub const MAX_RECORD_ENCODING_CONCURRENCY: usize = 8;

/// Sum of the first `n` core counts.
pub open spec fn cores_total(core_counts: Seq<usize>, n: int) -> int
    decreases n,
{
    if n <= 0 {
        0
    } else {
        cores_total(core_counts, n - 1) + core_counts[n - 1]
    }
}

proof fn lemma_cores_total_grows(core_counts: Seq<usize>, m: int, n: int)
    requires
        0 <= m <= n <= core_counts.len(),
    ensures
        cores_total(core_counts, m) <= cores_total(core_counts, n),
    decreases n - m,
{
    if m < n {
        lemma_cores_total_grows(core_counts, m, n - 1);
    }
}

/// Whether farms should also farm during initial plotting: only when the machine has
/// more than `FARM_DURING_PLOTTING_MIN_CORES` cores over all its core groups, given as
/// the number of cores in each.
pub fn should_farm_during_initial_plotting(core_counts: &Vec<usize>) -> (r: bool)
    ensures
        r == (cores_total(core_counts@, core_counts.len() as int)
            > FARM_DURING_PLOTTING_MIN_CORES),
{
    let mut total: usize = 0;
    let mut i: usize = 0;
    while i < core_counts.len()
        invariant
            i <= core_counts.len(),
            total == cores_total(core_counts@, i as int),
            total <= FARM_DURING_PLOTTING_MIN_CORES,
        decreases core_counts.len() - i,
    {
        let cores = core_counts[i];
        if cores > FARM_DURING_PLOTTING_MIN_CORES - total {
            proof {
                assert(cores_total(core_counts@, i as int + 1) == total + cores);
                lemma_cores_total_grows(core_counts@, i as int + 1, core_counts.len() as int);
            }
            return true;
        }
        total = total + cores;
        i = i + 1;
    }
    false
}

/// Whether the hardware core groups are regrouped to one per farm: only when there are
/// several groups and more of them than farms.
pub fn needs_regroup(groups_count: usize, farms_count: usize) -> (r: bool)
    ensures
        r == (groups_count > 1 && groups_count > farms_count),
{
    groups_count > 1 && groups_count > farms_count
}

/// Cores given to each replotting group: half of its plotting counterpart's, rounded
/// down, leaving room for plotting and other work.
pub fn replotting_core_counts(plotting_core_counts: &Vec<usize>) -> (r: Vec<usize>)
    ensures
        r.len() == plotting_core_counts.len(),
        forall|i: int| 0 <= i < r.len() ==> r@[i] == plotting_core_counts@[i] / 2,
{
    let mut r: Vec<usize> = Vec::with_capacity(plotting_core_counts.len());
    let mut i: usize = 0;
    while i < plotting_core_counts.len()
        invariant
            i <= plotting_core_counts.len(),
            r.len() == i,
            forall|k: int| 0 <= k < i ==> r@[k] == plotting_core_counts@[k] / 2,
        decreases plotting_core_counts.len() - i,
    {
        r.push(plotting_core_counts[i] / 2);
        i = i + 1;
    }
    r
}

/// Permits of the semaphore that bounds concurrent piece downloads: one per plotting
/// thread pool group, and one more.
pub fn downloading_permits(pools_count: usize) -> (r: usize)
    requires
        pools_count < usize::MAX,
    ensures
        r == pools_count + 1,
{
    pools_count + 1
}

/// How many records a farm encodes at once: half the cores of the first plotting group,
/// at most `MAX_RECORD_ENCODING_CONCURRENCY`. The group must have at least two cores.
pub fn record_encoding_concurrency(first_group_cores: usize) -> (r: usize)
    requires
        first_group_cores >= 2,
    ensures
        r >= 1,
        r == if first_group_cores / 2 < MAX_RECORD_ENCODING_CONCURRENCY {
            first_group_cores / 2
        } else {
            MAX_RECORD_ENCODING_CONCURRENCY
        },
{
    let half = first_group_cores / 2;
    if half < MAX_RECORD_ENCODING_CONCURRENCY {
        half
    } else {
        MAX_RECORD_ENCODING_CONCURRENCY
    }
}

} // verus!
