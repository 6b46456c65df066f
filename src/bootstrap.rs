use vstd::prelude::*;

use std::path::PathBuf;

use crate::error::{FarmSetupError, FarmerError};
use crate::piece_index::SectorIndex;
use vstd::set_lib::{lemma_int_range, lemma_map_size, lemma_subset_equality, set_int_range};

verus! {

/// `std::path::PathBuf`, carried through as an opaque farm directory.
#[verifier::external_type_specification]
#[verifier::external_body]
pub struct ExPathBuf(PathBuf);

/// Relies on `PathBuf::clone` to copy a path; nothing about the copy is used.
pub assume_specification[ <PathBuf as Clone>::clone ](p: &PathBuf) -> PathBuf;

/// Largest number of farms one farmer runs: a farm index must fit in a byte.
pub const MAX_FARMS: usize = 256;

/// Above this much space pledged in total, plot caches are left out on Windows, where
/// a large gap at the end of a plot file takes very long to fill with zeroes.
pub const MAX_SPACE_PLEDGED_FOR_PLOT_CACHE_ON_WINDOWS: u64 = 7 * 1024 * 1024 * 1024 * 1024;

/// Sector counts of one farm, taken once after every farm was constructed.
#[derive(Debug, Default, Copy, Clone, PartialEq, Eq, Structural)]
pub struct InitialFarmState {
    pub total_sectors_count: SectorIndex,
    pub plotted_sectors_count: SectorIndex,
}

/// One disk farm to run: where it lives and how much space it may use.
#[derive(Debug, Clone)]
pub struct DiskFarm {
    pub directory: PathBuf,
    pub allocated_plotting_space: u64,
}

/// Total space allocated over the first `n` farms.
pub open spec fn allocated_total(farms: Seq<DiskFarm>, n: int) -> int
    decreases n,
{
    if n <= 0 {
        0
    } else {
        allocated_total(farms, n - 1) + farms[n - 1].allocated_plotting_space
    }
}

/// The configuration errors that are found before any farm is touched.
pub open spec fn farm_count_error(farms_count: nat) -> Option<FarmerError> {
    if farms_count == 0 {
        Some(FarmerError::NoDiskFarms)
    } else if farms_count > MAX_FARMS {
        Some(FarmerError::TooManyFarms { farms_count: farms_count as usize })
    } else {
        None
    }
}

/// Checks the number of farms: there must be at least one, and no more than a farm
/// index can address.
pub fn validate_disk_farms(disk_farms: &Vec<DiskFarm>) -> (r: Result<(), FarmerError>)
    ensures
        r is Ok <==> 1 <= disk_farms.len() <= MAX_FARMS,
        r is Err ==> Some(r->Err_0) == farm_count_error(disk_farms.len() as nat),
{
    if disk_farms.len() == 0 {
        Err(FarmerError::NoDiskFarms)
    } else if disk_farms.len() > MAX_FARMS {
        Err(FarmerError::TooManyFarms { farms_count: disk_farms.len() })
    } else {
        Ok(())
    }
}

/// Whether the farms get plot caches: always, but on Windows only while the total
/// allocated space stays within `MAX_SPACE_PLEDGED_FOR_PLOT_CACHE_ON_WINDOWS`.
pub fn plot_cache_enabled(disk_farms: &Vec<DiskFarm>, on_windows: bool) -> (r: bool)
    ensures
        r == (!on_windows || allocated_total(disk_farms@, disk_farms.len() as int)
            <= MAX_SPACE_PLEDGED_FOR_PLOT_CACHE_ON_WINDOWS),
{
    if !on_windows {
        return true;
    }
    let mut total: u64 = 0;
    let mut i: usize = 0;
    while i < disk_farms.len()
        invariant
            on_windows,
            i <= disk_farms.len(),
            total == allocated_total(disk_farms@, i as int),
            total <= MAX_SPACE_PLEDGED_FOR_PLOT_CACHE_ON_WINDOWS,
        decreases disk_farms.len() - i,
    {
        let space = disk_farms[i].allocated_plotting_space;
        if space > MAX_SPACE_PLEDGED_FOR_PLOT_CACHE_ON_WINDOWS - total {
            proof {
                assert(allocated_total(disk_farms@, i as int + 1) == total + space);
                lemma_allocated_total_grows(disk_farms@, i as int + 1, disk_farms.len() as int);
            }
            return false;
        }
        total = total + space;
        i = i + 1;
    }
    true
}

/// The tags of `results` are the indices `0..results.len()`, each once.
pub open spec fn is_index_permutation<T>(results: Seq<(usize, T)>) -> bool {
    &&& forall|j: int| 0 <= j < results.len() ==> results[j].0 < results.len()
    &&& forall|j: int, k: int|
        0 <= j < results.len() && 0 <= k < results.len() && j != k ==> results[j].0 != results[k].0
}

/// Some entry of `results` is tagged `i`.
pub open spec fn has_tag<T>(results: Seq<(usize, T)>, i: int) -> bool {
    exists|j: int| 0 <= j < results.len() && results[j].0 == i
}

/// Tags that are distinct and below the length cover every index below it.
proof fn lemma_every_index_tagged<T>(results: Seq<(usize, T)>)
    requires
        is_index_permutation(results),
    ensures
        forall|i: int| 0 <= i < results.len() ==> #[trigger] has_tag(results, i),
{
    let n = results.len() as int;
    let positions = set_int_range(0, n);
    let tag = |j: int| results[j].0 as int;
    let tags = positions.map(tag);
    lemma_int_range(0, n);
    lemma_map_size(positions, tags, tag);
    assert(tags.subset_of(set_int_range(0, n))) by {
        assert forall|t: int| tags.contains(t) implies set_int_range(0, n).contains(t) by {
            let j = choose|j: int| positions.contains(j) && tag(j) == t;
        }
    }
    lemma_subset_equality(tags, set_int_range(0, n));
    assert forall|i: int| 0 <= i < n implies #[trigger] has_tag(results, i) by {
        assert(set_int_range(0, n).contains(i));
        assert(tags.contains(i));
        let j = choose|j: int| positions.contains(j) && tag(j) == i;
        assert(results[j].0 == i);
    }
}

/// The constructed farm of the entry tagged `i`.
pub open spec fn farm_at<T>(outcomes: Seq<(usize, Result<T, FarmSetupError>)>, i: int) -> T {
    let j = choose|j: int| 0 <= j < outcomes.len() && outcomes[j].0 == i;
    outcomes[j].1->Ok_0
}

/// The constructed farms of `outcomes`, by farm index.
pub open spec fn in_index_order<T>(outcomes: Seq<(usize, Result<T, FarmSetupError>)>) -> Seq<T> {
    Seq::new(outcomes.len(), |i: int| farm_at(outcomes, i))
}

/// Position `j` holds the first failure of `results`.
pub open spec fn is_first_failure<T>(results: Seq<(usize, Result<T, FarmSetupError>)>, j: int) -> bool {
    &&& 0 <= j < results.len()
    &&& results[j].1 is Err
    &&& forall|k: int| 0 <= k < j ==> results[k].1 is Ok
}

/// Gathers farm construction outcomes, which arrive in completion order and are
/// tagged with their farm index. If any failed, the first failure to arrive is
/// returned; otherwise the farms are returned in farm index order.
pub fn collect_farms<T>(outcomes: Vec<(usize, Result<T, FarmSetupError>)>) -> (r: Result<Vec<T>, FarmerError>)
    requires
        is_index_permutation(outcomes@),
    ensures
        r is Ok <==> forall|j: int| 0 <= j < outcomes.len() ==> outcomes@[j].1 is Ok,
        r is Ok ==> {
            &&& r->Ok_0@ == in_index_order(outcomes@)
            &&& r->Ok_0.len() == outcomes.len()
            &&& forall|j: int| 0 <= j < outcomes.len() ==>
                outcomes@[j].1 == Ok::<T, FarmSetupError>(r->Ok_0@[outcomes@[j].0 as int])
        },
        r is Err ==> exists|j: int| is_first_failure(outcomes@, j) && r->Err_0 == (FarmerError::FarmSetup {
            farm_index: outcomes@[j].0,
            error: outcomes@[j].1->Err_0,
        }),
{
    let n = outcomes.len();
    let ghost input = outcomes@;
    let mut results = outcomes;
    let mut j: usize = 0;
    while j < n
        invariant
            input == outcomes@,
            n == input.len(),
            results@ == input,
            j <= n,
            forall|k: int| 0 <= k < j ==> input[k].1 is Ok,
        decreases n - j,
    {
        if results[j].1.is_err() {
            assert(is_first_failure(input, j as int));
            let (farm_index, outcome) = results.remove(j);
            match outcome {
                Err(error) => {
                    let r = FarmerError::FarmSetup { farm_index, error };
                    assert(r == (FarmerError::FarmSetup {
                        farm_index: input[j as int].0,
                        error: input[j as int].1->Err_0,
                    }));
                    return Err(r);
                },
                Ok(_) => {
                    return unreached();
                },
            }
        }
        j = j + 1;
    }
    let mut slots: Vec<Option<T>> = Vec::with_capacity(n);
    let mut i: usize = 0;
    while i < n
        invariant
            input == outcomes@,
            i <= n,
            slots.len() == i,
            forall|k: int| 0 <= k < i ==> slots@[k] is None,
        decreases n - i,
    {
        slots.push(None);
        i = i + 1;
    }
    while results.len() > 0
        invariant
            input == outcomes@,
            n == input.len(),
            slots.len() == n,
            is_index_permutation(input),
            results.len() <= n,
            results@ == input.take(results.len() as int),
            forall|k: int| 0 <= k < n ==> input[k].1 is Ok,
            forall|k: int| results.len() <= k < n ==> slots@[input[k].0 as int] == Some(
                input[k].1->Ok_0,
            ),
        decreases results.len(),
    {
        let ghost m = results.len() as int - 1;
        let ghost before = results@;
        let (farm_index, outcome) = results.pop().unwrap();
        assert(before[m] == input[m]);
        match outcome {
            Ok(farm) => {
                slots.set(farm_index, Some(farm));
            },
            Err(_) => {
                unreached()
            },
        }
        assert(results@ =~= input.take(m));
    }
    proof {
        lemma_every_index_tagged(input);
        assert forall|i: int| 0 <= i < n implies slots@[i] is Some by {
            assert(has_tag(input, i));
            let k = choose|k: int| 0 <= k < n && input[k].0 == i;
        }
    }
    let ghost full = slots@;
    let mut farms: Vec<T> = Vec::with_capacity(n);
    let mut i: usize = 0;
    while i < n
        invariant
            input == outcomes@,
            full.len() == n,
            slots.len() == n,
            i <= n,
            farms.len() == i,
            forall|k: int| 0 <= k < n ==> full[k] is Some,
            forall|k: int| i <= k < n ==> slots@[k] == full[k],
            forall|k: int| 0 <= k < i ==> Some(farms@[k]) == full[k],
        decreases n - i,
    {
        let mut slot: Option<T> = None;
        let ghost before = slots@;
        std::mem::swap(&mut slot, &mut slots[i]);
        assert(slot == before[i as int]);
        assert(slot == full[i as int]);
        match slot {
            Some(farm) => farms.push(farm),
            None => unreached(),
        }
        i = i + 1;
    }
    proof {
        assert forall|j: int| 0 <= j < n implies input[j].1 == Ok::<T, FarmSetupError>(
            farms@[input[j].0 as int],
        ) by {
            assert(full[input[j].0 as int] == Some(input[j].1->Ok_0));
        }
        assert forall|i: int| 0 <= i < n implies farms@[i] == farm_at(input, i) by {
            assert(has_tag(input, i));
            let j = choose|j: int| 0 <= j < input.len() && input[j].0 == i;
            assert(input[j].1 == Ok::<T, FarmSetupError>(farms@[i]));
        }
        assert(farms@ =~= in_index_order(input));
    }
    Ok(farms)
}

/// The farms come out in farm index order whatever order their construction completed
/// in: two arrivals of the same tagged outcomes give the same farms.
pub proof fn lemma_completion_order_is_irrelevant<T>(
    first: Seq<(usize, Result<T, FarmSetupError>)>,
    second: Seq<(usize, Result<T, FarmSetupError>)>,
)
    requires
        is_index_permutation(first),
        is_index_permutation(second),
        first.len() == second.len(),
        first.to_set() == second.to_set(),
    ensures
        in_index_order(first) == in_index_order(second),
{
    lemma_every_index_tagged(first);
    lemma_every_index_tagged(second);
    assert forall|i: int| 0 <= i < first.len() implies farm_at(first, i) == farm_at(second, i) by {
        assert(has_tag(first, i));
        assert(has_tag(second, i));
        let j1 = choose|j: int| 0 <= j < first.len() && first[j].0 == i;
        let j2 = choose|j: int| 0 <= j < second.len() && second[j].0 == i;
        assert(first.to_set().contains(first[j1]));
        assert(second.contains(first[j1]));
        let k = choose|k: int| 0 <= k < second.len() && second[k] == first[j1];
        assert(k == j2);
    }
    assert(in_index_order(first) =~= in_index_order(second));
}

proof fn lemma_allocated_total_grows(farms: Seq<DiskFarm>, m: int, n: int)
    requires
        0 <= m <= n <= farms.len(),
    ensures
        allocated_total(farms, m) <= allocated_total(farms, n),
    decreases n - m,
{
    if m < n {
        lemma_allocated_total_grows(farms, m, n - 1);
    }
}

} // verus!
