use vstd::prelude::*;

use crate::text::{byte_size, byte_size_text, decimal, decimal_text};

verus! {

/// Why one farm could not be constructed.
#[derive(Debug, Clone, PartialEq, Eq)]
pub enum FarmSetupError {
    /// The space allocated to the farm is below the minimum its configuration needs.
    InsufficientAllocatedSpace { min_space: u64, allocated_space: u64 },
    /// Any other construction failure, as the farm described it.
    Other { message: String },
}

/// A background task that the farmer runs on a thread of its own.
#[derive(Debug, Clone, Copy, PartialEq, Eq, Structural)]
pub enum BackgroundTask {
    /// The worker that fills the piece cache.
    CacheWorker,
    /// The task that drives every farm.
    Farms,
}

/// Everything that can stop the farmer from starting or running.
#[derive(Debug, Clone, PartialEq, Eq)]
pub enum FarmerError {
    /// No disk farm was given.
    NoDiskFarms,
    /// More farms were given than a farm index can address.
    TooManyFarms { farms_count: usize },
    /// A farm directory is missing and could not be created.
    DirectoryUnavailable { directory: String, reason: String },
    /// The farm at this index could not be constructed.
    FarmSetup { farm_index: usize, error: FarmSetupError },
    /// The plotted sector count of the farm at this index could not be read.
    PlottedSectorsCount { farm_index: usize, reason: String },
    /// A background task could not be spawned.
    SpawnFailed { task: BackgroundTask, reason: String },
    /// A failure reported by a collaborator (node client, farm, thread pools).
    Backend { message: String },
}

/// Text of the insufficient-space error, given the four renderings of the two sizes.
pub open spec fn insufficient_space_text(
    allocated_binary: Seq<char>,
    allocated_decimal: Seq<char>,
    min_binary: Seq<char>,
    min_decimal: Seq<char>,
    min_space: nat,
) -> Seq<char> {
    "Allocated space "@ + allocated_binary + " ("@ + allocated_decimal + ") is not enough, minimum is ~"@
        + min_binary + " (~"@ + min_decimal + ", "@ + decimal(min_space) + " bytes to be exact)"@
}

pub open spec fn farm_setup_message(e: FarmSetupError) -> Seq<char> {
    match e {
        FarmSetupError::InsufficientAllocatedSpace { min_space, allocated_space } =>
            insufficient_space_text(
                byte_size_text(allocated_space, true),
                byte_size_text(allocated_space, false),
                byte_size_text(min_space, true),
                byte_size_text(min_space, false),
                min_space as nat,
            ),
        FarmSetupError::Other { message } => message@,
    }
}

pub open spec fn spawn_failed_text(task: BackgroundTask, reason: Seq<char>) -> Seq<char> {
    match task {
        BackgroundTask::CacheWorker => "Failed to spawn farmer cache future in background thread: "@
            + reason,
        BackgroundTask::Farms => "Failed to spawn farm future in background thread: "@ + reason,
    }
}

pub open spec fn farmer_message(e: FarmerError) -> Seq<char> {
    match e {
        FarmerError::NoDiskFarms => "There must be at least one disk farm provided"@,
        FarmerError::TooManyFarms { .. } =>
            "More than 256 plots are not supported, consider running multiple farmer instances"@,
        FarmerError::DirectoryUnavailable { directory, reason } => "Directory "@ + directory@
            + " doesn't exist and can't be created: "@ + reason@,
        FarmerError::FarmSetup { error, .. } => farm_setup_message(error),
        FarmerError::PlottedSectorsCount { farm_index, reason } =>
            "Failed to get plotted sectors count from from index "@ + decimal(farm_index as nat)
                + ": "@ + reason@,
        FarmerError::SpawnFailed { task, reason } => spawn_failed_text(task, reason@),
        FarmerError::Backend { message } => message@,
    }
}

/// Builds the insufficient-space error text from the rendered sizes.
pub fn insufficient_space_message(
    allocated_binary: &str,
    allocated_decimal: &str,
    min_binary: &str,
    min_decimal: &str,
    min_space: u64,
) -> (r: String)
    ensures
        r@ == insufficient_space_text(
            allocated_binary@,
            allocated_decimal@,
            min_binary@,
            min_decimal@,
            min_space as nat,
        ),
{
    let mut s = String::from_str("Allocated space ");
    s.append(allocated_binary);
    s.append(" (");
    s.append(allocated_decimal);
    s.append(") is not enough, minimum is ~");
    s.append(min_binary);
    s.append(" (~");
    s.append(min_decimal);
    s.append(", ");
    let exact = decimal_text(min_space);
    s.append(exact.as_str());
    s.append(" bytes to be exact)");
    s
}

impl FarmSetupError {
    /// Human-readable description of the failure.
    pub fn message(&self) -> (r: String)
        ensures
            r@ == farm_setup_message(*self),
    {
        match self {
            FarmSetupError::InsufficientAllocatedSpace { min_space, allocated_space } => {
                let allocated_binary = byte_size(*allocated_space, true);
                let allocated_decimal = byte_size(*allocated_space, false);
                let min_binary = byte_size(*min_space, true);
                let min_decimal = byte_size(*min_space, false);
                insufficient_space_message(
                    allocated_binary.as_str(),
                    allocated_decimal.as_str(),
                    min_binary.as_str(),
                    min_decimal.as_str(),
                    *min_space,
                )
            },
            FarmSetupError::Other { message } => message.clone(),
        }
    }
}

impl FarmerError {
    /// Human-readable description of the error.
    pub fn message(&self) -> (r: String)
        ensures
            r@ == farmer_message(*self),
    {
        match self {
            FarmerError::NoDiskFarms => String::from_str(
                "There must be at least one disk farm provided",
            ),
            FarmerError::TooManyFarms { .. } => String::from_str(
                "More than 256 plots are not supported, consider running multiple farmer instances",
            ),
            FarmerError::DirectoryUnavailable { directory, reason } => {
                let mut s = String::from_str("Directory ");
                s.append(directory.as_str());
                s.append(" doesn't exist and can't be created: ");
                s.append(reason.as_str());
                s
            },
            FarmerError::FarmSetup { error, .. } => error.message(),
            FarmerError::PlottedSectorsCount { farm_index, reason } => {
                let mut s = String::from_str("Failed to get plotted sectors count from from index ");
                let index = decimal_text(*farm_index as u64);
                s.append(index.as_str());
                s.append(": ");
                s.append(reason.as_str());
                s
            },
            FarmerError::SpawnFailed { task, reason } => {
                let mut s = match task {
                    BackgroundTask::CacheWorker => String::from_str(
                        "Failed to spawn farmer cache future in background thread: ",
                    ),
                    BackgroundTask::Farms => String::from_str(
                        "Failed to spawn farm future in background thread: ",
                    ),
                };
                s.append(reason.as_str());
                s
            },
            FarmerError::Backend { message } => message.clone(),
        }
    }
}

} // verus!
