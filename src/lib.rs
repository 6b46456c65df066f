//! Supervision of a set of disk farms run as one unit: validation and ordering of
//! farm construction, CPU partitioning between plotting and replotting, the latch that
//! holds plotting until the piece cache first syncs, the index of plotted pieces,
//! and the decision logic of the pause controller and of the farm supervisor.

pub mod action;
pub mod text;
pub mod error;
pub mod bootstrap;
pub mod piece_index;
pub mod plotting_delay;
pub mod pause;
pub mod supervisor;
pub mod partition;
