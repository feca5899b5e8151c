//! Runners: sequences of items that carry the lineage of the stages which
//! produced them.

pub mod runner;
pub mod runner_data_batch;
pub mod runner_iterator;
pub mod runner_metadata;

use vstd::prelude::*;

pub use self::runner::Runner;
pub use self::runner_data_batch::Envelope;
pub use self::runner_data_batch::RunnerDataBatch;
pub use self::runner_iterator::RunnerIterator;
pub use self::runner_iterator::RunnerState;
pub use self::runner_metadata::Lineage;
pub use self::runner_metadata::RunnerMetaData;

verus! {

/// The first batch of a sequence was not the metadata, or there was no batch
/// at all.
#[derive(Debug, PartialEq, Eq, Structural, Clone, Copy)]
pub struct NoMetaDAtaError;

/// Metadata stood behind the first batch of a sequence, where only data may
/// stand.
#[derive(Debug, PartialEq, Eq, Structural, Clone, Copy)]
pub struct DuplicateMetaDataError {
    /// Where the stray metadata stood, counted from the first batch as 0.
    pub position: usize,
}

/// Why a sequence of batches could not be made into a runner.
#[derive(Debug, PartialEq, Eq, Structural, Clone, Copy)]
pub enum RunnerError {
    NoMetaData(NoMetaDAtaError),
    DuplicateMetaData(DuplicateMetaDataError),
}

} // verus!
