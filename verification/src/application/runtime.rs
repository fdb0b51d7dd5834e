//! The whole of the crate, put together.
use vstd::prelude::*;

use crate::domain::job::PrintJob;

verus! {

/// Where the crate keeps what it stores.
#[derive(Debug)]
pub struct PrintRuntimeConfig {
    pub database_url: String,
    pub spool_directory: String,
}

impl Clone for PrintRuntimeConfig {
    fn clone(&self) -> (r: Self)
        ensures
            r == *self,
    {
        PrintRuntimeConfig {
            database_url: self.database_url.clone(),
            spool_directory: self.spool_directory.clone(),
        }
    }
}

/// What was put in order after a start.
#[derive(Debug, Clone, Copy, PartialEq, Eq, Structural)]
pub struct RecoverySummary {
    pub removed_partial_documents: usize,
    pub reconciled_jobs: usize,
}

/// What was put in order after a start: documents that had arrived only in
/// part, and jobs.
pub fn recovery_summary(removed_partial_documents: usize, reconciled: &Vec<PrintJob>) -> (r:
    RecoverySummary)
    ensures
        r == (RecoverySummary {
            removed_partial_documents,
            reconciled_jobs: reconciled@.len() as usize,
        }),
{
    RecoverySummary { removed_partial_documents, reconciled_jobs: reconciled.len() }
}

} // verus!
