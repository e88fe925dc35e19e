//! Job handlers of the worker layer.  The proving handler's business logic
//! lives with the downstream job processors; the orchestrator only carries
//! the handle.

use vstd::prelude::*;

verus! {

/// The handler of proving jobs.
pub struct ProvingJobHandler;

} // verus!
