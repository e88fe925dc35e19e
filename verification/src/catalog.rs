//! The static queue catalog: named queue specifications with a visibility
//! timeout and an optional dead-letter policy.  The catalog is ordered and
//! immutable, and its names are unique.

use vstd::prelude::*;

verus! {

/// The dead-letter policy of a queue: how many receives a message survives
/// before it is moved to the dead-letter queue.
#[derive(Clone, Copy, Debug)]
pub struct DlqConfig {
    pub max_receive_count: u64,
}

/// One entry of the queue catalog.
#[derive(Clone, Debug)]
pub struct QueueSpec {
    pub name: String,
    pub visibility_timeout: u64,
    pub dlq_config: Option<DlqConfig>,
}

/// Catalog well-formedness: the names are unique.
pub open spec fn catalog_wf(catalog: Seq<QueueSpec>) -> bool {
    forall|i: int, j: int|
        0 <= i < j < catalog.len() ==> #[trigger] catalog[i].name@ != #[trigger] catalog[j].name@
}

} // verus!
