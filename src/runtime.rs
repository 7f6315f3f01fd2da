use vstd::prelude::*;

use crate::ledger::Module;

verus! {

/// What a runtime that hosts this module configures.
pub trait Trait {
    /// The priority given to admitted unsigned submissions.
    spec fn spec_unsigned_priority() -> u64;

    fn unsigned_priority() -> (r: u64)
        ensures
            r == Self::spec_unsigned_priority(),
    ;
}

/// The priority that `TestRuntime` gives to unsigned submissions.
pub const TEST_UNSIGNED_PRIORITY: u64 = 100;

/// A runtime configuration for tests and examples.
#[derive(Clone, Copy, Debug, PartialEq, Eq)]
pub struct TestRuntime;

impl Trait for TestRuntime {
    open spec fn spec_unsigned_priority() -> u64 {
        TEST_UNSIGNED_PRIORITY
    }

    fn unsigned_priority() -> (r: u64) {
        TEST_UNSIGNED_PRIORITY
    }
}

/// Builds the ledger state that a test starts from.
pub struct ExtBuilder;

impl ExtBuilder {
    /// Fresh storage: no numbers, no tasks, no task waiting, no agent, no
    /// notifications.
    pub fn build() -> (r: Module)
        ensures
            r.wf(),
            r.numbers_ring()@.len() == 0,
            r.numbers_ring().slot() == 0,
            r.tasks().is_empty(),
            !r.queue_flag(),
            r.agent().len() == 0,
            r.event_log().len() == 0,
    {
        Module::new()
    }
}

} // verus!
