//! Interrupt request levels and the rule for pageable code.

use vstd::prelude::*;

verus! {

/// An interrupt request level.
#[allow(non_camel_case_types)]
pub type KIRQL = u8;

/// The level at which threads normally run.
pub const PASSIVE_LEVEL: KIRQL = 0;

/// The level of asynchronous procedure calls; the highest at which memory
/// may be paged.
pub const APC_LEVEL: KIRQL = 1;

/// The level of deferred procedure calls, at which a spin lock is held.
pub const DISPATCH_LEVEL: KIRQL = 2;

/// Whether code that touches pageable memory may run at `irql`: exactly
/// when `irql` is at most `APC_LEVEL`. This is the check of `PAGED_CODE!`.
pub fn irql_allows_paged_code(irql: KIRQL) -> (r: bool)
    ensures
        r == (irql <= APC_LEVEL),
{
    irql <= APC_LEVEL
}

} // verus!
