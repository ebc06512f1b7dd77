//! The exception-handler symbols that the Windows linker asks for and that a
//! driver built with `panic = "abort"` never calls.

use vstd::prelude::*;

verus! {

/// The value that `__CxxFrameHandler3` returns.
pub const CXX_FRAME_HANDLER3_RESULT: i32 = 0;

/// The value that `__CxxFrameHandler4` returns.
pub const CXX_FRAME_HANDLER4_RESULT: i32 = 1;

/// The value that `__GSHandlerCheck_EH4` returns.
pub const GS_HANDLER_CHECK_EH4_RESULT: i32 = 2;

/// Stand-in for the C++ frame handler, version 3; returns 0.
#[allow(non_snake_case)]
pub fn __CxxFrameHandler3() -> (r: i32)
    ensures
        r == CXX_FRAME_HANDLER3_RESULT,
{
    0
}

/// Stand-in for the C++ frame handler, version 4; returns 1.
#[allow(non_snake_case)]
pub fn __CxxFrameHandler4() -> (r: i32)
    ensures
        r == CXX_FRAME_HANDLER4_RESULT,
{
    1
}

/// Stand-in for the security-check handler with exception handling,
/// version 4; returns 2.
#[allow(non_snake_case)]
pub fn __GSHandlerCheck_EH4() -> (r: i32)
    ensures
        r == GS_HANDLER_CHECK_EH4_RESULT,
{
    2
}

/// The three stand-ins return three different values, so that the linker
/// cannot fold them into one function.
pub proof fn lemma_handler_results_distinct()
    ensures
        CXX_FRAME_HANDLER3_RESULT != CXX_FRAME_HANDLER4_RESULT,
        CXX_FRAME_HANDLER3_RESULT != GS_HANDLER_CHECK_EH4_RESULT,
        CXX_FRAME_HANDLER4_RESULT != GS_HANDLER_CHECK_EH4_RESULT,
{
}

} // verus!
