//! `NTSTATUS` values and the four classes that their two most significant
//! bits select.

use vstd::prelude::*;

verus! {

/// A Windows NT status code, as the kernel returns it.
#[allow(non_camel_case_types)]
pub type NTSTATUS = i32;

/// The status code read as the unsigned 32-bit number that the WDK headers
/// and the NTSTATUS reference write (`0x0000_0000 ..= 0xFFFF_FFFF`).
pub open spec fn status_code(nt_status: NTSTATUS) -> int {
    if nt_status >= 0 {
        nt_status as int
    } else {
        nt_status + 0x1_0000_0000
    }
}

/// The unsigned reading of a status is the value that `as u32` gives.
proof fn lemma_status_code_is_unsigned_cast(nt_status: NTSTATUS)
    ensures
        nt_status as u32 as int == status_code(nt_status),
{
    assert(nt_status >= 0i32 ==> nt_status as u32 as int == nt_status as int) by (bit_vector);
    assert(nt_status < 0i32 ==> nt_status as u32 as int == nt_status as int + 0x1_0000_0000int)
        by (bit_vector);
}

/// A success-type code: `0x0000_0000 ..= 0x3FFF_FFFF`.
pub open spec fn is_success_type(nt_status: NTSTATUS) -> bool {
    0 <= status_code(nt_status) <= 0x3FFF_FFFF
}

/// An informational code: `0x4000_0000 ..= 0x7FFF_FFFF`.
pub open spec fn is_information_type(nt_status: NTSTATUS) -> bool {
    0x4000_0000 <= status_code(nt_status) <= 0x7FFF_FFFF
}

/// A warning code: `0x8000_0000 ..= 0xBFFF_FFFF`.
pub open spec fn is_warning_type(nt_status: NTSTATUS) -> bool {
    0x8000_0000 <= status_code(nt_status) <= 0xBFFF_FFFF
}

/// An error code: `0xC000_0000 ..= 0xFFFF_FFFF`.
pub open spec fn is_error_type(nt_status: NTSTATUS) -> bool {
    0xC000_0000 <= status_code(nt_status) <= 0xFFFF_FFFF
}

/// A code that counts as success: a success-type or an informational code.
pub open spec fn is_success_status(nt_status: NTSTATUS) -> bool {
    is_success_type(nt_status) || is_information_type(nt_status)
}

/// Whether `nt_status` is a success type (`0 ..= 0x3FFFFFFF`) or an
/// informational type (`0x40000000 ..= 0x7FFFFFFF`), as `ntdef.h` defines it.
#[allow(non_snake_case)]
pub fn NT_SUCCESS(nt_status: NTSTATUS) -> (r: bool)
    ensures
        r == is_success_status(nt_status),
{
    nt_status >= 0
}

/// Whether `nt_status` is an informational type (`0x40000000 ..= 0x7FFFFFFF`).
#[allow(non_snake_case)]
pub fn NT_INFORMATION(nt_status: NTSTATUS) -> (r: bool)
    ensures
        r == is_information_type(nt_status),
{
    let code = #[verifier::truncate] (nt_status as u32);
    proof {
        lemma_status_code_is_unsigned_cast(nt_status);
        assert((code >> 30u32 == 1u32) <==> (0x4000_0000u32 <= code && code <= 0x7FFF_FFFFu32))
            by (bit_vector);
    }
    (code >> 30) == 1
}

/// Whether `nt_status` is a warning type (`0x80000000 ..= 0xBFFFFFFF`).
#[allow(non_snake_case)]
pub fn NT_WARNING(nt_status: NTSTATUS) -> (r: bool)
    ensures
        r == is_warning_type(nt_status),
{
    let code = #[verifier::truncate] (nt_status as u32);
    proof {
        lemma_status_code_is_unsigned_cast(nt_status);
        assert((code >> 30u32 == 2u32) <==> (0x8000_0000u32 <= code && code <= 0xBFFF_FFFFu32))
            by (bit_vector);
    }
    (code >> 30) == 2
}

/// Whether `nt_status` is an error type (`0xC0000000 ..= 0xFFFFFFFF`).
#[allow(non_snake_case)]
pub fn NT_ERROR(nt_status: NTSTATUS) -> (r: bool)
    ensures
        r == is_error_type(nt_status),
{
    let code = #[verifier::truncate] (nt_status as u32);
    proof {
        lemma_status_code_is_unsigned_cast(nt_status);
        assert((code >> 30u32 == 3u32) <==> 0xC000_0000u32 <= code) by (bit_vector);
    }
    (code >> 30) == 3
}

/// Every status falls in exactly one of the four classes: success type,
/// informational, warning or error. A status counts as success exactly when
/// it is neither a warning nor an error, and it is negative exactly when it
/// is a warning or an error.
pub proof fn lemma_status_classes_partition(nt_status: NTSTATUS)
    ensures
        is_success_type(nt_status) || is_information_type(nt_status) || is_warning_type(nt_status)
            || is_error_type(nt_status),
        !(is_success_type(nt_status) && is_information_type(nt_status)),
        !(is_success_type(nt_status) && is_warning_type(nt_status)),
        !(is_success_type(nt_status) && is_error_type(nt_status)),
        !(is_information_type(nt_status) && is_warning_type(nt_status)),
        !(is_information_type(nt_status) && is_error_type(nt_status)),
        !(is_warning_type(nt_status) && is_error_type(nt_status)),
        is_success_status(nt_status) <==> !is_warning_type(nt_status) && !is_error_type(
            nt_status,
        ),
        is_success_status(nt_status) <==> nt_status >= 0,
{
}

/// The class of a status is the value of its two most significant bits:
/// 0 for success type, 1 for informational, 2 for warning, 3 for error.
pub proof fn lemma_status_class_is_top_bits(nt_status: NTSTATUS)
    ensures
        is_success_type(nt_status) <==> status_code(nt_status) / 0x4000_0000 == 0,
        is_information_type(nt_status) <==> status_code(nt_status) / 0x4000_0000 == 1,
        is_warning_type(nt_status) <==> status_code(nt_status) / 0x4000_0000 == 2,
        is_error_type(nt_status) <==> status_code(nt_status) / 0x4000_0000 == 3,
{
}

} // verus!
