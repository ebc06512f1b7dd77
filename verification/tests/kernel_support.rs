use wdk::debug::{break_instruction, BreakInstruction, TargetArch};
use wdk::irql::{irql_allows_paged_code, APC_LEVEL, DISPATCH_LEVEL, PASSIVE_LEVEL};
use wdk::linker_stubs::{__CxxFrameHandler3, __CxxFrameHandler4, __GSHandlerCheck_EH4};
use wdk::pool::{PoolRequest, WdkAllocator, POOL_FLAG_NON_PAGED, RUST_TAG};

#[test]
fn rust_tag_is_rust_in_memory() {
    assert_eq!(RUST_TAG, 0x7473_7572);
    assert_eq!(RUST_TAG.to_le_bytes(), *b"rust");
    assert_eq!(u32::from_le_bytes(*b"rust"), RUST_TAG);
}

#[test]
fn pool_request_is_non_paged_tagged_and_sized() {
    let allocator = WdkAllocator;
    assert_eq!(
        allocator.pool_request(24),
        PoolRequest { flags: 0x40, number_of_bytes: 24, tag: 0x7473_7572 }
    );
    let r = allocator.pool_request(0);
    assert_eq!(r.number_of_bytes, 0);
    assert_eq!(r.flags, POOL_FLAG_NON_PAGED);
    let r = allocator.pool_request(usize::MAX);
    assert_eq!(r.number_of_bytes, usize::MAX);
    assert_eq!(r.tag, RUST_TAG);
}

#[test]
fn paged_code_only_up_to_apc_level() {
    assert!(irql_allows_paged_code(PASSIVE_LEVEL));
    assert!(irql_allows_paged_code(APC_LEVEL));
    assert!(!irql_allows_paged_code(DISPATCH_LEVEL));
    assert!(!irql_allows_paged_code(15));
}

#[test]
fn breakpoint_instruction_per_architecture() {
    assert_eq!(break_instruction(TargetArch::X86), Some(BreakInstruction::Int3));
    assert_eq!(break_instruction(TargetArch::X86_64), Some(BreakInstruction::Int3));
    assert_eq!(break_instruction(TargetArch::Aarch64), Some(BreakInstruction::BrkF000));
    assert_eq!(break_instruction(TargetArch::Other), None);
}

#[test]
fn frame_handler_stubs_return_distinct_values() {
    assert_eq!(__CxxFrameHandler3(), 0);
    assert_eq!(__CxxFrameHandler4(), 1);
    assert_eq!(__GSHandlerCheck_EH4(), 2);
}
