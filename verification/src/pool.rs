//! The parameters with which the kernel-mode allocator asks the pool for
//! memory.

use vstd::prelude::*;

verus! {

/// The pool flag that asks for non-paged memory (`POOL_FLAG_NON_PAGED`),
/// which stays resident and can be touched at any IRQL up to
/// `DISPATCH_LEVEL`.
pub const POOL_FLAG_NON_PAGED: u64 = 0x0000_0000_0000_0040;

/// The memory tag of every allocation: the four bytes `r`, `u`, `s`, `t`
/// in memory order, that is `0x74737572` read little-endian.
pub const RUST_TAG: u32 = 0x7473_7572;

/// The bytes of a 32-bit value in little-endian order, the order in which a
/// pool tag lies in memory.
pub open spec fn le_bytes(x: u32) -> Seq<u8> {
    seq![(x & 0xff) as u8, ((x >> 8) & 0xff) as u8, ((x >> 16) & 0xff) as u8, ((x >> 24) & 0xff) as u8]
}

/// The tag lies in memory as the bytes of `"rust"`, which is how debuggers
/// show it (`!poolfind rust`).
pub proof fn lemma_rust_tag_reads_rust()
    ensures
        le_bytes(RUST_TAG) == seq!['r' as u8, 'u' as u8, 's' as u8, 't' as u8],
{
    let t = RUST_TAG;
    assert((t & 0xff) as u8 == 0x72u8) by (bit_vector)
        requires
            t == 0x7473_7572u32,
    ;
    assert(((t >> 8) & 0xff) as u8 == 0x75u8) by (bit_vector)
        requires
            t == 0x7473_7572u32,
    ;
    assert(((t >> 16) & 0xff) as u8 == 0x73u8) by (bit_vector)
        requires
            t == 0x7473_7572u32,
    ;
    assert(((t >> 24) & 0xff) as u8 == 0x74u8) by (bit_vector)
        requires
            t == 0x7473_7572u32,
    ;
    assert(le_bytes(RUST_TAG) =~= seq!['r' as u8, 'u' as u8, 's' as u8, 't' as u8]);
}

/// One request to the pool (`ExAllocatePool2`): its flags, the number of
/// bytes and the tag.
#[derive(Debug, PartialEq, Eq)]
pub struct PoolRequest {
    pub flags: u64,
    pub number_of_bytes: usize,
    pub tag: u32,
}

/// The global allocator of kernel-mode drivers: every allocation comes from
/// the non-paged pool, tagged [`RUST_TAG`], with the size of the layout and
/// its default alignment.
#[derive(Debug)]
pub struct WdkAllocator;

impl WdkAllocator {
    /// The request that an allocation of `size` bytes makes of the pool:
    /// non-paged memory, exactly `size` bytes, tagged [`RUST_TAG`]. The pool
    /// answers with a null pointer when it has no memory, and the allocator
    /// hands that answer on unchanged.
    pub fn pool_request(&self, size: usize) -> (r: PoolRequest)
        ensures
            r.flags == POOL_FLAG_NON_PAGED,
            r.number_of_bytes == size,
            r.tag == RUST_TAG,
    {
        PoolRequest { flags: POOL_FLAG_NON_PAGED, number_of_bytes: size, tag: RUST_TAG }
    }
}

} // verus!
