//! Status codes, allocator parameters and framework-object handles of the
//! Windows Driver Kit, with their rules stated and proved.

pub mod pool;
pub mod debug;
pub mod irql;
pub mod linker_stubs;
pub mod status;
pub mod wdf;
