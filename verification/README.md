# wdk

The rules of the Windows Driver Kit support crates, written in Verus and proved:

- `status`: the `NTSTATUS` classes (`NT_SUCCESS`, `NT_INFORMATION`,
  `NT_WARNING`, `NT_ERROR`) and the law that the four classes partition the codes.
- `pool`: what the kernel-mode global allocator asks of the pool (non-paged,
  the layout's size, the tag `rust`).
- `wdf`: framework spin locks and timers, built from the status and handle of
  their creation call.
- `irql`, `debug`, `linker_stubs`: the pageable-IRQL check, the breakpoint
  instruction per architecture, and the linker's handler stand-ins.

`app/` makes the kernel and framework calls themselves and hands their results
to the library.
