//! The entry points of the native engine, as values.
//!
//! The library never calls the engine. Each operation says which entry point
//! is to be called and with which arguments; the embedding program performs the
//! call and hands the answer back.

use vstd::prelude::*;

verus! {

/// Address in the guest's address space.
pub type GuestAddr = u64;

/// Size of a range of guest addresses.
pub type GuestUsize = GuestAddr;

/// Answer of the native mapping call that reports a failure: minus one in
/// the signed result of the engine, which is no address of a mapping.
pub const MAP_FAILED: u64 = 0xffff_ffff_ffff_ffff;

/// One call of a native entry point, with its arguments.
#[derive(Debug, Clone, Copy, PartialEq, Eq, Structural)]
pub enum EngineCall {
    /// Ask how many registers the guest CPU has.
    NumRegs,
    /// Write the register `reg` from the caller's value.
    WriteReg { reg: i32 },
    /// Read the register `reg` into the caller's value.
    ReadReg { reg: i32 },
    /// Install a breakpoint at `addr`.
    SetBreakpoint { addr: GuestAddr },
    /// Remove the breakpoint at `addr`.
    RemoveBreakpoint { addr: GuestAddr },
    /// Install a code hook at `addr`; `data` is passed to it on every hit.
    SetHook { addr: GuestAddr, data: u64, invalidate_block: i32 },
    /// Remove every code hook at `addr`.
    RemoveHooksAt { addr: GuestAddr, invalidate_block: i32 },
    /// Run the guest until a breakpoint, a hook-driven exit or its end.
    Run,
    /// Drop all translated code.
    FlushJit,
    /// Ask for the load address of the guest binary.
    LoadAddr,
    /// Ask for the guest's program break.
    GetBrk,
    /// Set the guest's program break.
    SetBrk { brk: GuestAddr },
    /// Ask where the next anonymous mapping would start.
    GetMmapStart,
    /// Set where the next anonymous mapping starts.
    SetMmapStart { next: GuestAddr },
    /// Map `len` bytes of private anonymous memory at or near `start`.
    Mmap { start: u64, len: u64, prot: i32, fixed: bool, fd: i32, offset: u64 },
    /// Change the protection of `len` bytes at `start`.
    Mprotect { start: u64, len: u64, prot: i32 },
    /// Unmap `len` bytes at `start`.
    Munmap { start: u64, len: u64 },
    /// Install the caller's edge hook; `data` is passed to its callbacks.
    AddEdgeHook { data: u64 },
    /// Install the caller's block hook; `data` is passed to its callbacks.
    AddBlockHook { data: u64 },
    /// Install the caller's memory-read hook; `data` is passed to its
    /// callbacks.
    AddReadHook { data: u64 },
    /// Install the caller's memory-write hook; `data` is passed to its
    /// callbacks.
    AddWriteHook { data: u64 },
    /// Install the caller's comparison hook; `data` is passed to its
    /// callbacks.
    AddCmpHook { data: u64 },
    /// Register the debugger command with the table index `handle`.
    AddGdbCmd { handle: usize },
    /// Send `count` bytes of the caller's buffer through the debugger channel.
    GdbReply { count: usize },
    /// Take a snapshot of the guest's memory-mapping table.
    ReadSelfMaps,
    /// Ask for the entry of a snapshot that follows the position `cursor`.
    MapsNext { cursor: usize },
    /// Give a snapshot of the memory-mapping table back.
    FreeSelfMaps { snapshot: usize },
    /// Copy `count` bytes from the caller's buffer to the host address `host`.
    WriteMem { host: usize, count: usize },
    /// Copy `count` bytes from the host address `host` to the caller's buffer.
    ReadMem { host: usize, count: usize },
}

} // verus!
