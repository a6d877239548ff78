//! The handle of the one guest context of a process.

use vstd::prelude::*;
use vstd::string::StringExecFns;
use crate::engine::{EngineCall, GuestAddr, MAP_FAILED};
use crate::error::EmuError;
use crate::perms::MmapPerms;

verus! {

/// Process-wide record of whether a guest context was ever created.
pub struct InstanceGuard {
    initialized: bool,
}

impl InstanceGuard {
    /// Whether a guest context was created under this guard.
    pub closed spec fn initialized(&self) -> bool {
        self.initialized
    }

    /// A guard under which no guest context exists yet.
    pub fn new() -> (guard: InstanceGuard)
        ensures
            !guard.initialized(),
    {
        InstanceGuard { initialized: false }
    }

    /// Whether a guest context was created under this guard.
    pub fn is_initialized(&self) -> (r: bool)
        ensures
            r == self.initialized(),
    {
        self.initialized
    }
}

/// Why no guest context can be created.
#[derive(Debug, Clone, Copy, PartialEq, Eq, Structural)]
pub enum StartError {
    /// A guest context already exists in this process.
    AlreadyInitialized,
    /// The argument list is empty.
    NoArguments,
    /// The argument count does not fit the native argument counter.
    TooManyArguments,
}

/// A program argument as the native engine reads it: the text, then a
/// terminating NUL.
pub open spec fn c_argument(arg: Seq<char>) -> Seq<char> {
    arg + seq!['\0']
}

/// An environment entry as the native engine reads it: the key, an equals
/// sign, the value, then a terminating NUL.
pub open spec fn c_env_entry(key: Seq<char>, value: Seq<char>) -> Seq<char> {
    key + seq!['='] + value + seq!['\0']
}

/// The pending initialisation of the native engine: the argument vector and
/// the environment to start the guest with.
pub struct Startup {
    argc: i32,
    argv: Vec<String>,
    envp: Vec<String>,
}

impl Startup {
    /// The argument count handed to the native engine.
    pub closed spec fn spec_argc(&self) -> int {
        self.argc as int
    }

    /// The argument vector handed to the native engine.
    pub closed spec fn spec_argv(&self) -> Seq<Seq<char>> {
        Seq::new(self.argv@.len(), |i: int| self.argv@[i]@)
    }

    /// The environment handed to the native engine.
    pub closed spec fn spec_envp(&self) -> Seq<Seq<char>> {
        Seq::new(self.envp@.len(), |i: int| self.envp@[i]@)
    }

    /// Whether this is the initialisation for the arguments `args` and the
    /// environment `env`.
    pub open spec fn is_for(&self, args: Seq<String>, env: Seq<(String, String)>) -> bool {
        &&& self.spec_argc() == args.len()
        &&& self.spec_argv().len() == args.len()
        &&& forall|i: int|
            0 <= i < args.len() ==> #[trigger] self.spec_argv()[i] == c_argument(args[i]@)
        &&& self.spec_envp().len() == env.len()
        &&& forall|i: int|
            0 <= i < env.len() ==> #[trigger] self.spec_envp()[i] == c_env_entry(
                env[i].0@,
                env[i].1@,
            )
    }

    /// The argument count handed to the native engine.
    pub fn argc(&self) -> (n: i32)
        ensures
            n == self.spec_argc(),
    {
        self.argc
    }

    /// The NUL-terminated arguments, in order.
    pub fn argv(&self) -> (v: &Vec<String>)
        ensures
            v@.len() == self.spec_argv().len(),
            forall|i: int| 0 <= i < v@.len() ==> (#[trigger] v@[i])@ == self.spec_argv()[i],
    {
        &self.argv
    }

    /// The NUL-terminated environment entries, in order.
    pub fn envp(&self) -> (v: &Vec<String>)
        ensures
            v@.len() == self.spec_envp().len(),
            forall|i: int| 0 <= i < v@.len() ==> (#[trigger] v@[i])@ == self.spec_envp()[i],
    {
        &self.envp
    }

    /// Ends the initialisation: the native engine has started the guest and
    /// placed it at the host address `guest_base`.
    pub fn started(self, guest_base: usize) -> (emu: Emulator)
        ensures
            emu.guest_base() == guest_base,
    {
        Emulator { guest_base }
    }
}

/// Handle of the guest context. Copies of it refer to the same guest.
#[derive(Debug, Clone, Copy, PartialEq, Eq, Structural)]
pub struct Emulator {
    guest_base: usize,
}

impl Emulator {
    /// The host address at which the guest's address zero lies.
    pub closed spec fn guest_base(&self) -> usize {
        self.guest_base
    }

    /// Whether the guest address `addr` has a host address.
    pub open spec fn is_valid_guest(&self, addr: GuestAddr) -> bool {
        self.guest_base() + addr <= usize::MAX
    }

    /// Whether the host address `host` lies in the guest's address space.
    pub open spec fn is_valid_host(&self, host: usize) -> bool {
        self.guest_base() <= host
    }

    /// The host address of the guest address `addr`.
    pub open spec fn spec_g2h(&self, addr: GuestAddr) -> int {
        self.guest_base() + addr
    }

    /// The guest address of the host address `host`.
    pub open spec fn spec_h2g(&self, host: int) -> int {
        host - self.guest_base()
    }

    /// The host address at which the guest's address zero lies.
    pub fn base(&self) -> (b: usize)
        ensures
            b == self.guest_base(),
    {
        self.guest_base
    }

    /// Translates a guest address to the host address that holds it.
    #[must_use]
    pub fn g2h(&self, addr: GuestAddr) -> (host: usize)
        requires
            self.is_valid_guest(addr),
        ensures
            host == self.spec_g2h(addr),
            self.is_valid_host(host),
            self.spec_h2g(host as int) == addr,
    {
        self.guest_base + (addr as usize)
    }

    /// Translates a host address to the guest address that it holds.
    #[must_use]
    pub fn h2g(&self, host: usize) -> (addr: GuestAddr)
        requires
            self.is_valid_host(host),
        ensures
            addr == self.spec_h2g(host as int),
            self.is_valid_guest(addr),
            self.spec_g2h(addr) == host,
    {
        (host - self.guest_base) as GuestAddr
    }

    /// The native call that maps `size` bytes of private anonymous memory
    /// with the access `perms`; with `fixed` exactly at `addr`, else with
    /// `addr` as a hint. No file backs the mapping.
    pub open spec fn spec_mmap(addr: GuestAddr, size: usize, perms: MmapPerms, fixed: bool)
        -> EngineCall {
        EngineCall::Mmap {
            start: addr,
            len: size as u64,
            prot: perms.bits() as i32,
            fixed,
            fd: -1i32,
            offset: 0,
        }
    }

    /// What the answer `res` of the native mapping call means:
    /// [`MAP_FAILED`] is its failure value, anything else the address of the
    /// new mapping. Zero is an address like any other: a fixed mapping can
    /// lie there.
    pub open spec fn spec_map_outcome(addr: GuestAddr, res: u64) -> Result<GuestAddr, EmuError> {
        if res == MAP_FAILED {
            Err(EmuError::Mmap(addr))
        } else {
            Ok(res)
        }
    }

    fn mmap(&self, addr: GuestAddr, size: usize, perms: MmapPerms, fixed: bool) -> (call:
        EngineCall)
        ensures
            call == Self::spec_mmap(addr, size, perms, fixed),
    {
        EngineCall::Mmap {
            start: addr,
            len: size as u64,
            prot: perms.to_bits(),
            fixed,
            fd: -1,
            offset: 0,
        }
    }

    /// Asks for `size` bytes of private anonymous guest memory with the access
    /// `perms`; `addr` is a hint that the engine may ignore.
    pub fn map_private(&self, addr: GuestAddr, size: usize, perms: MmapPerms) -> (call:
        EngineCall)
        ensures
            call == Self::spec_mmap(addr, size, perms, false),
    {
        self.mmap(addr, size, perms, false)
    }

    /// Asks for `size` bytes of private anonymous guest memory with the access
    /// `perms`, placed exactly at `addr`.
    pub fn map_fixed(&self, addr: GuestAddr, size: usize, perms: MmapPerms) -> (call: EngineCall)
        ensures
            call == Self::spec_mmap(addr, size, perms, true),
    {
        self.mmap(addr, size, perms, true)
    }

    /// Reads the answer `res` of the native mapping call made for the
    /// requested address `addr`: the failure value gives an error that names
    /// the requested address, and is never handed out as an address.
    pub fn map_outcome(&self, addr: GuestAddr, res: u64) -> (r: Result<GuestAddr, EmuError>)
        ensures
            r == Self::spec_map_outcome(addr, res),
            res == MAP_FAILED <==> r == Err::<GuestAddr, EmuError>(EmuError::Mmap(addr)),
            res != MAP_FAILED <==> r == Ok::<GuestAddr, EmuError>(res),
    {
        if res == MAP_FAILED {
            Err(EmuError::Mmap(addr))
        } else {
            Ok(res)
        }
    }

    /// Asks to change the access to the `size` bytes at `addr` to `perms`.
    pub fn mprotect(&self, addr: GuestAddr, size: usize, perms: MmapPerms) -> (call: EngineCall)
        ensures
            call == (EngineCall::Mprotect {
                start: addr,
                len: size as u64,
                prot: perms.bits() as i32,
            }),
    {
        EngineCall::Mprotect { start: addr, len: size as u64, prot: perms.to_bits() }
    }

    /// Reads the answer `res` of the native protection call made for `addr`:
    /// zero is success.
    pub fn mprotect_outcome(&self, addr: GuestAddr, res: i32) -> (r: Result<(), EmuError>)
        ensures
            res == 0 ==> r == Ok::<(), EmuError>(()),
            res != 0 ==> r == Err::<(), EmuError>(EmuError::Mprotect(addr)),
    {
        if res == 0 {
            Ok(())
        } else {
            Err(EmuError::Mprotect(addr))
        }
    }

    /// Asks to unmap the `size` bytes at `addr`.
    pub fn unmap(&self, addr: GuestAddr, size: usize) -> (call: EngineCall)
        ensures
            call == (EngineCall::Munmap { start: addr, len: size as u64 }),
    {
        EngineCall::Munmap { start: addr, len: size as u64 }
    }

    /// Reads the answer `res` of the native unmapping call made for `addr`:
    /// zero is success.
    pub fn unmap_outcome(&self, addr: GuestAddr, res: i32) -> (r: Result<(), EmuError>)
        ensures
            res == 0 ==> r == Ok::<(), EmuError>(()),
            res != 0 ==> r == Err::<(), EmuError>(EmuError::Munmap(addr)),
    {
        if res == 0 {
            Ok(())
        } else {
            Err(EmuError::Munmap(addr))
        }
    }

    /// Asks to write the register `reg` from the caller's value.
    pub fn write_reg(&self, reg: i32) -> (call: EngineCall)
        ensures
            call == (EngineCall::WriteReg { reg }),
    {
        EngineCall::WriteReg { reg }
    }

    /// Reads the answer `success` of the native register write: zero is
    /// failure.
    pub fn write_reg_outcome(&self, reg: i32, success: i32) -> (r: Result<(), EmuError>)
        ensures
            success == 0 ==> r == Err::<(), EmuError>(EmuError::WriteReg(reg)),
            success != 0 ==> r == Ok::<(), EmuError>(()),
    {
        if success == 0 {
            Err(EmuError::WriteReg(reg))
        } else {
            Ok(())
        }
    }

    /// Asks to read the register `reg` into the caller's value.
    pub fn read_reg(&self, reg: i32) -> (call: EngineCall)
        ensures
            call == (EngineCall::ReadReg { reg }),
    {
        EngineCall::ReadReg { reg }
    }

    /// Reads the answer `success` of the native register read, which left
    /// `val` in the caller's value: zero is failure.
    pub fn read_reg_outcome<T>(&self, reg: i32, success: i32, val: T) -> (r: Result<T, EmuError>)
        ensures
            success == 0 ==> r == Err::<T, EmuError>(EmuError::ReadReg(reg)),
            success != 0 ==> r == Ok::<T, EmuError>(val),
    {
        if success == 0 {
            Err(EmuError::ReadReg(reg))
        } else {
            Ok(val)
        }
    }

    /// Asks to copy the `len` bytes of the caller's buffer to the guest
    /// address `addr`.
    pub fn write_mem(&self, addr: GuestAddr, len: usize) -> (call: EngineCall)
        requires
            self.is_valid_guest(addr),
        ensures
            call == (EngineCall::WriteMem { host: self.spec_g2h(addr) as usize, count: len }),
    {
        EngineCall::WriteMem { host: self.g2h(addr), count: len }
    }

    /// Asks to copy `len` bytes from the guest address `addr` to the caller's
    /// buffer.
    pub fn read_mem(&self, addr: GuestAddr, len: usize) -> (call: EngineCall)
        requires
            self.is_valid_guest(addr),
        ensures
            call == (EngineCall::ReadMem { host: self.spec_g2h(addr) as usize, count: len }),
    {
        EngineCall::ReadMem { host: self.g2h(addr), count: len }
    }

    /// Asks how many registers the guest CPU has.
    #[must_use]
    pub fn num_regs(&self) -> (call: EngineCall)
        ensures
            call == EngineCall::NumRegs,
    {
        EngineCall::NumRegs
    }

    /// Asks for a breakpoint at `addr`.
    pub fn set_breakpoint(&self, addr: GuestAddr) -> (call: EngineCall)
        ensures
            call == (EngineCall::SetBreakpoint { addr }),
    {
        EngineCall::SetBreakpoint { addr }
    }

    /// Asks to remove the breakpoint at `addr`.
    pub fn remove_breakpoint(&self, addr: GuestAddr) -> (call: EngineCall)
        ensures
            call == (EngineCall::RemoveBreakpoint { addr }),
    {
        EngineCall::RemoveBreakpoint { addr }
    }

    /// Asks to install the caller's code hook at `addr`; the engine passes
    /// `data` to it on every hit. With `invalidate_block` the code that was
    /// translated for `addr` is dropped, so that the hook takes effect there.
    pub fn install_hook(&self, addr: GuestAddr, data: u64, invalidate_block: bool) -> (call:
        EngineCall)
        ensures
            call == (EngineCall::SetHook {
                addr,
                data,
                invalidate_block: if invalidate_block {
                    1i32
                } else {
                    0i32
                },
            }),
    {
        let flag: i32 = if invalidate_block {
            1
        } else {
            0
        };
        EngineCall::SetHook { addr, data, invalidate_block: flag }
    }

    /// Asks to remove every code hook at `addr`; where there is none, the
    /// engine does nothing.
    pub fn remove_hook(&self, addr: GuestAddr, invalidate_block: bool) -> (call: EngineCall)
        ensures
            call == (EngineCall::RemoveHooksAt {
                addr,
                invalidate_block: if invalidate_block {
                    1i32
                } else {
                    0i32
                },
            }),
    {
        let flag: i32 = if invalidate_block {
            1
        } else {
            0
        };
        EngineCall::RemoveHooksAt { addr, invalidate_block: flag }
    }

    /// Asks to run the guest until the next breakpoint, a hook-driven exit or
    /// its end.
    pub fn run(&self) -> (call: EngineCall)
        ensures
            call == EngineCall::Run,
    {
        EngineCall::Run
    }

    /// Asks to drop all translated code, as is needed after guest code that
    /// was already translated has been rewritten.
    pub fn flush_jit(&self) -> (call: EngineCall)
        ensures
            call == EngineCall::FlushJit,
    {
        EngineCall::FlushJit
    }

    /// Asks for the load address of the guest binary.
    #[must_use]
    pub fn load_addr(&self) -> (call: EngineCall)
        ensures
            call == EngineCall::LoadAddr,
    {
        EngineCall::LoadAddr
    }

    /// Asks for the guest's program break.
    #[must_use]
    pub fn get_brk(&self) -> (call: EngineCall)
        ensures
            call == EngineCall::GetBrk,
    {
        EngineCall::GetBrk
    }

    /// Asks to set the guest's program break to `brk`.
    pub fn set_brk(&self, brk: GuestAddr) -> (call: EngineCall)
        ensures
            call == (EngineCall::SetBrk { brk }),
    {
        EngineCall::SetBrk { brk }
    }

    /// Asks where the next anonymous mapping would start.
    #[must_use]
    pub fn get_mmap_start(&self) -> (call: EngineCall)
        ensures
            call == EngineCall::GetMmapStart,
    {
        EngineCall::GetMmapStart
    }

    /// Asks to let the next anonymous mapping start at `start`.
    pub fn set_mmap_start(&self, start: GuestAddr) -> (call: EngineCall)
        ensures
            call == (EngineCall::SetMmapStart { next: start }),
    {
        EngineCall::SetMmapStart { next: start }
    }

    /// Asks for a snapshot of the guest's memory-mapping table; the answer
    /// starts a [`crate::maps::GuestMaps`].
    #[must_use]
    pub fn mappings(&self) -> (call: EngineCall)
        ensures
            call == EngineCall::ReadSelfMaps,
    {
        EngineCall::ReadSelfMaps
    }

    /// Asks to install the caller's edge hook.
    pub fn add_edge_hooks(&self, data: u64) -> (call: EngineCall)
        ensures
            call == (EngineCall::AddEdgeHook { data }),
    {
        EngineCall::AddEdgeHook { data }
    }

    /// Asks to install the caller's block hook.
    pub fn add_block_hooks(&self, data: u64) -> (call: EngineCall)
        ensures
            call == (EngineCall::AddBlockHook { data }),
    {
        EngineCall::AddBlockHook { data }
    }

    /// Asks to install the caller's memory-read hook.
    pub fn add_read_hooks(&self, data: u64) -> (call: EngineCall)
        ensures
            call == (EngineCall::AddReadHook { data }),
    {
        EngineCall::AddReadHook { data }
    }

    /// Asks to install the caller's memory-write hook.
    pub fn add_write_hooks(&self, data: u64) -> (call: EngineCall)
        ensures
            call == (EngineCall::AddWriteHook { data }),
    {
        EngineCall::AddWriteHook { data }
    }

    /// Asks to install the caller's comparison hook.
    pub fn add_cmp_hooks(&self, data: u64) -> (call: EngineCall)
        ensures
            call == (EngineCall::AddCmpHook { data }),
    {
        EngineCall::AddCmpHook { data }
    }

    /// Whether a guest context can be created under `guard` with `args`.
    pub open spec fn can_start(guard: InstanceGuard, args: Seq<String>) -> bool {
        &&& !guard.initialized()
        &&& 0 < args.len() < i32::MAX
    }

    /// Claims the one guest context of the process and prepares the
    /// initialisation of the native engine for it.
    pub fn new(guard: &mut InstanceGuard, args: &[String], env: &[(String, String)]) -> (startup:
        Startup)
        requires
            Self::can_start(*old(guard), args@),
        ensures
            final(guard).initialized(),
            startup.is_for(args@, env@),
    {
        let mut argv: Vec<String> = Vec::new();
        let mut i: usize = 0;
        while i < args.len()
            invariant
                0 <= i <= args@.len(),
                argv@.len() == i,
                forall|j: int| 0 <= j < i ==> (#[trigger] argv@[j])@ == c_argument(args@[j]@),
            decreases args@.len() - i,
        {
            proof {
                reveal_strlit("\0");
            }
            let arg = args[i].clone().concat("\0");
            argv.push(arg);
            i += 1;
        }
        let mut envp: Vec<String> = Vec::new();
        let mut k: usize = 0;
        while k < env.len()
            invariant
                0 <= k <= env@.len(),
                envp@.len() == k,
                forall|j: int|
                    0 <= j < k ==> (#[trigger] envp@[j])@ == c_env_entry(
                        env@[j].0@,
                        env@[j].1@,
                    ),
            decreases env@.len() - k,
        {
            proof {
                reveal_strlit("=");
                reveal_strlit("\0");
            }
            let entry = env[k].0.clone().concat("=").concat(env[k].1.as_str()).concat("\0");
            envp.push(entry);
            k += 1;
        }
        let argc: i32 = argv.len() as i32;
        guard.initialized = true;
        let startup = Startup { argc, argv, envp };
        startup
    }

    /// Like [`Emulator::new`], but tells the caller why no guest context can
    /// be created instead of asking the caller to know.
    pub fn try_new(guard: &mut InstanceGuard, args: &[String], env: &[(String, String)]) -> (r:
        Result<Startup, StartError>)
        ensures
            old(guard).initialized() <==> r == Err::<Startup, StartError>(
                StartError::AlreadyInitialized,
            ),
            !old(guard).initialized() && args@.len() == 0 <==> r == Err::<Startup, StartError>(
                StartError::NoArguments,
            ),
            !old(guard).initialized() && args@.len() >= i32::MAX <==> r == Err::<
                Startup,
                StartError,
            >(StartError::TooManyArguments),
            r is Ok <==> Self::can_start(*old(guard), args@),
            r is Ok ==> final(guard).initialized() && r->Ok_0.is_for(args@, env@),
            r is Err ==> *final(guard) == *old(guard),
    {
        if guard.is_initialized() {
            Err(StartError::AlreadyInitialized)
        } else if args.len() == 0 {
            Err(StartError::NoArguments)
        } else if args.len() >= i32::MAX as usize {
            Err(StartError::TooManyArguments)
        } else {
            Ok(Self::new(guard, args, env))
        }
    }
}

/// Once a guest context was created under a guard, none can be created under
/// it again, whatever the arguments.
pub proof fn lemma_single_instance(guard: InstanceGuard, args: Seq<String>)
    requires
        guard.initialized(),
    ensures
        !Emulator::can_start(guard, args),
{
}

/// Translating a valid guest address to the host and back gives the address
/// again, and so does translating a host address of the guest there and back.
pub proof fn lemma_translation_round_trip(emu: Emulator, addr: GuestAddr, host: usize)
    ensures
        emu.is_valid_guest(addr) ==> emu.spec_h2g(emu.spec_g2h(addr)) == addr,
        emu.is_valid_guest(addr) ==> emu.is_valid_host(emu.spec_g2h(addr) as usize),
        emu.is_valid_host(host) ==> emu.spec_g2h(emu.spec_h2g(host as int) as GuestAddr) == host,
{
}

} // verus!
