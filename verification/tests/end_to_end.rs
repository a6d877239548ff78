use std::collections::BTreeMap;

use guest_emu::emu::{Emulator, InstanceGuard, StartError};
use guest_emu::engine::{EngineCall, MAP_FAILED};
use guest_emu::error::EmuError;
use guest_emu::perms::MmapPerms;

/// A native layer with a guest memory of its own: mappings are served from a
/// bump pointer, and a copy succeeds only inside a mapping.
struct FakeEngine {
    base: usize,
    next: u64,
    regions: BTreeMap<u64, Vec<u8>>,
}

impl FakeEngine {
    fn new(base: usize) -> Self {
        FakeEngine { base, next: 0x10000, regions: BTreeMap::new() }
    }

    fn call(&mut self, call: EngineCall) -> u64 {
        match call {
            EngineCall::Mmap { start, len, fixed, fd, offset, .. } => {
                assert_eq!((fd, offset), (-1, 0));
                let at = if fixed { start } else { self.next };
                if len == 0 || self.regions.contains_key(&at) {
                    return MAP_FAILED;
                }
                if !fixed {
                    self.next += len;
                }
                self.regions.insert(at, vec![0; len as usize]);
                at
            }
            EngineCall::Munmap { start, .. } => {
                if self.regions.remove(&start).is_some() {
                    0
                } else {
                    u64::MAX
                }
            }
            EngineCall::Mprotect { start, .. } => {
                if self.regions.contains_key(&start) {
                    0
                } else {
                    u64::MAX
                }
            }
            other => panic!("unexpected call {:?}", other),
        }
    }

    fn region(&mut self, host: usize, count: usize) -> &mut [u8] {
        let guest = (host - self.base) as u64;
        let (start, bytes) =
            self.regions.range_mut(..=guest).next_back().expect("address is mapped");
        let from = (guest - start) as usize;
        &mut bytes[from..from + count]
    }

    fn copy(&mut self, call: EngineCall, buf: &mut [u8]) {
        match call {
            EngineCall::WriteMem { host, count } => {
                assert_eq!(count, buf.len());
                self.region(host, count).copy_from_slice(buf)
            }
            EngineCall::ReadMem { host, count } => {
                assert_eq!(count, buf.len());
                buf.copy_from_slice(self.region(host, count))
            }
            other => panic!("unexpected call {:?}", other),
        }
    }
}

fn map_private(emu: &Emulator, engine: &mut FakeEngine, size: usize) -> Result<u64, EmuError> {
    let res = engine.call(emu.map_private(0, size, MmapPerms::ReadWrite));
    emu.map_outcome(0, res)
}

fn write_then_read(emu: &Emulator, engine: &mut FakeEngine, addr: u64, seed: u8) {
    let mut data: Vec<u8> = (0..4096u32).map(|i| (i as u8).wrapping_mul(31).wrapping_add(seed)).collect();
    let sent = data.clone();
    engine.copy(emu.write_mem(addr, data.len()), &mut data);
    let mut back = vec![0u8; 4096];
    engine.copy(emu.read_mem(addr, back.len()), &mut back);
    assert_eq!(back, sent);
}

#[test]
fn map_write_read_unmap_and_map_again() {
    let mut guard = InstanceGuard::new();
    let args = vec![String::from("target")];
    let env: Vec<(String, String)> = Vec::new();
    let startup = Emulator::try_new(&mut guard, &args, &env).expect("first construction");
    assert_eq!(startup.argc(), 1);
    let mut engine = FakeEngine::new(0x7000_0000);
    let emu = startup.started(engine.base);

    assert_eq!(
        Emulator::try_new(&mut guard, &args, &env).err(),
        Some(StartError::AlreadyInitialized)
    );

    let first = map_private(&emu, &mut engine, 4096).expect("mapping");
    write_then_read(&emu, &mut engine, first, 1);

    let res = engine.call(emu.unmap(first, 4096));
    assert_eq!(emu.unmap_outcome(first, res as i32), Ok(()));

    let second = map_private(&emu, &mut engine, 4096).expect("second mapping");
    write_then_read(&emu, &mut engine, second, 2);
    let res = engine.call(emu.unmap(second, 4096));
    assert_eq!(emu.unmap_outcome(second, res as i32), Ok(()));
}

#[test]
fn failed_native_calls_name_the_address() {
    let mut guard = InstanceGuard::new();
    let args = vec![String::from("target")];
    let emu = Emulator::try_new(&mut guard, &args, &[]).unwrap().started(0);
    let mut engine = FakeEngine::new(0);

    let res = engine.call(emu.map_private(0x5000, 0, MmapPerms::ReadWrite));
    assert_eq!(emu.map_outcome(0x5000, res), Err(EmuError::Mmap(0x5000)));

    let res = engine.call(emu.unmap(0x6000, 4096));
    assert_eq!(emu.unmap_outcome(0x6000, res as i32), Err(EmuError::Munmap(0x6000)));

    let res = engine.call(emu.mprotect(0x6000, 4096, MmapPerms::Read));
    assert_eq!(emu.mprotect_outcome(0x6000, res as i32), Err(EmuError::Mprotect(0x6000)));

    let at = engine.call(emu.map_fixed(0x6000, 4096, MmapPerms::ReadWrite));
    assert_eq!(emu.map_outcome(0x6000, at), Ok(0x6000));
    let res = engine.call(emu.mprotect(0x6000, 4096, MmapPerms::Read));
    assert_eq!(emu.mprotect_outcome(0x6000, res as i32), Ok(()));
    let again = engine.call(emu.map_fixed(0x6000, 4096, MmapPerms::ReadWrite));
    assert_eq!(again, MAP_FAILED);
    assert_eq!(emu.map_outcome(0x6000, again), Err(EmuError::Mmap(0x6000)));
    assert_eq!(engine.regions.len(), 1);
}

#[test]
fn fixed_mapping_at_address_zero_succeeds() {
    let mut guard = InstanceGuard::new();
    let args = vec![String::from("target")];
    let emu = Emulator::try_new(&mut guard, &args, &[]).unwrap().started(0x1000);
    let mut engine = FakeEngine::new(0x1000);
    let at = engine.call(emu.map_fixed(0, 4096, MmapPerms::ReadWrite));
    assert_eq!(emu.map_outcome(0, at), Ok(0));
    write_then_read(&emu, &mut engine, 0, 3);
}
