use guest_emu::code_hooks::CodeHooks;
use guest_emu::engine::EngineCall;
use guest_emu::gdb::{gdb_cmd, gdb_reply, CommandRegistry};
use guest_emu::hooks::{cmp_slot, mem_slot, ExecCall, ExecSlot, Site, SKIP_EXEC_HOOK};
use guest_emu::maps::{GuestMaps, MapInfo};
use guest_emu::perms::MmapPerms;
use guest_emu::syscall::{EventHooks, HookReply, SyscallHookResult};

/// A native layer that serves snapshots of a fixed table and counts how often
/// a snapshot is taken and freed.
struct FakeMaps {
    table: Vec<(u64, u64, Option<&'static str>, i32, i32)>,
    snapshots: usize,
    frees: usize,
    freed: Vec<usize>,
}

impl FakeMaps {
    fn new(table: Vec<(u64, u64, Option<&'static str>, i32, i32)>) -> Self {
        FakeMaps { table, snapshots: 0, frees: 0, freed: Vec::new() }
    }

    fn perform(&mut self, call: EngineCall) -> (usize, Option<MapInfo>) {
        match call {
            EngineCall::ReadSelfMaps => {
                self.snapshots += 1;
                (1, None)
            }
            EngineCall::MapsNext { cursor } => {
                if cursor > self.table.len() {
                    (0, None)
                } else {
                    let (start, end, path, flags, is_priv) = self.table[cursor - 1];
                    let info =
                        MapInfo::new(start, end, 0, path.map(String::from), flags, is_priv);
                    (cursor + 1, Some(info))
                }
            }
            EngineCall::FreeSelfMaps { snapshot } => {
                self.frees += 1;
                self.freed.push(snapshot);
                (0, None)
            }
            other => panic!("not a call of the map traversal: {:?}", other),
        }
    }

    fn open(&mut self) -> GuestMaps {
        let (snapshot, _) = self.perform(EngineCall::ReadSelfMaps);
        GuestMaps::new(snapshot)
    }

    fn step(&mut self, maps: &mut GuestMaps) -> Option<MapInfo> {
        match maps.next_call() {
            None => None,
            Some(call) => {
                let (cursor, entry) = self.perform(call);
                let entry = entry.unwrap_or_else(|| MapInfo::new(0, 0, 0, None, 0, 0));
                maps.next(cursor, entry)
            }
        }
    }

    fn close(&mut self, maps: &mut GuestMaps) {
        if let Some(call) = maps.release() {
            self.perform(call);
        }
    }
}

fn two_mappings() -> FakeMaps {
    FakeMaps::new(vec![
        (0x1000, 0x2000, Some("/bin/target"), 5, 1),
        (0x8000, 0xa000, None, 3, 0),
    ])
}

#[test]
fn discarded_traversal_frees_its_snapshot_once() {
    let mut native = two_mappings();
    let mut maps = native.open();
    native.close(&mut maps);
    native.close(&mut maps);
    native.close(&mut maps);
    assert_eq!(native.snapshots, 1);
    assert_eq!(native.frees, 1);
    assert_eq!(native.freed, vec![1]);
}

#[test]
fn exhausted_traversal_frees_its_snapshot_once() {
    let mut native = two_mappings();
    let mut maps = native.open();
    let mut seen = Vec::new();
    while let Some(info) = native.step(&mut maps) {
        seen.push((info.start(), info.end()));
    }
    assert_eq!(seen, vec![(0x1000, 0x2000), (0x8000, 0xa000)]);
    assert!(native.step(&mut maps).is_none());
    assert_eq!(native.frees, 0);
    native.close(&mut maps);
    native.close(&mut maps);
    assert_eq!(native.snapshots, 1);
    assert_eq!(native.frees, 1);
}

#[test]
fn partly_walked_traversal_frees_its_snapshot_once() {
    let mut native = two_mappings();
    let mut maps = native.open();
    assert!(native.step(&mut maps).is_some());
    native.close(&mut maps);
    assert!(maps.next_call().is_none());
    assert!(native.step(&mut maps).is_none());
    native.close(&mut maps);
    assert_eq!(native.frees, 1);
    assert_eq!(native.freed, vec![1]);
}

#[test]
fn traversal_asks_for_the_entry_after_its_cursor() {
    let mut maps = GuestMaps::new(0x55aa);
    assert_eq!(maps.next_call(), Some(EngineCall::MapsNext { cursor: 0x55aa }));
    let first = maps.next(0x55ab, MapInfo::new(1, 2, 3, None, 1, 1));
    assert_eq!(first.map(|m| m.start()), Some(1));
    assert_eq!(maps.next_call(), Some(EngineCall::MapsNext { cursor: 0x55ab }));
    assert!(maps.next(0, MapInfo::new(9, 9, 9, None, 1, 1)).is_none());
    assert_eq!(maps.next_call(), None);
    assert_eq!(maps.release(), Some(EngineCall::FreeSelfMaps { snapshot: 0x55aa }));
    assert_eq!(maps.release(), None);
}

#[test]
fn empty_snapshot_has_no_step_but_is_freed() {
    let mut maps = GuestMaps::new(0);
    assert_eq!(maps.next_call(), None);
    assert_eq!(maps.release(), Some(EngineCall::FreeSelfMaps { snapshot: 0 }));
    assert_eq!(maps.release(), None);
}

#[test]
fn map_entries_report_their_values() {
    let info = MapInfo::new(0x1000, 0x3000, 0x200, Some(String::from("/lib/libc.so")), 5, 1);
    assert_eq!(info.start(), 0x1000);
    assert_eq!(info.end(), 0x3000);
    assert_eq!(info.offset(), 0x200);
    assert_eq!(info.path(), Some("/lib/libc.so"));
    assert_eq!(info.raw_flags(), 5);
    assert_eq!(info.flags(), MmapPerms::ReadExecute);
    assert!(info.is_priv());
    let anon = MapInfo::new(0, 0, 0, None, 0, 0);
    assert_eq!(anon.path(), None);
    assert_eq!(anon.flags(), MmapPerms::NoAccess);
    assert!(!anon.is_priv());
    assert!(MapInfo::new(0, 0, 0, None, 7, -1).is_priv());
}

/// A stand-in for the engine's translator: it asks the generation callback
/// once for each site and replays what the protocol says on every access.
struct FakeTranslator {
    sites: Vec<(u64, Site)>,
}

impl FakeTranslator {
    fn translate(&mut self, pc: u64, gen: &mut dyn FnMut(u64, usize) -> u64, size: usize) {
        self.sites.push((pc, Site::generated(gen(pc, size))));
    }

    fn access(&self, pc: u64, size: usize) -> Option<ExecCall> {
        let site = self.sites.iter().find(|(at, _)| *at == pc).expect("translated site");
        site.1.on_access(size)
    }
}

#[test]
fn read_hook_receives_its_correlation_id() {
    let mut engine = FakeTranslator { sites: Vec::new() };
    let mut gen = |pc: u64, _size: usize| if pc == 0x401000 { 42 } else { SKIP_EXEC_HOOK };
    engine.translate(0x401000, &mut gen, 4);
    engine.translate(0x402000, &mut gen, 4);
    let mut received = Vec::new();
    for _ in 0..5 {
        if let Some(call) = engine.access(0x401000, 4) {
            assert_eq!(call.slot, ExecSlot::Exec4);
            received.push(call.id);
        }
        assert_eq!(engine.access(0x402000, 4), None);
    }
    assert_eq!(received, vec![42, 42, 42, 42, 42]);
}

#[test]
fn skipped_site_never_executes() {
    let site = Site::generated(SKIP_EXEC_HOOK);
    assert_eq!(site, Site::Skipped);
    for size in [0usize, 1, 2, 3, 4, 8, 16, usize::MAX] {
        assert_eq!(site.on_access(size), None);
        assert_eq!(site.on_cmp(size), None);
    }
    assert_eq!(site.on_hit(), None);
}

#[test]
fn skip_value_is_all_ones() {
    assert_eq!(SKIP_EXEC_HOOK, u64::MAX);
    assert_eq!(Site::generated(u64::MAX - 1), Site::Instrumented { id: u64::MAX - 1 });
    assert_eq!(Site::generated(0), Site::Instrumented { id: 0 });
}

#[test]
fn access_width_selects_the_callback() {
    assert_eq!(mem_slot(1), ExecSlot::Exec1);
    assert_eq!(mem_slot(2), ExecSlot::Exec2);
    assert_eq!(mem_slot(4), ExecSlot::Exec4);
    assert_eq!(mem_slot(8), ExecSlot::Exec8);
    for size in [0usize, 3, 5, 6, 7, 9, 16, 64] {
        assert_eq!(mem_slot(size), ExecSlot::ExecN);
        assert_eq!(cmp_slot(size), None);
    }
    assert_eq!(cmp_slot(1), Some(ExecSlot::Exec1));
    assert_eq!(cmp_slot(2), Some(ExecSlot::Exec2));
    assert_eq!(cmp_slot(4), Some(ExecSlot::Exec4));
    assert_eq!(cmp_slot(8), Some(ExecSlot::Exec8));
    let site = Site::generated(7);
    assert_eq!(site.on_access(16), Some(ExecCall { slot: ExecSlot::ExecN, id: 7 }));
    assert_eq!(site.on_cmp(2), Some(ExecCall { slot: ExecSlot::Exec2, id: 7 }));
    assert_eq!(site.on_cmp(16), None);
    assert_eq!(site.on_hit(), Some(7));
}

#[test]
fn removing_code_hooks_twice_is_a_no_op() {
    let mut hooks: CodeHooks<&'static str> = CodeHooks::new();
    let (a, call) = hooks.install_hook(0x1000, "a", true);
    assert_eq!(a, 0);
    assert_eq!(call, EngineCall::SetHook { addr: 0x1000, data: 0, invalidate_block: 1 });
    let (b, call) = hooks.install_hook(0x2000, "b", false);
    assert_eq!(b, 1);
    assert_eq!(call, EngineCall::SetHook { addr: 0x2000, data: 1, invalidate_block: 0 });
    let (c, _) = hooks.install_hook(0x1000, "c", true);
    assert_eq!(c, 2);
    assert_eq!(hooks.len(), 3);

    let (removed, call) = hooks.remove_hook(0x1000, true);
    assert_eq!(removed, 2);
    assert_eq!(call, EngineCall::RemoveHooksAt { addr: 0x1000, invalidate_block: 1 });
    assert_eq!(hooks.get(a), None);
    assert_eq!(hooks.get(c), None);
    assert_eq!(hooks.get(b), Some(&(0x2000, "b")));

    let (again, call) = hooks.remove_hook(0x1000, false);
    assert_eq!(again, 0);
    assert_eq!(call, EngineCall::RemoveHooksAt { addr: 0x1000, invalidate_block: 0 });
    assert_eq!(hooks.get(a), None);
    assert_eq!(hooks.get(c), None);
    assert_eq!(hooks.get(b), Some(&(0x2000, "b")));
    assert_eq!(hooks.len(), 3);
}

#[test]
fn removing_where_no_hook_is_changes_nothing() {
    let mut hooks: CodeHooks<u8> = CodeHooks::new();
    assert_eq!(hooks.remove_hook(0x1000, true).0, 0);
    let (h, _) = hooks.install_hook(0x3000, 9, true);
    assert_eq!(hooks.remove_hook(0x1000, true).0, 0);
    assert_eq!(hooks.get(h), Some(&(0x3000, 9)));
    assert_eq!(hooks.get(h + 1), None);
    assert_eq!(hooks.get(usize::MAX), None);
    let (next, _) = hooks.install_hook(0x1000, 1, true);
    assert_eq!(next, 1);
    assert_eq!(hooks.remove_hook(0x1000, true).0, 1);
    assert_eq!(hooks.get(h), Some(&(0x3000, 9)));
}

#[test]
fn syscall_answers() {
    assert_eq!(
        SyscallHookResult::new(None),
        SyscallHookResult { retval: 0, skip_syscall: false }
    );
    assert_eq!(
        SyscallHookResult::new(Some(77)),
        SyscallHookResult { retval: 77, skip_syscall: true }
    );
    assert_eq!(
        SyscallHookResult::new(Some(0)),
        SyscallHookResult { retval: 0, skip_syscall: true }
    );
    assert_eq!(SyscallHookResult::from_reply(None), SyscallHookResult::new(None));
    assert_eq!(
        SyscallHookResult::from_reply(Some(HookReply::Nothing)),
        SyscallHookResult::new(None)
    );
    assert_eq!(
        SyscallHookResult::from_reply(Some(HookReply::Value(5))),
        SyscallHookResult { retval: 5, skip_syscall: true }
    );
    let full = SyscallHookResult { retval: 9, skip_syscall: false };
    assert_eq!(SyscallHookResult::from_reply(Some(HookReply::Full(full))), full);
    assert_eq!(SyscallHookResult::new(Some(77)).guest_result(1), 77);
    assert_eq!(SyscallHookResult::new(None).guest_result(1), 1);
    assert_eq!(full.guest_result(3), 3);
}

#[test]
fn event_hooks_have_one_slot_each() {
    let mut hooks: EventHooks<u8, u16, u32> = EventHooks::new();
    assert_eq!(hooks.on_thread_hook(), None);
    assert_eq!(hooks.pre_syscall_hook(), None);
    assert_eq!(hooks.post_syscall_hook(), None);
    assert_eq!(hooks.set_on_thread_hook(1), None);
    assert_eq!(hooks.set_on_thread_hook(2), Some(1));
    assert_eq!(hooks.on_thread_hook(), Some(&2));
    assert_eq!(hooks.pre_syscall_hook(), None);
    assert_eq!(hooks.set_pre_syscall_hook(10), None);
    assert_eq!(hooks.set_post_syscall_hook(100), None);
    assert_eq!(hooks.set_pre_syscall_hook(11), Some(10));
    assert_eq!(hooks.set_post_syscall_hook(101), Some(100));
    assert_eq!(hooks.on_thread_hook(), Some(&2));
    assert_eq!(hooks.pre_syscall_hook(), Some(&11));
    assert_eq!(hooks.post_syscall_hook(), Some(&101));
}

#[test]
fn debugger_commands_are_found_by_index() {
    let mut registry: CommandRegistry<Box<dyn Fn(&str) -> bool>> = CommandRegistry::new();
    let (first, call) = registry.add_gdb_cmd(Box::new(|text| text == "ping"));
    assert_eq!((first, call), (0, EngineCall::AddGdbCmd { handle: 0 }));
    let (second, call) = registry.add_gdb_cmd(Box::new(|text| text.starts_with("dump")));
    assert_eq!((second, call), (1, EngineCall::AddGdbCmd { handle: 1 }));
    assert_eq!(registry.len(), 2);

    let trampoline = |handle: usize, text: &str| gdb_cmd(registry.get(handle).map(|c| c(text)));
    assert_eq!(trampoline(first, "ping"), 1);
    assert_eq!(trampoline(first, "pong"), 0);
    assert_eq!(trampoline(second, "dump regs"), 1);
    assert_eq!(trampoline(second, "ping"), 0);
    assert_eq!(trampoline(2, "ping"), 0);
    assert_eq!(trampoline(usize::MAX, "ping"), 0);
}

#[test]
fn debugger_reply_sends_the_bytes_of_the_text() {
    let (bytes, call) = gdb_reply("OK");
    assert_eq!(bytes, b"OK");
    assert_eq!(call, EngineCall::GdbReply { count: 2 });
    let (bytes, call) = gdb_reply("");
    assert!(bytes.is_empty());
    assert_eq!(call, EngineCall::GdbReply { count: 0 });
    let (bytes, call) = gdb_reply("é");
    assert_eq!(bytes, [0xc3, 0xa9]);
    assert_eq!(call, EngineCall::GdbReply { count: 2 });
}
