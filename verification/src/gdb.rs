//! The table of debugger commands.
//!
//! The native debugger-protocol layer knows a command by its index in this
//! table and passes the index back when the command is used. The table only
//! grows, so an index that was given out stays good for the life of the
//! process.

use vstd::prelude::*;
use vstd::string::StringSliceAdditionalSpecFns;
use crate::engine::EngineCall;

verus! {

/// Append-only table of debugger-command callbacks `C`.
pub struct CommandRegistry<C> {
    commands: Vec<C>,
}

impl<C> View for CommandRegistry<C> {
    type V = Seq<C>;

    closed spec fn view(&self) -> Seq<C> {
        self.commands@
    }
}

/// What the native layer is told about a command that was used: one where
/// the callback of a known command accepted it, zero where it declined or
/// where the index names no command.
pub open spec fn spec_gdb_cmd_code(accepted: Option<bool>) -> i32 {
    if accepted == Some(true) {
        1
    } else {
        0
    }
}

impl<C> CommandRegistry<C> {
    /// An empty table.
    pub fn new() -> (registry: CommandRegistry<C>)
        ensures
            registry@.len() == 0,
    {
        CommandRegistry { commands: Vec::new() }
    }

    /// How many commands the table holds.
    pub fn len(&self) -> (n: usize)
        ensures
            n == self@.len(),
    {
        self.commands.len()
    }

    /// Appends `callback` and returns its index together with the native call
    /// that registers the command under that index.
    pub fn add_gdb_cmd(&mut self, callback: C) -> (r: (usize, EngineCall))
        ensures
            final(self)@ == old(self)@.push(callback),
            r.0 == old(self)@.len(),
            r.1 == (EngineCall::AddGdbCmd { handle: r.0 }),
    {
        let handle = self.commands.len();
        self.commands.push(callback);
        (handle, EngineCall::AddGdbCmd { handle })
    }

    /// The callback of the command with the index `handle`: none for an index
    /// that was never given out.
    pub fn get(&self, handle: usize) -> (r: Option<&C>)
        ensures
            r is Some <==> handle < self@.len(),
            r is Some ==> *r->0 == self@[handle as int],
    {
        if handle < self.commands.len() {
            Some(&self.commands[handle])
        } else {
            None
        }
    }
}

/// Reports the use of a command to the native layer; `accepted` is what the
/// command's callback returned, and absent where the index named no command.
pub fn gdb_cmd(accepted: Option<bool>) -> (code: i32)
    ensures
        code == spec_gdb_cmd_code(accepted),
{
    match accepted {
        Some(true) => 1,
        _ => 0,
    }
}

/// The bytes of `output` as they go through the native debugger channel, and
/// the native call that sends them.
pub fn gdb_reply(output: &str) -> (r: (&[u8], EngineCall))
    ensures
        r.0@ == output.spec_bytes(),
        r.1 == (EngineCall::GdbReply { count: r.0@.len() as usize }),
{
    let bytes = output.as_bytes();
    (bytes, EngineCall::GdbReply { count: bytes.len() })
}

} // verus!
