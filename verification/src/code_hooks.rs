//! The table of address-keyed code hooks.
//!
//! A hook is installed at one guest address and found again by the handle
//! that its installation returned. Removal goes by address and takes every
//! hook at that address; the handles of the other hooks stay valid.

use vstd::prelude::*;
use crate::engine::{EngineCall, GuestAddr};

verus! {

/// The slots of a table after every hook at `addr` was removed from it.
pub open spec fn without_addr<C>(slots: Seq<Option<(GuestAddr, C)>>, addr: GuestAddr) -> Seq<
    Option<(GuestAddr, C)>,
> {
    Seq::new(
        slots.len(),
        |i: int|
            if is_at(slots[i], addr) {
                None
            } else {
                slots[i]
            },
    )
}

/// Whether `slot` holds a hook installed at `addr`.
pub open spec fn is_at<C>(slot: Option<(GuestAddr, C)>, addr: GuestAddr) -> bool {
    slot matches Some(entry) && entry.0 == addr
}

/// How many hooks of a table are installed at `addr`.
pub open spec fn count_at<C>(slots: Seq<Option<(GuestAddr, C)>>, addr: GuestAddr) -> nat
    decreases slots.len(),
{
    if slots.len() == 0 {
        0
    } else {
        count_at(slots.drop_last(), addr) + if is_at(slots.last(), addr) {
            1nat
        } else {
            0nat
        }
    }
}

/// Table of the installed code hooks, each with the callback `C` that the
/// embedding program runs on a hit.
pub struct CodeHooks<C> {
    slots: Vec<Option<(GuestAddr, C)>>,
}

impl<C> View for CodeHooks<C> {
    type V = Seq<Option<(GuestAddr, C)>>;

    closed spec fn view(&self) -> Seq<Option<(GuestAddr, C)>> {
        self.slots@
    }
}

impl<C> CodeHooks<C> {
    /// An empty table.
    pub fn new() -> (hooks: CodeHooks<C>)
        ensures
            hooks@.len() == 0,
    {
        CodeHooks { slots: Vec::new() }
    }

    /// How many handles the table has given out.
    pub fn len(&self) -> (n: usize)
        ensures
            n == self@.len(),
    {
        self.slots.len()
    }

    /// Installs `callback` at `addr` and returns its handle together with the
    /// native call that installs the hook; the handle is what the native
    /// engine passes back on every hit.
    pub fn install_hook(&mut self, addr: GuestAddr, callback: C, invalidate_block: bool) -> (r: (
        usize,
        EngineCall,
    ))
        ensures
            final(self)@ == old(self)@.push(Some((addr, callback))),
            r.0 == old(self)@.len(),
            r.1 == (EngineCall::SetHook {
                addr,
                data: r.0 as u64,
                invalidate_block: if invalidate_block {
                    1i32
                } else {
                    0i32
                },
            }),
    {
        let handle = self.slots.len();
        self.slots.push(Some((addr, callback)));
        let flag: i32 = if invalidate_block {
            1
        } else {
            0
        };
        (handle, EngineCall::SetHook { addr, data: handle as u64, invalidate_block: flag })
    }

    /// Removes every hook at `addr`. Returns how many there were, and the
    /// native call that removes them.
    pub fn remove_hook(&mut self, addr: GuestAddr, invalidate_block: bool) -> (r: (
        usize,
        EngineCall,
    ))
        ensures
            final(self)@ == without_addr(old(self)@, addr),
            r.0 == count_at(old(self)@, addr),
            r.1 == (EngineCall::RemoveHooksAt {
                addr,
                invalidate_block: if invalidate_block {
                    1i32
                } else {
                    0i32
                },
            }),
    {
        let mut removed: usize = 0;
        let mut i: usize = 0;
        let n = self.slots.len();
        while i < n
            invariant
                0 <= i <= n,
                n == old(self)@.len(),
                self.slots@.len() == n,
                removed == count_at(old(self)@.take(i as int), addr),
                removed <= i,
                forall|j: int| 0 <= j < i ==> #[trigger] self.slots@[j] == without_addr(
                    old(self)@,
                    addr,
                )[j],
                forall|j: int| i <= j < n ==> #[trigger] self.slots@[j] == old(self)@[j],
            decreases n - i,
        {
            let hit = match &self.slots[i] {
                Some(entry) => entry.0 == addr,
                None => false,
            };
            proof {
                assert(old(self)@.take(i as int + 1).drop_last() =~= old(self)@.take(i as int));
            }
            if hit {
                self.slots.set(i, None);
                removed += 1;
            }
            i += 1;
        }
        proof {
            assert(old(self)@.take(n as int) =~= old(self)@);
        }
        let flag: i32 = if invalidate_block {
            1
        } else {
            0
        };
        (removed, EngineCall::RemoveHooksAt { addr, invalidate_block: flag })
    }

    /// The address and callback of the hook with the handle `handle`: none
    /// for a handle that was never given out or whose hook was removed.
    pub fn get(&self, handle: usize) -> (r: Option<&(GuestAddr, C)>)
        ensures
            r is Some <==> handle < self@.len() && self@[handle as int] is Some,
            r is Some ==> *r->0 == self@[handle as int]->0,
    {
        if handle < self.slots.len() {
            self.slots[handle].as_ref()
        } else {
            None
        }
    }
}

/// Removing the hooks at an address leaves none there, so a second removal
/// at that address finds nothing and changes nothing. Hooks at other
/// addresses keep their handles through a removal.
pub proof fn lemma_remove_is_idempotent<C>(
    slots: Seq<Option<(GuestAddr, C)>>,
    addr: GuestAddr,
    handle: int,
)
    ensures
        count_at(without_addr(slots, addr), addr) == 0,
        without_addr(without_addr(slots, addr), addr) == without_addr(slots, addr),
        0 <= handle < slots.len() && !is_at(slots[handle], addr) ==> without_addr(
            slots,
            addr,
        )[handle] == slots[handle],
{
    lemma_count_zero(without_addr(slots, addr), addr);
}

/// A table in which no slot holds a hook at `addr` counts no hook there.
proof fn lemma_count_zero<C>(slots: Seq<Option<(GuestAddr, C)>>, addr: GuestAddr)
    requires
        forall|i: int| 0 <= i < slots.len() ==> !is_at(#[trigger] slots[i], addr),
    ensures
        count_at(slots, addr) == 0,
    decreases slots.len(),
{
    if slots.len() > 0 {
        lemma_count_zero(slots.drop_last(), addr);
    }
}

} // verus!
