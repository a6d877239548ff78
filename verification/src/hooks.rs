//! The two-phase protocol of instrumentation hooks.
//!
//! While the engine prepares guest code, it asks a hook's generation callback
//! once for each candidate site. The answer is either the skip value or a
//! correlation id; with an id, every later hit of the site calls one of the
//! hook's execution callbacks with that id.

use vstd::prelude::*;

verus! {

/// Answer of a generation callback that asks for no instrumentation of a site.
pub const SKIP_EXEC_HOOK: u64 = 0xffff_ffff_ffff_ffff;

/// The execution callbacks of one hook: one for each fixed access width, and
/// one that takes the width as an argument.
#[derive(Debug, Clone, Copy, PartialEq, Eq, Structural)]
pub enum ExecSlot {
    Exec1,
    Exec2,
    Exec4,
    Exec8,
    ExecN,
}

/// What the generation phase decided for one candidate site.
#[derive(Debug, Clone, Copy, PartialEq, Eq, Structural)]
pub enum Site {
    /// The generation callback asked to skip the site.
    Skipped,
    /// The site is instrumented; every hit reports this correlation id.
    Instrumented { id: u64 },
}

/// One call of an execution callback: which one, and the correlation id that
/// it receives.
#[derive(Debug, Clone, Copy, PartialEq, Eq, Structural)]
pub struct ExecCall {
    pub slot: ExecSlot,
    pub id: u64,
}

/// The execution callback for a memory access of `size` bytes.
pub open spec fn spec_mem_slot(size: usize) -> ExecSlot {
    if size == 1 {
        ExecSlot::Exec1
    } else if size == 2 {
        ExecSlot::Exec2
    } else if size == 4 {
        ExecSlot::Exec4
    } else if size == 8 {
        ExecSlot::Exec8
    } else {
        ExecSlot::ExecN
    }
}

/// The execution callback for a comparison of operands of `size` bytes; other
/// widths than 1, 2, 4 and 8 have none.
pub open spec fn spec_cmp_slot(size: usize) -> Option<ExecSlot> {
    if size == 1 || size == 2 || size == 4 || size == 8 {
        Some(spec_mem_slot(size))
    } else {
        None
    }
}

/// The execution callback for a memory access of `size` bytes: the one for
/// that width where there is one, else the one that takes the width.
pub fn mem_slot(size: usize) -> (slot: ExecSlot)
    ensures
        slot == spec_mem_slot(size),
{
    if size == 1 {
        ExecSlot::Exec1
    } else if size == 2 {
        ExecSlot::Exec2
    } else if size == 4 {
        ExecSlot::Exec4
    } else if size == 8 {
        ExecSlot::Exec8
    } else {
        ExecSlot::ExecN
    }
}

/// The execution callback for a comparison of operands of `size` bytes.
pub fn cmp_slot(size: usize) -> (slot: Option<ExecSlot>)
    ensures
        slot == spec_cmp_slot(size),
{
    if size == 1 || size == 2 || size == 4 || size == 8 {
        Some(mem_slot(size))
    } else {
        None
    }
}

impl Site {
    /// The site that a generation callback's answer `answer` stands for.
    pub open spec fn spec_generated(answer: u64) -> Site {
        if answer == SKIP_EXEC_HOOK {
            Site::Skipped
        } else {
            Site::Instrumented { id: answer }
        }
    }

    /// The call that a memory access of `size` bytes at this site makes.
    pub open spec fn spec_on_access(self, size: usize) -> Option<ExecCall> {
        match self {
            Site::Skipped => None,
            Site::Instrumented { id } => Some(ExecCall { slot: spec_mem_slot(size), id }),
        }
    }

    /// The call that a comparison of operands of `size` bytes at this site
    /// makes.
    pub open spec fn spec_on_cmp(self, size: usize) -> Option<ExecCall> {
        match (self, spec_cmp_slot(size)) {
            (Site::Instrumented { id }, Some(slot)) => Some(ExecCall { slot, id }),
            _ => None,
        }
    }

    /// The correlation id that a hit of this edge or block reports.
    pub open spec fn spec_on_hit(self) -> Option<u64> {
        match self {
            Site::Skipped => None,
            Site::Instrumented { id } => Some(id),
        }
    }

    /// Records the answer of a generation callback for a site.
    pub fn generated(answer: u64) -> (site: Site)
        ensures
            site == Self::spec_generated(answer),
    {
        if answer == SKIP_EXEC_HOOK {
            Site::Skipped
        } else {
            Site::Instrumented { id: answer }
        }
    }

    /// The execution call for a memory access of `size` bytes at this site:
    /// none at a skipped site.
    pub fn on_access(&self, size: usize) -> (call: Option<ExecCall>)
        ensures
            call == self.spec_on_access(size),
    {
        match *self {
            Site::Skipped => None,
            Site::Instrumented { id } => Some(ExecCall { slot: mem_slot(size), id }),
        }
    }

    /// The execution call for a comparison of operands of `size` bytes at
    /// this site: none at a skipped site or for a width that has no callback.
    pub fn on_cmp(&self, size: usize) -> (call: Option<ExecCall>)
        ensures
            call == self.spec_on_cmp(size),
    {
        match *self {
            Site::Skipped => None,
            Site::Instrumented { id } => match cmp_slot(size) {
                Some(slot) => Some(ExecCall { slot, id }),
                None => None,
            },
        }
    }

    /// The correlation id that the execution callback of an edge or block
    /// hook receives on a hit of this site: none at a skipped site.
    pub fn on_hit(&self) -> (id: Option<u64>)
        ensures
            id == self.spec_on_hit(),
    {
        match *self {
            Site::Skipped => None,
            Site::Instrumented { id } => Some(id),
        }
    }
}

/// A site whose generation callback answered with a correlation id reports
/// that id on every access, through the callback of the access width; a site
/// whose generation callback answered with the skip value never makes an
/// execution call.
pub proof fn lemma_generation_decides_execution(answer: u64, size: usize)
    ensures
        answer != SKIP_EXEC_HOOK ==> Site::spec_generated(answer).spec_on_access(size) == Some(
            ExecCall { slot: spec_mem_slot(size), id: answer },
        ),
        answer != SKIP_EXEC_HOOK ==> Site::spec_generated(answer).spec_on_access(4) == Some(
            ExecCall { slot: ExecSlot::Exec4, id: answer },
        ),
        answer != SKIP_EXEC_HOOK ==> Site::spec_generated(answer).spec_on_hit() == Some(answer),
        Site::spec_generated(SKIP_EXEC_HOOK).spec_on_access(size) is None,
        Site::spec_generated(SKIP_EXEC_HOOK).spec_on_cmp(size) is None,
        Site::spec_generated(SKIP_EXEC_HOOK).spec_on_hit() is None,
{
}

} // verus!
