//! Guest memory protection flags.

use vstd::prelude::*;

verus! {

/// Bit that grants read access.
pub const PROT_READ: i32 = 1;

/// Bit that grants write access.
pub const PROT_WRITE: i32 = 2;

/// Bit that grants execute access.
pub const PROT_EXEC: i32 = 4;

/// The eight combinations of read, write and execute access to a guest mapping.
#[derive(Debug, Clone, Copy, PartialEq, Eq, Structural)]
pub enum MmapPerms {
    NoAccess,
    Read,
    Write,
    Execute,
    ReadWrite,
    ReadExecute,
    WriteExecute,
    ReadWriteExecute,
}

impl MmapPerms {
    /// The native protection word of this value: the union of its access bits.
    pub open spec fn bits(self) -> int {
        match self {
            MmapPerms::NoAccess => 0,
            MmapPerms::Read => 1,
            MmapPerms::Write => 2,
            MmapPerms::Execute => 4,
            MmapPerms::ReadWrite => 3,
            MmapPerms::ReadExecute => 5,
            MmapPerms::WriteExecute => 6,
            MmapPerms::ReadWriteExecute => 7,
        }
    }

    /// Whether read access is part of this value.
    pub open spec fn readable(self) -> bool {
        self.bits() % 2 == 1
    }

    /// Whether write access is part of this value.
    pub open spec fn writable(self) -> bool {
        (self.bits() / 2) % 2 == 1
    }

    /// Whether execute access is part of this value.
    pub open spec fn executable(self) -> bool {
        (self.bits() / 4) % 2 == 1
    }

    /// The value whose protection word is `flags`, if there is one.
    pub open spec fn of_bits(flags: int) -> Option<MmapPerms> {
        if flags == 0 {
            Some(MmapPerms::NoAccess)
        } else if flags == 1 {
            Some(MmapPerms::Read)
        } else if flags == 2 {
            Some(MmapPerms::Write)
        } else if flags == 3 {
            Some(MmapPerms::ReadWrite)
        } else if flags == 4 {
            Some(MmapPerms::Execute)
        } else if flags == 5 {
            Some(MmapPerms::ReadExecute)
        } else if flags == 6 {
            Some(MmapPerms::WriteExecute)
        } else if flags == 7 {
            Some(MmapPerms::ReadWriteExecute)
        } else {
            None
        }
    }

    /// The protection word handed to the native engine for this value.
    #[must_use]
    pub fn to_bits(self) -> (flags: i32)
        ensures
            flags == self.bits(),
            flags == (if self.readable() { PROT_READ } else { 0i32 })
                + (if self.writable() { PROT_WRITE } else { 0i32 })
                + (if self.executable() { PROT_EXEC } else { 0i32 }),
    {
        proof {
            assert(1i32 | 2i32 == 3i32) by (bit_vector);
            assert(1i32 | 4i32 == 5i32) by (bit_vector);
            assert(2i32 | 4i32 == 6i32) by (bit_vector);
            assert(1i32 | 2i32 | 4i32 == 7i32) by (bit_vector);
        }
        match self {
            MmapPerms::NoAccess => 0,
            MmapPerms::Read => PROT_READ,
            MmapPerms::Write => PROT_WRITE,
            MmapPerms::Execute => PROT_EXEC,
            MmapPerms::ReadWrite => PROT_READ | PROT_WRITE,
            MmapPerms::ReadExecute => PROT_READ | PROT_EXEC,
            MmapPerms::WriteExecute => PROT_WRITE | PROT_EXEC,
            MmapPerms::ReadWriteExecute => PROT_READ | PROT_WRITE | PROT_EXEC,
        }
    }

    /// Reads a native protection word. Words with bits other than the three
    /// access bits name no value.
    #[must_use]
    pub fn try_from_bits(flags: i32) -> (r: Option<MmapPerms>)
        ensures
            r == Self::of_bits(flags as int),
            r is Some <==> 0 <= flags <= 7,
            r is Some ==> r->0.bits() == flags,
    {
        if flags == 0 {
            Some(MmapPerms::NoAccess)
        } else if flags == 1 {
            Some(MmapPerms::Read)
        } else if flags == 2 {
            Some(MmapPerms::Write)
        } else if flags == 3 {
            Some(MmapPerms::ReadWrite)
        } else if flags == 4 {
            Some(MmapPerms::Execute)
        } else if flags == 5 {
            Some(MmapPerms::ReadExecute)
        } else if flags == 6 {
            Some(MmapPerms::WriteExecute)
        } else if flags == 7 {
            Some(MmapPerms::ReadWriteExecute)
        } else {
            None
        }
    }

    #[must_use]
    pub fn is_r(&self) -> (r: bool)
        ensures
            r == self.readable(),
    {
        matches!(
            self,
            MmapPerms::Read | MmapPerms::ReadWrite | MmapPerms::ReadExecute
                | MmapPerms::ReadWriteExecute
        )
    }

    #[must_use]
    pub fn is_w(&self) -> (r: bool)
        ensures
            r == self.writable(),
    {
        matches!(
            self,
            MmapPerms::Write | MmapPerms::ReadWrite | MmapPerms::WriteExecute
                | MmapPerms::ReadWriteExecute
        )
    }

    #[must_use]
    pub fn is_x(&self) -> (r: bool)
        ensures
            r == self.executable(),
    {
        matches!(
            self,
            MmapPerms::Execute | MmapPerms::ReadExecute | MmapPerms::WriteExecute
                | MmapPerms::ReadWriteExecute
        )
    }
}

/// Reading back the protection word of a value gives that value, and a
/// value is readable, writable or executable exactly when its name says so.
pub proof fn lemma_perms_round_trip(p: MmapPerms)
    ensures
        MmapPerms::of_bits(p.bits()) == Some(p),
        0 <= p.bits() <= 7,
        p.readable() <==> (p == MmapPerms::Read || p == MmapPerms::ReadWrite || p
            == MmapPerms::ReadExecute || p == MmapPerms::ReadWriteExecute),
        p.writable() <==> (p == MmapPerms::Write || p == MmapPerms::ReadWrite || p
            == MmapPerms::WriteExecute || p == MmapPerms::ReadWriteExecute),
        p.executable() <==> (p == MmapPerms::Execute || p == MmapPerms::ReadExecute || p
            == MmapPerms::WriteExecute || p == MmapPerms::ReadWriteExecute),
{
}

} // verus!
