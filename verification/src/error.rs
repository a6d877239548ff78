//! Failures that the native engine reports through a return value.

use vstd::prelude::*;
use vstd::string::StringExecFns;
use crate::text::{decimal, push_decimal, push_signed_decimal, signed_decimal};

verus! {

/// A native failure, with the operand of the call that failed.
#[derive(Debug, Clone, Copy, PartialEq, Eq, Structural)]
pub enum EmuError {
    /// Writing the register with this index failed.
    WriteReg(i32),
    /// Reading the register with this index failed.
    ReadReg(i32),
    /// Mapping memory at this requested guest address failed.
    Mmap(u64),
    /// Changing the protection of the mapping at this guest address failed.
    Mprotect(u64),
    /// Unmapping the memory at this guest address failed.
    Munmap(u64),
}

impl EmuError {
    /// The text of this failure: what failed, then the operand in decimal.
    pub open spec fn text(self) -> Seq<char> {
        match self {
            EmuError::WriteReg(reg) => "Failed to write to register "@ + signed_decimal(
                reg as int,
            ),
            EmuError::ReadReg(reg) => "Failed to read register "@ + signed_decimal(reg as int),
            EmuError::Mmap(addr) => "Failed to map "@ + decimal(addr as nat),
            EmuError::Mprotect(addr) => "Failed to mprotect "@ + decimal(addr as nat),
            EmuError::Munmap(addr) => "Failed to unmap "@ + decimal(addr as nat),
        }
    }

    /// Renders this failure for a human reader.
    pub fn message(&self) -> (s: String)
        ensures
            s@ == self.text(),
    {
        match *self {
            EmuError::WriteReg(reg) => {
                let mut s = String::from_str("Failed to write to register ");
                push_signed_decimal(&mut s, reg);
                s
            },
            EmuError::ReadReg(reg) => {
                let mut s = String::from_str("Failed to read register ");
                push_signed_decimal(&mut s, reg);
                s
            },
            EmuError::Mmap(addr) => {
                let mut s = String::from_str("Failed to map ");
                push_decimal(&mut s, addr);
                s
            },
            EmuError::Mprotect(addr) => {
                let mut s = String::from_str("Failed to mprotect ");
                push_decimal(&mut s, addr);
                s
            },
            EmuError::Munmap(addr) => {
                let mut s = String::from_str("Failed to unmap ");
                push_decimal(&mut s, addr);
                s
            },
        }
    }
}

} // verus!
