//! Address arithmetic and the pointer path: the dereferences and additions
//! that lead from a location in code to the address of a game value.

use crate::layout::{Locator, OperandRule, PathOffsets};
use crate::tier::BitWidth;
use vstd::prelude::*;

verus! {

/// The address that a sum of an address and offsets denotes: addresses are
/// 64 bits wide, and a sum that leaves that range wraps around.
pub open spec fn wrap(sum: int) -> u64 {
    (sum % 0x1_0000_0000_0000_0000) as u64
}

/// Adding in two steps wraps to the same address as adding at once.
pub proof fn lemma_wrap_twice(sum: int, more: int)
    requires
        0 <= sum,
        0 <= more,
    ensures
        wrap(wrap(sum) + more) == wrap(sum + more),
{
}

/// The address `by` bytes after `address`.
pub fn offset(address: u64, by: u64) -> (r: u64)
    ensures
        r == wrap(address + by),
{
    address.wrapping_add(by)
}

/// A four-byte value as an address or an offset.
pub fn widen(word: u32) -> (r: u64)
    ensures
        r == word,
{
    word as u64
}

impl Locator {
    /// The address of the operand, given the address of the match.
    pub open spec fn operand_at(self, found: u64) -> u64 {
        wrap(found + self.operand_offset)
    }

    /// The address that the operand stands for, given the module's base,
    /// the operand's own address and its value.
    pub open spec fn target_of(self, module_base: u64, operand_address: u64, operand: u32) -> u64 {
        match self.rule {
            OperandRule::FromModule => wrap(module_base + operand),
            OperandRule::FromCode { skip } => wrap(operand_address + skip + operand),
            OperandRule::Pointer => operand as u64,
        }
    }

    /// Computes the address of the operand from the address of the match.
    pub fn operand_address(&self, found: u64) -> (r: u64)
        ensures
            r == self.operand_at(found),
    {
        offset(found, self.operand_offset)
    }

    /// Computes the address that the operand stands for.
    pub fn target(&self, module_base: u64, operand_address: u64, operand: u32) -> (r: u64)
        ensures
            r == self.target_of(module_base, operand_address, operand),
    {
        match self.rule {
            OperandRule::FromModule => offset(module_base, widen(operand)),
            OperandRule::FromCode { skip } => {
                proof {
                    lemma_wrap_twice(operand_address + skip, operand as int);
                }
                offset(offset(operand_address, skip), widen(operand))
            },
            OperandRule::Pointer => widen(operand),
        }
    }
}

/// One pointer path to follow: the build's pointer width, the module's
/// base address, the pointer and the thunk that the path may start from,
/// and its offsets.
#[derive(Clone, Copy, Debug, PartialEq, Eq, Structural)]
pub struct PathQuery {
    pub width: BitWidth,
    pub module_base: u64,
    pub base_pointer: u64,
    pub thunk: u64,
    pub offsets: PathOffsets,
}

impl PathQuery {
    /// Whether the path needs no read: a 64-bit path whose first offset is
    /// zero.
    pub open spec fn is_direct(self) -> bool {
        self.width == BitWidth::Bits64 && self.offsets.first == 0
    }

    /// The target of a path that needs no read.
    pub open spec fn direct_target(self) -> u64 {
        wrap(self.thunk + self.offsets.last)
    }

    /// The address of the first value to read.
    pub open spec fn first_address(self) -> u64 {
        wrap(self.base_pointer + self.offsets.first)
    }

    /// The address of the second value to read, given the first value: in
    /// a 64-bit build the first value is a displacement from the module's
    /// base, in a 32-bit build it is a pointer.
    pub open spec fn second_address(self, first: u32) -> u64 {
        match self.width {
            BitWidth::Bits64 => wrap(self.module_base + first + self.offsets.second),
            BitWidth::Bits32 => wrap(first + self.offsets.second),
        }
    }

    /// The target, given both values read. In a 64-bit build the second
    /// value is a displacement: from the module's base on an absolute path,
    /// else from the four bytes' end. In a 32-bit build it is a pointer.
    pub open spec fn target_after(self, first: u32, second: u32) -> u64 {
        match self.width {
            BitWidth::Bits64 => if self.offsets.absolute {
                wrap(self.module_base + second + self.offsets.last)
            } else {
                wrap(self.second_address(first) + 4 + second + self.offsets.last)
            },
            BitWidth::Bits32 => wrap(second + self.offsets.last),
        }
    }

    /// The target of the path in a memory that holds `words(a)` at each
    /// address `a`.
    pub open spec fn target_in(self, words: spec_fn(u64) -> u32) -> u64 {
        if self.is_direct() {
            self.direct_target()
        } else {
            let first = words(self.first_address());
            self.target_after(first, words(self.second_address(first)))
        }
    }

    /// The address of the first value to read, or `None` for a path that
    /// needs no read.
    pub fn first_read(&self) -> (address: Option<u64>)
        ensures
            address == if self.is_direct() {
                None
            } else {
                Some(self.first_address())
            },
    {
        match self.width {
            BitWidth::Bits64 => {
                if self.offsets.first == 0 {
                    return None;
                }
            },
            BitWidth::Bits32 => {},
        }
        Some(offset(self.base_pointer, widen(self.offsets.first)))
    }

    /// The target of a path that needs no read.
    pub fn direct(&self) -> (target: u64)
        ensures
            target == self.direct_target(),
    {
        offset(self.thunk, widen(self.offsets.last))
    }

    /// The address of the second value to read, given the first value.
    pub fn second_read(&self, first: u32) -> (address: u64)
        ensures
            address == self.second_address(first),
    {
        match self.width {
            BitWidth::Bits64 => {
                proof {
                    lemma_wrap_twice(self.module_base + first, self.offsets.second as int);
                }
                offset(offset(self.module_base, widen(first)), widen(self.offsets.second))
            },
            BitWidth::Bits32 => offset(widen(first), widen(self.offsets.second)),
        }
    }

    /// The target of the path, given both values read.
    pub fn finish(&self, first: u32, second: u32) -> (target: u64)
        ensures
            target == self.target_after(first, second),
    {
        match self.width {
            BitWidth::Bits64 => {
                if self.offsets.absolute {
                    proof {
                        lemma_wrap_twice(self.module_base + second, self.offsets.last as int);
                    }
                    offset(offset(self.module_base, widen(second)), widen(self.offsets.last))
                } else {
                    let intermediate = self.second_read(first);
                    proof {
                        lemma_wrap_twice(intermediate + 4, second as int);
                        lemma_wrap_twice(intermediate + 4 + second, self.offsets.last as int);
                    }
                    offset(
                        offset(offset(intermediate, 4), widen(second)),
                        widen(self.offsets.last),
                    )
                }
            },
            BitWidth::Bits32 => offset(widen(second), widen(self.offsets.last)),
        }
    }
}

} // verus!
