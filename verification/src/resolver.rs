//! Decoding of position-relative operands into absolute addresses.
//!
//! An instruction that addresses memory relative to the instruction pointer
//! stores a signed 32-bit offset in its last four bytes. The address it names
//! is the address just past the instruction plus that offset. The length of
//! the instruction is never inferred: every caller states it.

use crate::bytes::{lemma_le_value_bound, lemma_pow256_values, signed32};
use crate::memory::{ImageView, MemoryImage};
use vstd::prelude::*;

verus! {

/// Why a relative operand gave no address.
#[derive(Clone, Copy, Debug, PartialEq, Eq, Structural)]
pub enum ResolveError {
    /// The signature that locates the instruction matches nowhere.
    NotFound,
    /// The four bytes of the offset are not all in the image, or the
    /// instruction is too short to hold them.
    Unreadable,
    /// The address that the operand names lies outside the address space.
    OutOfRange,
}

/// The address named by an operand: the instruction's address, plus its
/// length, plus the stored offset.
pub open spec fn relative_target(
    instruction_address: int,
    instruction_length: int,
    offset: int,
) -> int {
    instruction_address + instruction_length + offset
}

/// The signed offset stored in the last four bytes of the instruction at
/// `instruction_address`, where `view` holds them.
pub open spec fn stored_offset(
    view: ImageView,
    instruction_address: int,
    instruction_length: int,
) -> Option<int> {
    if instruction_length < 4 {
        None
    } else {
        match view.uint(instruction_address + instruction_length - 4, 4) {
            Some(pattern) => Some(signed32(pattern)),
            None => None,
        }
    }
}

/// What decoding the instruction at `instruction_address` returns.
pub open spec fn resolved_address(
    view: ImageView,
    instruction_address: int,
    instruction_length: int,
) -> Result<usize, ResolveError> {
    match stored_offset(view, instruction_address, instruction_length) {
        None => Err(ResolveError::Unreadable),
        Some(offset) => {
            let target = relative_target(instruction_address, instruction_length, offset);
            if 0 <= target <= usize::MAX {
                Ok(target as usize)
            } else {
                Err(ResolveError::OutOfRange)
            }
        },
    }
}

/// Adds a signed offset to the address just past an instruction; `None`
/// where the sum is no address.
pub fn resolve_relative(
    instruction_address: usize,
    instruction_length: usize,
    offset: i32,
) -> (target: Option<usize>)
    ensures
        target == if 0 <= relative_target(
            instruction_address as int,
            instruction_length as int,
            offset as int,
        ) <= usize::MAX {
            Some(
                relative_target(
                    instruction_address as int,
                    instruction_length as int,
                    offset as int,
                ) as usize,
            )
        } else {
            None::<usize>
        },
{
    let sum: i128 = instruction_address as i128 + instruction_length as i128 + offset as i128;
    if 0 <= sum && sum <= usize::MAX as i128 {
        Some(sum as usize)
    } else {
        None
    }
}

/// Reads the four bytes at `addr` as a signed little-endian integer.
pub fn read_offset32(image: &MemoryImage, addr: usize) -> (offset: Option<i32>)
    ensures
        offset.is_some() == image@.covers(addr as int, 4),
        offset.is_some() ==> offset.unwrap() == signed32(image@.uint(addr as int, 4).unwrap()),
{
    match image.read_uint(addr, 4) {
        None => None,
        Some(pattern) => {
            proof {
                lemma_le_value_bound(image@.slice(addr as int, 4));
                lemma_pow256_values();
            }
            if pattern < 0x8000_0000 {
                Some(pattern as i32)
            } else {
                Some((pattern as i64 - 0x1_0000_0000) as i32)
            }
        },
    }
}

/// Decodes the operand of the instruction at `instruction_address`, whose
/// encoding is `instruction_length` bytes long and ends with the offset.
pub fn read_relative(
    image: &MemoryImage,
    instruction_address: usize,
    instruction_length: usize,
) -> (target: Result<usize, ResolveError>)
    ensures
        target == resolved_address(image@, instruction_address as int, instruction_length as int),
{
    if instruction_length < 4 {
        return Err(ResolveError::Unreadable);
    }
    let field: usize = match instruction_address.checked_add(instruction_length - 4) {
        Some(field) => field,
        None => {
            return Err(ResolveError::Unreadable);
        },
    };
    match read_offset32(image, field) {
        None => Err(ResolveError::Unreadable),
        Some(offset) => match resolve_relative(instruction_address, instruction_length, offset) {
            Some(target) => Ok(target),
            None => Err(ResolveError::OutOfRange),
        },
    }
}

} // verus!
