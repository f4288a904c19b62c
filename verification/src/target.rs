//! What the library asks of the game's process.
//!
//! The library never touches the memory of the game. It says what is to be
//! read, called or written, and the host that runs inside the game does it
//! and hands back what came of it.

use crate::resolver::wrap_address;
use vstd::prelude::*;

verus! {

/// One access to the game's process.
#[derive(Debug, Clone, Copy, PartialEq, Eq)]
pub enum TargetRequest {
    /// Read the pointer at `address`; the reply is that pointer.
    ReadPointer { address: usize },
    /// Read the 32-bit value at `address`; the reply is that value.
    ReadU32 { address: usize },
    /// Call `function` without arguments; the reply is what it returns.
    CallNoArgs { function: usize },
    /// Call `function` with one argument; the reply is what it returns.
    CallOneArg { function: usize, argument: usize },
    /// Call `function` with three arguments; the reply is what it returns.
    CallThreeArgs { function: usize, first: usize, second: usize, third: usize },
    /// Copy the first `length` bytes of the payload, as they are, to
    /// `destination`. The reply carries nothing.
    CopyPayload { destination: usize, length: usize },
    /// Write the pointer `value` at `address`. The reply carries nothing.
    WritePointer { address: usize, value: usize },
}

impl TargetRequest {
    /// Whether the request leaves the game's memory as it is and runs none
    /// of its code.
    pub open spec fn is_read(self) -> bool {
        self is ReadPointer || self is ReadU32
    }

    /// Whether the request leaves the game's memory as it is and runs none
    /// of its code.
    pub fn reads_only(&self) -> (only: bool)
        ensures
            only == self.is_read(),
    {
        match self {
            TargetRequest::ReadPointer { .. } => true,
            TargetRequest::ReadU32 { .. } => true,
            _ => false,
        }
    }
}

/// The address of the field at `offset` of the structure at `base`.
pub open spec fn field_address(base: usize, offset: usize) -> usize {
    wrap_address(base + offset) as usize
}

/// The address of the field at `offset` of the structure at `base`.
pub fn field(base: usize, offset: usize) -> (address: usize)
    ensures
        address == field_address(base, offset),
{
    base.wrapping_add(offset)
}

/// The memory of the game as far as reading goes: the pointer and the
/// 32-bit value that a read at each address gives.
pub struct TargetImage {
    pub pointer_at: spec_fn(usize) -> usize,
    pub word_at: spec_fn(usize) -> u32,
}

impl TargetImage {
    /// The reply that the image gives to a request that reads.
    pub open spec fn reply(self, request: TargetRequest) -> usize {
        match request {
            TargetRequest::ReadPointer { address } => (self.pointer_at)(address),
            TargetRequest::ReadU32 { address } => (self.word_at)(address) as usize,
            _ => 0,
        }
    }
}

} // verus!
