//! Storage for the values of the uniforms of a pass: one arena shaped like
//! the uniform buffer and one shaped like the push constant range.

use crate::semantics::{MemberOffset, UniformMemberBlock};
use vstd::prelude::*;

verus! {

/// The two byte arenas of a pass.
#[derive(Debug)]
pub struct UniformStorage {
    /// The bytes of the uniform buffer.
    pub ubo: Vec<u8>,
    /// The bytes of the push constant range.
    pub push: Vec<u8>,
}

/// The arena with the bytes from position `at` on replaced by `value`.
pub open spec fn overwritten(arena: Seq<u8>, at: int, value: Seq<u8>) -> Seq<u8> {
    Seq::new(
        arena.len(),
        |i: int|
            if at <= i < at + value.len() {
                value[i - at]
            } else {
                arena[i]
            },
    )
}

/// Whether `len` bytes at `at` lie within an arena of `size` bytes, for a
/// side that is populated; a side that is not asks for nothing.
pub open spec fn side_fits(at: Option<usize>, len: nat, size: nat) -> bool {
    at is Some ==> at->0 + len <= size
}

/// The arena of one side after a write: overwritten where the side is
/// populated, and as it was where it is not.
pub open spec fn side_written(arena: Seq<u8>, at: Option<usize>, value: Seq<u8>) -> Seq<u8> {
    match at {
        Some(at) => overwritten(arena, at as int, value),
        None => arena,
    }
}

/// A vector of `size` zero bytes.
fn zeroed(size: usize) -> (arena: Vec<u8>)
    ensures
        arena@ == Seq::new(size as nat, |i: int| 0u8),
{
    let mut arena: Vec<u8> = Vec::new();
    let mut i: usize = 0;
    while i < size
        invariant
            i <= size,
            arena@ == Seq::new(i as nat, |j: int| 0u8),
        decreases size - i,
    {
        arena.push(0);
        i += 1;
    }
    arena
}

/// Copies `value` into `arena` from position `at` on.
fn overwrite(arena: &mut Vec<u8>, at: usize, value: &[u8])
    requires
        at + value@.len() <= old(arena)@.len(),
    ensures
        final(arena)@ == overwritten(old(arena)@, at as int, value@),
{
    let size = arena.len();
    let mut i: usize = 0;
    while i < value.len()
        invariant
            i <= value@.len(),
            at + value@.len() <= arena@.len(),
            arena@.len() == old(arena)@.len(),
            arena@.len() == size,
            arena@ == overwritten(old(arena)@, at as int, value@.take(i as int)),
        decreases value@.len() - i,
    {
        arena.set(at + i, value[i]);
        i += 1;
    }
}

impl UniformStorage {
    /// Storage for a uniform buffer of `ubo_size` bytes and a push constant
    /// range of `push_size` bytes, every byte zero.
    pub fn new(ubo_size: usize, push_size: usize) -> (storage: UniformStorage)
        ensures
            storage.ubo@ == Seq::new(ubo_size as nat, |i: int| 0u8),
            storage.push@ == Seq::new(push_size as nat, |i: int| 0u8),
    {
        UniformStorage { ubo: zeroed(ubo_size), push: zeroed(push_size) }
    }

    /// Writes the bytes of a value to each side on which `offset` places it,
    /// at the offset it has there, and tells whether it did.
    ///
    /// Nothing is written, on either side, where the value does not lie
    /// within the arena of a side on which it is placed. Offsets are taken
    /// as they are: no alignment is applied.
    pub fn write(&mut self, offset: MemberOffset, value: &[u8]) -> (written: bool)
        ensures
            written == (side_fits(offset.ubo, value@.len(), old(self).ubo@.len()) && side_fits(
                offset.push,
                value@.len(),
                old(self).push@.len(),
            )),
            written ==> final(self).ubo@ == side_written(old(self).ubo@, offset.ubo, value@)
                && final(self).push@ == side_written(old(self).push@, offset.push, value@),
            !written ==> final(self).ubo@ == old(self).ubo@ && final(self).push@ == old(
                self,
            ).push@,
    {
        if let Some(at) = offset.ubo {
            if at > self.ubo.len() || value.len() > self.ubo.len() - at {
                return false;
            }
        }
        if let Some(at) = offset.push {
            if at > self.push.len() || value.len() > self.push.len() - at {
                return false;
            }
        }
        if let Some(at) = offset.ubo {
            overwrite(&mut self.ubo, at, value);
        }
        if let Some(at) = offset.push {
            overwrite(&mut self.push, at, value);
        }
        true
    }

    /// The bytes of one of the arenas.
    pub fn block(&self, ty: UniformMemberBlock) -> (bytes: &[u8])
        ensures
            bytes@ == (match ty {
                UniformMemberBlock::Ubo => self.ubo@,
                UniformMemberBlock::PushConstant => self.push@,
            }),
    {
        match ty {
            UniformMemberBlock::Ubo => self.ubo.as_slice(),
            UniformMemberBlock::PushConstant => self.push.as_slice(),
        }
    }
}

} // verus!
