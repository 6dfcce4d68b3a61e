//! Detours: a jump patched over foreign code, with the bytes it replaced kept
//! for restoration.
//!
//! The patch is an absolute indirect jump through the eight bytes that follow
//! it, padded with no-ops up to the end of the last instruction it cuts into.
//! Where instructions end cannot be told from here: the caller states the
//! length of the patch. Nothing suspends the threads that may be running the
//! patched bytes.

use crate::bytes::{encode_le, le_bytes, lemma_le_bytes_len};
use crate::memory::{ImageView, MemoryImage, POINTER_WIDTH};
use vstd::prelude::*;

verus! {

/// The length of the jump itself: six bytes of instruction, eight of address.
pub const JUMP_LENGTH: usize = 14;

/// The byte of the no-op instruction.
pub const NOP: u8 = 0x90;

/// The bytes of a patch of `len` bytes that jumps to `trampoline`.
pub open spec fn jump_patch(trampoline: usize, len: nat) -> Seq<u8>
    recommends
        len >= JUMP_LENGTH,
{
    seq![0xFFu8, 0x25u8, 0u8, 0u8, 0u8, 0u8] + le_bytes(trampoline as nat, POINTER_WIDTH as nat)
        + Seq::new((len - JUMP_LENGTH) as nat, |i: int| NOP)
}

pub proof fn lemma_jump_patch_len(trampoline: usize, len: nat)
    requires
        len >= JUMP_LENGTH,
    ensures
        jump_patch(trampoline, len).len() == len,
{
    lemma_le_bytes_len(trampoline as nat, POINTER_WIDTH as nat);
}

/// A detour and what it takes to undo it.
#[derive(Debug)]
pub struct DetourState {
    /// Where the jump was patched in.
    pub target_address: usize,
    /// The bytes that stood there before the first patch: the only source
    /// for restoring them.
    pub original_bytes: Vec<u8>,
    /// Where the jump leads.
    pub trampoline_address: usize,
    /// Whether the jump stands in place of the bytes it replaced.
    pub engaged: bool,
}

impl DetourState {
    /// Where execution goes on after the bytes that the patch replaced: the
    /// address that the injected code jumps back to.
    pub open spec fn spec_return_address(self) -> int {
        self.target_address + self.original_bytes@.len()
    }

    /// Builds the bytes of a patch of `len` bytes that jumps to `trampoline`.
    pub fn patch_bytes(trampoline: usize, len: usize) -> (patch: Vec<u8>)
        requires
            len >= JUMP_LENGTH,
        ensures
            patch@ == jump_patch(trampoline, len as nat),
    {
        let mut patch: Vec<u8> = Vec::new();
        patch.push(0xFF);
        patch.push(0x25);
        patch.push(0);
        patch.push(0);
        patch.push(0);
        patch.push(0);
        let address = encode_le(trampoline as u128, POINTER_WIDTH);
        proof {
            lemma_le_bytes_len(trampoline as nat, POINTER_WIDTH as nat);
        }
        let mut k: usize = 0;
        while k < POINTER_WIDTH
            invariant
                k <= POINTER_WIDTH,
                address@.len() == POINTER_WIDTH,
                patch@ == seq![0xFFu8, 0x25u8, 0u8, 0u8, 0u8, 0u8] + address@.subrange(0, k as int),
            decreases POINTER_WIDTH - k,
        {
            patch.push(address[k]);
            k = k + 1;
            proof {
                assert(patch@ =~= seq![0xFFu8, 0x25u8, 0u8, 0u8, 0u8, 0u8] + address@.subrange(
                    0,
                    k as int,
                ));
            }
        }
        proof {
            assert(address@.subrange(0, POINTER_WIDTH as int) =~= address@);
        }
        let ghost head = patch@;
        let mut i: usize = JUMP_LENGTH;
        while i < len
            invariant
                JUMP_LENGTH <= i <= len,
                head.len() == JUMP_LENGTH,
                patch@ == head + Seq::new((i - JUMP_LENGTH) as nat, |j: int| NOP),
            decreases len - i,
        {
            patch.push(NOP);
            i = i + 1;
            proof {
                assert(patch@ =~= head + Seq::new((i - JUMP_LENGTH) as nat, |j: int| NOP));
            }
        }
        patch
    }

    /// Patches a jump to `trampoline_address` over the `len` bytes at
    /// `target_address`, after saving them. `None`, with the image untouched,
    /// where `len` is too short for the jump or the bytes are not all in the
    /// image.
    pub fn install(
        image: &mut MemoryImage,
        target_address: usize,
        trampoline_address: usize,
        len: usize,
    ) -> (state: Option<DetourState>)
        ensures
            state.is_some() == (len >= JUMP_LENGTH && old(image)@.covers(
                target_address as int,
                len as int,
            )),
            state.is_some() ==> {
                let detour = state.unwrap();
                &&& detour.target_address == target_address
                &&& detour.trampoline_address == trampoline_address
                &&& detour.engaged
                &&& detour.original_bytes@ == old(image)@.slice(target_address as int, len as int)
                &&& final(image)@ == old(image)@.store(
                    target_address as int,
                    jump_patch(trampoline_address, len as nat),
                )
            },
            state.is_none() ==> final(image)@ == old(image)@,
    {
        if len < JUMP_LENGTH {
            return None;
        }
        let original_bytes: Vec<u8> = match image.read_bytes(target_address, len) {
            Some(bytes) => bytes,
            None => {
                return None;
            },
        };
        let patch = DetourState::patch_bytes(trampoline_address, len);
        proof {
            lemma_jump_patch_len(trampoline_address, len as nat);
        }
        image.write_bytes(target_address, patch.as_slice());
        Some(DetourState { target_address, original_bytes, trampoline_address, engaged: true })
    }

    /// Writes the saved bytes back and marks the detour as disengaged. It is
    /// the caller's part to call this once, and only on a target that the
    /// detour's jump still stands on: the saved bytes are written whatever
    /// is there. Where the bytes are not all in the image nothing changes
    /// and `false` is returned.
    pub fn restore(&mut self, image: &mut MemoryImage) -> (restored: bool)
        ensures
            restored == old(image)@.covers(
                old(self).target_address as int,
                old(self).original_bytes@.len() as int,
            ),
            restored ==> final(image)@ == old(image)@.store(
                old(self).target_address as int,
                old(self).original_bytes@,
            ),
            restored ==> *final(self) == (DetourState { engaged: false, ..*old(self) }),
            !restored ==> final(image)@ == old(image)@ && *final(self) == *old(self),
    {
        let restored = image.write_bytes(self.target_address, self.original_bytes.as_slice());
        if restored {
            self.engaged = false;
        }
        restored
    }

    /// Where execution goes on after the patched bytes; `None` where that
    /// lies past the last address.
    pub fn return_address(&self) -> (addr: Option<usize>)
        ensures
            addr == if self.spec_return_address() <= usize::MAX {
                Some(self.spec_return_address() as usize)
            } else {
                None::<usize>
            },
    {
        self.target_address.checked_add(self.original_bytes.len())
    }
}

/// Restoring after installing gives the image back as it was before: every
/// byte of it, the patched ones included.
pub proof fn lemma_install_then_restore(view: ImageView, target: int, patch: Seq<u8>)
    requires
        view.covers(target, patch.len() as int),
    ensures
        view.store(target, patch).store(target, view.slice(target, patch.len() as int)) == view,
{
    let patched = view.store(target, patch);
    let restored = patched.store(target, view.slice(target, patch.len() as int));
    assert(restored.bytes =~= view.bytes);
}

} // verus!
