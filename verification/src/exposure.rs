//! The exposure override: a detour over the foreign tone mapping code, and
//! the two values that the injected code reads.

use crate::definitions::{bool_byte, FLOAT_ONE};
use crate::detour::{jump_patch, DetourState, JUMP_LENGTH};
use crate::memory::{ImageView, MemoryImage};
use crate::pattern::{scan_result, BytePattern, PatternByte};
use crate::resolver::ResolveError;
use vstd::prelude::*;

verus! {

/// The number of bytes that the detour over the tone mapping code replaces:
/// they end where an instruction ends.
pub const TONEMAPPING_PATCH_LENGTH: usize = 32;

/// The signature of the tone mapping code.
pub open spec fn tonemapping_signature() -> Seq<PatternByte> {
    seq![
        PatternByte::Exact(0x48),
        PatternByte::Exact(0x85),
        PatternByte::Exact(0xD2),
        PatternByte::Exact(0x74),
        PatternByte::Exact(0x10),
        PatternByte::Exact(0x4C),
        PatternByte::Exact(0x39),
        PatternByte::Exact(0x72),
        PatternByte::Exact(0x08),
        PatternByte::Exact(0x74),
        PatternByte::Exact(0x0A),
        PatternByte::Exact(0x48),
        PatternByte::Exact(0x8B),
        PatternByte::Exact(0x52),
        PatternByte::Exact(0x08),
    ]
}

/// The signature of the tone mapping code.
pub fn tonemapping_pattern() -> (pattern: BytePattern)
    ensures
        pattern@ == tonemapping_signature(),
{
    let bytes: [u8; 15] = [
        0x48,
        0x85,
        0xD2,
        0x74,
        0x10,
        0x4C,
        0x39,
        0x72,
        0x08,
        0x74,
        0x0A,
        0x48,
        0x8B,
        0x52,
        0x08,
    ];
    let pattern = BytePattern::from_bytes(bytes.as_slice());
    proof {
        assert(pattern@ =~= tonemapping_signature());
    }
    pattern
}

/// What the injected code reads in every frame.
#[derive(Clone, Copy, Debug, PartialEq, Eq, Structural)]
pub struct ToneMappingSettings {
    /// One where the exposure is overridden, zero where it is not.
    pub enable: u8,
    /// The exposure, a float as its bit pattern.
    pub value: u32,
}

/// The exposure override and its controls.
#[derive(Debug)]
pub struct ToneMappingContainer {
    pub detour: DetourState,
    /// The exposure that the slider holds, a float as its bit pattern.
    pub value: u32,
    /// Whether the exposure is overridden.
    pub overwrite: bool,
}

/// Where the tone mapping code is found in `view`, and whether the detour
/// fits there.
pub open spec fn tonemapping_target(view: ImageView) -> Result<usize, ResolveError> {
    match scan_result(tonemapping_signature(), view.base as int, view.bytes) {
        Err(_) => Err(ResolveError::NotFound),
        Ok(addr) => if view.covers(addr as int, TONEMAPPING_PATCH_LENGTH as int) {
            Ok(addr)
        } else {
            Err(ResolveError::Unreadable)
        },
    }
}

impl ToneMappingContainer {
    /// Finds the tone mapping code in `image` and detours it to the code at
    /// `trampoline`. The override starts switched off, at exposure one.
    /// Where the code is not found, or the detour does not fit in the image,
    /// the image is left untouched.
    pub fn new(image: &mut MemoryImage, trampoline: usize) -> (container: Result<
        ToneMappingContainer,
        ResolveError,
    >)
        ensures
            match container {
                Ok(this) => {
                    &&& tonemapping_target(old(image)@) == Ok::<usize, ResolveError>(
                        this.detour.target_address,
                    )
                    &&& this.detour.trampoline_address == trampoline
                    &&& this.detour.engaged
                    &&& this.detour.original_bytes@ == old(image)@.slice(
                        this.detour.target_address as int,
                        TONEMAPPING_PATCH_LENGTH as int,
                    )
                    &&& this.value == FLOAT_ONE
                    &&& !this.overwrite
                    &&& final(image)@ == old(image)@.store(
                        this.detour.target_address as int,
                        jump_patch(trampoline, TONEMAPPING_PATCH_LENGTH as nat),
                    )
                },
                Err(error) => tonemapping_target(old(image)@) == Err::<usize, ResolveError>(error)
                    && final(image)@ == old(image)@,
            },
    {
        let mp = tonemapping_pattern();
        let addr: usize = match mp.scan(image) {
            Ok(addr) => addr,
            Err(_) => {
                return Err(ResolveError::NotFound);
            },
        };
        match DetourState::install(image, addr, trampoline, TONEMAPPING_PATCH_LENGTH) {
            Some(detour) => Ok(ToneMappingContainer { detour, value: FLOAT_ONE, overwrite: false }),
            None => Err(ResolveError::Unreadable),
        }
    }

    /// Takes over what the slider and the checkbox hold, and says what the
    /// injected code is to read from now on.
    pub fn handle_ui(&mut self, value: u32, overwrite: bool) -> (settings: ToneMappingSettings)
        ensures
            final(self).value == value,
            final(self).overwrite == overwrite,
            final(self).detour == old(self).detour,
            settings == (ToneMappingSettings { enable: bool_byte(overwrite), value }),
    {
        self.value = value;
        self.overwrite = overwrite;
        ToneMappingSettings { enable: if overwrite {
            1
        } else {
            0
        }, value }
    }
}

} // verus!
