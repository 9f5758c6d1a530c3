//! Classification of the running build of the game.

use vstd::prelude::*;

verus! {

/// Pointer width of the attached executable.
#[derive(Clone, Copy, Debug, PartialEq, Eq, Structural)]
pub enum BitWidth {
    Bits32,
    Bits64,
}

/// Which family of builds the attached executable belongs to.
#[derive(Clone, Copy, Debug, PartialEq, Eq, Structural)]
pub enum VersionTier {
    Legacy,
    Current,
}

/// Image size, in bytes, from which a 32-bit build counts as `Current`.
pub const CURRENT_TIER_MIN_SIZE: u64 = 0x57F4000;

/// The tier of an image of `size_bytes` bytes and the given pointer width.
pub open spec fn tier_of(width: BitWidth, size_bytes: u64) -> VersionTier {
    if width == BitWidth::Bits32 && size_bytes >= CURRENT_TIER_MIN_SIZE {
        VersionTier::Current
    } else {
        VersionTier::Legacy
    }
}

/// Derives the version tier: a 64-bit image is always `Legacy`, a 32-bit
/// image is `Legacy` below the size threshold and `Current` from it on.
pub fn version_tier(width: BitWidth, size_bytes: u64) -> (tier: VersionTier)
    ensures
        tier == tier_of(width, size_bytes),
{
    match width {
        BitWidth::Bits64 => VersionTier::Legacy,
        BitWidth::Bits32 => {
            if size_bytes < CURRENT_TIER_MIN_SIZE {
                VersionTier::Legacy
            } else {
                VersionTier::Current
            }
        },
    }
}

} // verus!
