//! The known binary layouts: which signatures locate the game's cells in
//! each, and by which offsets.

use crate::signature::{Matcher, SignaturePattern};
use crate::tier::{BitWidth, VersionTier};
use vstd::prelude::*;

verus! {

/// Names one of the signatures that the layouts use.
#[derive(Clone, Copy, Debug, PartialEq, Eq, Structural)]
pub enum SignatureId {
    /// Code of 64-bit builds that indexes the table of game values.
    WideTable,
    /// Code of 64-bit builds that loads the address of the game's state block.
    WideThunk,
    /// Code of 64-bit builds that writes next to the zone indicator.
    WideZone,
    /// Code of 32-bit builds that indexes the table of game values.
    NarrowTable,
    /// Code of 32-bit builds that loads the address of the zone indicator.
    NarrowZone,
}

/// How the four-byte operand found at a signature becomes an address.
#[derive(Clone, Copy, Debug, PartialEq, Eq, Structural)]
pub enum OperandRule {
    /// The operand is a displacement from the module's base address.
    FromModule,
    /// The operand is a displacement from the code that follows it, which
    /// begins `skip` bytes after the operand's first byte.
    FromCode { skip: u64 },
    /// The operand is the address itself.
    Pointer,
}

/// Where to find one address: the signature to scan for, the offset of the
/// operand from the start of the match, and what the operand means.
#[derive(Clone, Copy, Debug, PartialEq, Eq, Structural)]
pub struct Locator {
    pub signature: SignatureId,
    pub operand_offset: u64,
    pub rule: OperandRule,
}

/// The offsets of one pointer path, and whether its last hop is an
/// absolute displacement or one relative to the code after it.
#[derive(Clone, Copy, Debug, PartialEq, Eq, Structural)]
pub struct PathOffsets {
    pub first: u32,
    pub second: u32,
    pub last: u32,
    pub absolute: bool,
}

/// The address computation of one build flavour.
#[derive(Clone, Copy, Debug, PartialEq, Eq, Structural)]
pub struct Layout {
    pub width: BitWidth,
    pub tier: VersionTier,
    /// Finds the pointer from which the paths start.
    pub table: Locator,
    /// Finds the address that the paths without indirection start from.
    pub thunk: Option<Locator>,
    pub state: PathOffsets,
    pub level: PathOffsets,
    /// The path of the zone select flag; `None` where the build has none.
    pub zone_select_flag: Option<PathOffsets>,
    pub zone_indicator: Locator,
}

impl SignatureId {
    /// The matchers of the signature.
    pub open spec fn matchers(self) -> Seq<Matcher> {
        match self {
            SignatureId::WideTable => seq![
                Matcher::Exact(0x81),
                Matcher::Exact(0xF9),
                Matcher::Any,
                Matcher::Any,
                Matcher::Any,
                Matcher::Any,
                Matcher::Exact(0x0F),
                Matcher::Exact(0x87),
                Matcher::Any,
                Matcher::Any,
                Matcher::Any,
                Matcher::Any,
                Matcher::Exact(0x41),
                Matcher::Exact(0x8B),
                Matcher::Exact(0x8C),
            ],
            SignatureId::WideThunk => seq![
                Matcher::Exact(0x48),
                Matcher::Exact(0x8D),
                Matcher::Exact(0x05),
                Matcher::Any,
                Matcher::Any,
                Matcher::Any,
                Matcher::Any,
                Matcher::Exact(0x49),
                Matcher::Exact(0x63),
                Matcher::Exact(0xF8),
                Matcher::Exact(0x4C),
            ],
            SignatureId::WideZone => seq![
                Matcher::Exact(0xC6),
                Matcher::Exact(0x05),
                Matcher::Any,
                Matcher::Any,
                Matcher::Any,
                Matcher::Any,
                Matcher::Any,
                Matcher::Exact(0xE9),
                Matcher::Any,
                Matcher::Any,
                Matcher::Any,
                Matcher::Any,
                Matcher::Exact(0x48),
                Matcher::Exact(0x8D),
                Matcher::Exact(0x0D),
            ],
            SignatureId::NarrowTable => seq![
                Matcher::Exact(0x3D),
                Matcher::Any,
                Matcher::Any,
                Matcher::Any,
                Matcher::Any,
                Matcher::Exact(0x0F),
                Matcher::Exact(0x87),
                Matcher::Any,
                Matcher::Any,
                Matcher::Any,
                Matcher::Any,
                Matcher::Exact(0xFF),
                Matcher::Exact(0x24),
                Matcher::Exact(0x85),
                Matcher::Any,
                Matcher::Any,
                Matcher::Any,
                Matcher::Any,
                Matcher::Exact(0xA1),
            ],
            SignatureId::NarrowZone => seq![
                Matcher::Exact(0x69),
                Matcher::Exact(0xF8),
                Matcher::Any,
                Matcher::Any,
                Matcher::Any,
                Matcher::Any,
                Matcher::Exact(0xB8),
            ],
        }
    }

    /// Builds the pattern of the signature.
    pub fn pattern(&self) -> (pattern: SignaturePattern)
        ensures
            pattern@ == self.matchers(),
    {
        let matchers = match self {
            SignatureId::WideTable => vec![
                Matcher::Exact(0x81),
                Matcher::Exact(0xF9),
                Matcher::Any,
                Matcher::Any,
                Matcher::Any,
                Matcher::Any,
                Matcher::Exact(0x0F),
                Matcher::Exact(0x87),
                Matcher::Any,
                Matcher::Any,
                Matcher::Any,
                Matcher::Any,
                Matcher::Exact(0x41),
                Matcher::Exact(0x8B),
                Matcher::Exact(0x8C),
            ],
            SignatureId::WideThunk => vec![
                Matcher::Exact(0x48),
                Matcher::Exact(0x8D),
                Matcher::Exact(0x05),
                Matcher::Any,
                Matcher::Any,
                Matcher::Any,
                Matcher::Any,
                Matcher::Exact(0x49),
                Matcher::Exact(0x63),
                Matcher::Exact(0xF8),
                Matcher::Exact(0x4C),
            ],
            SignatureId::WideZone => vec![
                Matcher::Exact(0xC6),
                Matcher::Exact(0x05),
                Matcher::Any,
                Matcher::Any,
                Matcher::Any,
                Matcher::Any,
                Matcher::Any,
                Matcher::Exact(0xE9),
                Matcher::Any,
                Matcher::Any,
                Matcher::Any,
                Matcher::Any,
                Matcher::Exact(0x48),
                Matcher::Exact(0x8D),
                Matcher::Exact(0x0D),
            ],
            SignatureId::NarrowTable => vec![
                Matcher::Exact(0x3D),
                Matcher::Any,
                Matcher::Any,
                Matcher::Any,
                Matcher::Any,
                Matcher::Exact(0x0F),
                Matcher::Exact(0x87),
                Matcher::Any,
                Matcher::Any,
                Matcher::Any,
                Matcher::Any,
                Matcher::Exact(0xFF),
                Matcher::Exact(0x24),
                Matcher::Exact(0x85),
                Matcher::Any,
                Matcher::Any,
                Matcher::Any,
                Matcher::Any,
                Matcher::Exact(0xA1),
            ],
            SignatureId::NarrowZone => vec![
                Matcher::Exact(0x69),
                Matcher::Exact(0xF8),
                Matcher::Any,
                Matcher::Any,
                Matcher::Any,
                Matcher::Any,
                Matcher::Exact(0xB8),
            ],
        };
        assert(matchers@ =~= self.matchers());
        SignaturePattern::new(matchers)
    }
}

/// The layout of 64-bit builds.
pub open spec fn wide_layout() -> Layout {
    Layout {
        width: BitWidth::Bits64,
        tier: VersionTier::Legacy,
        table: Locator {
            signature: SignatureId::WideTable,
            operand_offset: 16,
            rule: OperandRule::FromModule,
        },
        thunk: Some(
            Locator {
                signature: SignatureId::WideThunk,
                operand_offset: 3,
                rule: OperandRule::FromCode { skip: 4 },
            },
        ),
        state: PathOffsets { first: 0, second: 0, last: 0x9EC, absolute: false },
        level: PathOffsets { first: 0x1EC, second: 2, last: 0, absolute: false },
        zone_select_flag: None,
        zone_indicator: Locator {
            signature: SignatureId::WideZone,
            operand_offset: 2,
            rule: OperandRule::FromCode { skip: 5 },
        },
    }
}

/// The layout of 32-bit builds of the given tier. The tiers differ in the
/// first offset of the state byte's path, and only the `Current` tier has
/// a zone select flag.
pub open spec fn narrow_layout(tier: VersionTier) -> Layout {
    Layout {
        width: BitWidth::Bits32,
        tier,
        table: Locator {
            signature: SignatureId::NarrowTable,
            operand_offset: 14,
            rule: OperandRule::Pointer,
        },
        thunk: None,
        state: PathOffsets {
            first: if tier == VersionTier::Legacy {
                0x124
            } else {
                0x78
            },
            second: 8,
            last: 0x9D8,
            absolute: true,
        },
        level: PathOffsets { first: 0x1EC, second: 1, last: 0, absolute: true },
        zone_select_flag: if tier == VersionTier::Legacy {
            None
        } else {
            Some(PathOffsets { first: 0x48, second: 3, last: 4, absolute: true })
        },
        zone_indicator: Locator {
            signature: SignatureId::NarrowZone,
            operand_offset: 7,
            rule: OperandRule::Pointer,
        },
    }
}

/// The layout of a build, or `None` for the one combination of width and
/// tier of which no layout is known: 64 bits and `Current`.
pub open spec fn layout_of(width: BitWidth, tier: VersionTier) -> Option<Layout> {
    match (width, tier) {
        (BitWidth::Bits64, VersionTier::Legacy) => Some(wide_layout()),
        (BitWidth::Bits64, VersionTier::Current) => None,
        (BitWidth::Bits32, _) => Some(narrow_layout(tier)),
    }
}

/// Looks up the layout of a build.
pub fn layout_for(width: BitWidth, tier: VersionTier) -> (layout: Option<Layout>)
    ensures
        layout == layout_of(width, tier),
        layout matches Some(l) ==> l.width == width && l.tier == tier,
{
    match (width, tier) {
        (BitWidth::Bits64, VersionTier::Legacy) => Some(
            Layout {
                width,
                tier,
                table: Locator {
                    signature: SignatureId::WideTable,
                    operand_offset: 16,
                    rule: OperandRule::FromModule,
                },
                thunk: Some(
                    Locator {
                        signature: SignatureId::WideThunk,
                        operand_offset: 3,
                        rule: OperandRule::FromCode { skip: 4 },
                    },
                ),
                state: PathOffsets { first: 0, second: 0, last: 0x9EC, absolute: false },
                level: PathOffsets { first: 4 * 123, second: 2, last: 0, absolute: false },
                zone_select_flag: None,
                zone_indicator: Locator {
                    signature: SignatureId::WideZone,
                    operand_offset: 2,
                    rule: OperandRule::FromCode { skip: 5 },
                },
            },
        ),
        (BitWidth::Bits64, VersionTier::Current) => None,
        (BitWidth::Bits32, _) => {
            let (state_first, flag): (u32, Option<PathOffsets>) = match tier {
                VersionTier::Legacy => (4 * 73, None),
                VersionTier::Current => (
                    4 * 30,
                    Some(PathOffsets { first: 4 * 18, second: 3, last: 4, absolute: true }),
                ),
            };
            Some(
                Layout {
                    width,
                    tier,
                    table: Locator {
                        signature: SignatureId::NarrowTable,
                        operand_offset: 14,
                        rule: OperandRule::Pointer,
                    },
                    thunk: None,
                    state: PathOffsets {
                        first: state_first,
                        second: 8,
                        last: 0x9D8,
                        absolute: true,
                    },
                    level: PathOffsets { first: 4 * 123, second: 1, last: 0, absolute: true },
                    zone_select_flag: flag,
                    zone_indicator: Locator {
                        signature: SignatureId::NarrowZone,
                        operand_offset: 7,
                        rule: OperandRule::Pointer,
                    },
                },
            )
        },
    }
}

/// Only the 32-bit layout of the `Current` tier has a zone select flag.
pub proof fn lemma_flag_only_in_current(width: BitWidth, tier: VersionTier)
    ensures
        layout_of(width, tier) matches Some(l) ==> (l.zone_select_flag.is_some() <==> tier
            == VersionTier::Current),
{
}

} // verus!
