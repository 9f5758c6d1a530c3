//! The address resolver: a machine that asks for scans and reads, one at a
//! time, and ends with the addresses of the four game values.
//!
//! The machine does no input or output itself. Its owner performs each
//! request and hands back the reply.

use crate::layout::{
    layout_for, layout_of, Layout, Locator, OperandRule, PathOffsets, SignatureId,
};
use crate::path::{offset, widen, wrap, PathQuery};
use crate::signature::{is_first_match, lemma_first_match_unique, matches_at, matches_nowhere};
use crate::tier::{tier_of, version_tier, BitWidth, VersionTier};
use vstd::prelude::*;

verus! {

/// The main executable's region in the attached process.
#[derive(Clone, Copy, Debug, PartialEq, Eq, Structural)]
pub struct ModuleImage {
    pub base_address: u64,
    pub size_bytes: u64,
}

/// The null address, which stands for a value that the build does not have.
pub const NULL_ADDRESS: u64 = 0;

/// The addresses of the four game values.
#[derive(Clone, Copy, Debug, PartialEq, Eq, Structural)]
pub struct ResolvedAddressSet {
    pub state: u64,
    pub level_id: u64,
    /// `NULL_ADDRESS` where the build has no zone select flag.
    pub zone_select_flag: u64,
    pub zone_indicator: u64,
}

/// The outcome of a resolution: the addresses and the build that they are
/// valid for.
#[derive(Clone, Copy, Debug, PartialEq, Eq, Structural)]
pub struct Resolution {
    pub addresses: ResolvedAddressSet,
    pub width: BitWidth,
    pub tier: VersionTier,
}

/// What the resolver asks of its owner.
#[derive(Clone, Copy, Debug, PartialEq, Eq, Structural)]
pub enum Request {
    /// Scan the module image for the signature; reply with `Match`.
    Scan(SignatureId),
    /// Read four bytes at the address; reply with `Word`.
    Read(u64),
    /// Wait for the next tick; reply with `Resumed`.
    Suspend,
    /// The resolution is complete.
    Finished(Resolution),
    /// The addresses cannot be had for this attachment.
    Unavailable,
}

/// What the owner hands back.
#[derive(Clone, Copy, Debug, PartialEq, Eq, Structural)]
pub enum Reply {
    /// The offset of the first match from the start of the module image,
    /// or `None` where the signature matches nowhere.
    Match(Option<u64>),
    /// The value read, or `None` where the read failed.
    Word(Option<u32>),
    /// The wait is over.
    Resumed,
}

/// Where the resolver stands. A stage named `..Operand` awaits the operand
/// at a signature; `..First` and `..Second` await the two values of a
/// pointer path.
#[derive(Clone, Copy, Debug, PartialEq, Eq, Structural)]
pub enum Stage {
    DetectWide,
    DetectNarrow,
    TableOperand,
    ThunkScan,
    ThunkOperand,
    StateFirst,
    StateSecond,
    LevelFirst,
    LevelSecond,
    FlagFirst,
    FlagSecond,
    ZoneScan,
    ZoneOperand,
    Finished,
    Unavailable,
}

impl Stage {
    /// An upper bound on the number of answered requests that are still
    /// needed before the resolver ends.
    pub open spec fn steps_left(self) -> nat {
        match self {
            Stage::DetectWide => 14,
            Stage::DetectNarrow => 13,
            Stage::TableOperand => 11,
            Stage::ThunkScan => 10,
            Stage::ThunkOperand => 9,
            Stage::StateFirst => 8,
            Stage::StateSecond => 7,
            Stage::LevelFirst => 6,
            Stage::LevelSecond => 5,
            Stage::FlagFirst => 4,
            Stage::FlagSecond => 3,
            Stage::ZoneScan => 2,
            Stage::ZoneOperand => 1,
            Stage::Finished => 0,
            Stage::Unavailable => 0,
        }
    }
}

/// A memory image as the resolver sees it: for each signature the offset
/// of its first match in the module image, if it matches, and for each
/// address the four-byte value there.
pub struct Snapshot {
    pub matches: spec_fn(SignatureId) -> Option<u64>,
    pub words: spec_fn(u64) -> u32,
}

impl Snapshot {
    /// The pointer width that the image shows: the marker of 64-bit builds
    /// is looked for first, then that of 32-bit builds.
    pub open spec fn width(self) -> Option<BitWidth> {
        if (self.matches)(SignatureId::WideTable).is_some() {
            Some(BitWidth::Bits64)
        } else if (self.matches)(SignatureId::NarrowTable).is_some() {
            Some(BitWidth::Bits32)
        } else {
            None
        }
    }

    /// The layout of the build that the image shows.
    pub open spec fn layout(self, image: ModuleImage) -> Option<Layout> {
        match self.width() {
            Some(width) => layout_of(width, tier_of(width, image.size_bytes)),
            None => None,
        }
    }

    /// The address that a locator yields: the operand is read at its offset
    /// from the first match of the signature.
    pub open spec fn located(self, image: ModuleImage, locator: Locator) -> Option<u64> {
        match (self.matches)(locator.signature) {
            Some(found) => {
                let at = locator.operand_at(wrap(image.base_address + found));
                Some(locator.target_of(image.base_address, at, (self.words)(at)))
            },
            None => None,
        }
    }

    /// The address of the thunk, which is null in a layout without one.
    pub open spec fn thunk(self, image: ModuleImage, layout: Layout) -> Option<u64> {
        match layout.thunk {
            Some(locator) => self.located(image, locator),
            None => Some(NULL_ADDRESS),
        }
    }

    /// The outcome of the resolution in this image, or `None` where the
    /// width cannot be told, no layout is known, or a signature of the
    /// layout matches nowhere.
    pub open spec fn resolution(self, image: ModuleImage) -> Option<Resolution> {
        match self.layout(image) {
            Some(layout) => match (
                self.located(image, layout.table),
                self.thunk(image, layout),
                self.located(image, layout.zone_indicator),
            ) {
                (Some(table), Some(thunk), Some(zone_indicator)) => {
                    let query = |offsets: PathOffsets|
                        PathQuery {
                            width: layout.width,
                            module_base: image.base_address,
                            base_pointer: table,
                            thunk,
                            offsets,
                        };
                    Some(
                        Resolution {
                            addresses: ResolvedAddressSet {
                                state: query(layout.state).target_in(self.words),
                                level_id: query(layout.level).target_in(self.words),
                                zone_select_flag: match layout.zone_select_flag {
                                    Some(offsets) => query(offsets).target_in(self.words),
                                    None => NULL_ADDRESS,
                                },
                                zone_indicator,
                            },
                            width: layout.width,
                            tier: layout.tier,
                        },
                    )
                },
                _ => None,
            },
            None => None,
        }
    }

    /// Whether `reply` is an answer to `request` that this image gives. A
    /// failed read is an answer that any image may give.
    pub open spec fn answers(self, request: Request, reply: Reply) -> bool {
        match (request, reply) {
            (Request::Scan(signature), Reply::Match(found)) => found == (self.matches)(signature),
            (Request::Read(address), Reply::Word(Some(word))) => word == (self.words)(address),
            (Request::Read(_), Reply::Word(None)) => true,
            (Request::Suspend, Reply::Resumed) => true,
            _ => false,
        }
    }

    /// Whether the matches of this image are those of the module bytes.
    pub open spec fn shows(self, bytes: Seq<u8>) -> bool {
        forall|signature: SignatureId|
            match #[trigger] (self.matches)(signature) {
                Some(found) => is_first_match(bytes, signature.matchers(), found as int),
                None => matches_nowhere(bytes, signature.matchers()),
            }
    }
}

/// The resolver's state.
#[derive(Clone, Copy, Debug, PartialEq, Eq, Structural)]
pub struct Resolver {
    pub image: ModuleImage,
    pub stage: Stage,
    /// Set while a wait has been asked for and is not over.
    pub paused: bool,
    /// The layout in use, once the width has been detected.
    pub layout: Layout,
    /// The address of the operand that an `..Operand` stage awaits.
    pub operand: u64,
    /// The first value of the path that a `..Second` stage follows.
    pub first: u32,
    /// The pointer that the paths start from.
    pub table: u64,
    /// The address that the paths without indirection start from.
    pub thunk: u64,
    /// The addresses found so far.
    pub found: ResolvedAddressSet,
}

impl Resolver {
    /// The query of a path with the given offsets.
    pub open spec fn query_of(self, offsets: PathOffsets) -> PathQuery {
        PathQuery {
            width: self.layout.width,
            module_base: self.image.base_address,
            base_pointer: self.table,
            thunk: self.thunk,
            offsets,
        }
    }

    /// The outcome that the resolver reports when it has finished.
    pub open spec fn outcome(self) -> Resolution {
        Resolution { addresses: self.found, width: self.layout.width, tier: self.layout.tier }
    }

    /// The request that the resolver is waiting on.
    pub open spec fn pending(self) -> Request {
        if self.paused {
            Request::Suspend
        } else {
            match self.stage {
                Stage::DetectWide => Request::Scan(SignatureId::WideTable),
                Stage::DetectNarrow => Request::Scan(SignatureId::NarrowTable),
                Stage::TableOperand | Stage::ThunkOperand | Stage::ZoneOperand => Request::Read(
                    self.operand,
                ),
                Stage::ThunkScan => match self.layout.thunk {
                    Some(locator) => Request::Scan(locator.signature),
                    None => Request::Unavailable,
                },
                Stage::StateFirst => Request::Read(self.query_of(self.layout.state).first_address()),
                Stage::StateSecond => Request::Read(
                    self.query_of(self.layout.state).second_address(self.first),
                ),
                Stage::LevelFirst => Request::Read(self.query_of(self.layout.level).first_address()),
                Stage::LevelSecond => Request::Read(
                    self.query_of(self.layout.level).second_address(self.first),
                ),
                Stage::FlagFirst => match self.layout.zone_select_flag {
                    Some(offsets) => Request::Read(self.query_of(offsets).first_address()),
                    None => Request::Unavailable,
                },
                Stage::FlagSecond => match self.layout.zone_select_flag {
                    Some(offsets) => Request::Read(
                        self.query_of(offsets).second_address(self.first),
                    ),
                    None => Request::Unavailable,
                },
                Stage::ZoneScan => Request::Scan(self.layout.zone_indicator.signature),
                Stage::Finished => Request::Finished(self.outcome()),
                Stage::Unavailable => Request::Unavailable,
            }
        }
    }

    /// Whether `reply` is of the kind that the pending request asks for.
    pub open spec fn expects(self, reply: Reply) -> bool {
        match (self.pending(), reply) {
            (Request::Scan(_), Reply::Match(_)) => true,
            (Request::Read(_), Reply::Word(_)) => true,
            (Request::Suspend, Reply::Resumed) => true,
            _ => false,
        }
    }

    /// Whether `reply` brings the resolver forward: it is of the kind asked
    /// for, and neither a failed read, nor the end of a wait, nor the
    /// second miss of the detection, after which the detection starts over.
    pub open spec fn advances_on(self, reply: Reply) -> bool {
        &&& self.expects(reply)
        &&& reply != Reply::Word(None)
        &&& reply != Reply::Resumed
        &&& !(self.stage == Stage::DetectNarrow && reply == Reply::Match(None))
    }

    /// Whether the layout in use is the one that the image shows.
    pub open spec fn knows_layout(self, snap: Snapshot) -> bool {
        snap.layout(self.image) == Some(self.layout)
    }

    /// Whether the operand awaited is the one of `locator` in the image.
    pub open spec fn awaits_operand(self, snap: Snapshot, locator: Locator) -> bool {
        &&& (snap.matches)(locator.signature) matches Some(found)
        &&& self.operand == locator.operand_at(wrap(self.image.base_address + found))
    }

    /// Whether the table pointer is the one that the image gives.
    pub open spec fn knows_table(self, snap: Snapshot) -> bool {
        &&& self.knows_layout(snap)
        &&& snap.located(self.image, self.layout.table) == Some(self.table)
    }

    /// Whether table pointer and thunk are those that the image gives.
    pub open spec fn knows_start(self, snap: Snapshot) -> bool {
        &&& self.knows_table(snap)
        &&& snap.thunk(self.image, self.layout) == Some(self.thunk)
    }

    /// Whether, beyond that, the state byte's address is the image's.
    pub open spec fn knows_state(self, snap: Snapshot) -> bool {
        &&& self.knows_start(snap)
        &&& self.found.state == self.query_of(self.layout.state).target_in(snap.words)
    }

    /// Whether, beyond that, the level byte's address is the image's.
    pub open spec fn knows_level(self, snap: Snapshot) -> bool {
        &&& self.knows_state(snap)
        &&& self.found.level_id == self.query_of(self.layout.level).target_in(snap.words)
    }

    /// Whether, beyond that, the zone select flag's address is the image's.
    pub open spec fn knows_flag(self, snap: Snapshot) -> bool {
        &&& self.knows_level(snap)
        &&& self.found.zone_select_flag == match self.layout.zone_select_flag {
            Some(offsets) => self.query_of(offsets).target_in(snap.words),
            None => NULL_ADDRESS,
        }
    }

    /// Whether the path with the given offsets awaits its first value.
    pub open spec fn awaits_first(self, offsets: PathOffsets) -> bool {
        !self.query_of(offsets).is_direct()
    }

    /// Whether the path with the given offsets awaits its second value,
    /// the first being the one that the image holds.
    pub open spec fn awaits_second(self, snap: Snapshot, offsets: PathOffsets) -> bool {
        &&& !self.query_of(offsets).is_direct()
        &&& self.first == (snap.words)(self.query_of(offsets).first_address())
    }

    /// Whether all that the resolver has worked out so far is what the
    /// image `snap` gives: the image may have answered every request up to
    /// now.
    pub open spec fn consistent(self, snap: Snapshot) -> bool {
        match self.stage {
            Stage::DetectWide => true,
            Stage::DetectNarrow => (snap.matches)(SignatureId::WideTable).is_none(),
            Stage::TableOperand => self.knows_layout(snap) && self.awaits_operand(
                snap,
                self.layout.table,
            ),
            Stage::ThunkScan => self.knows_table(snap) && self.layout.thunk.is_some(),
            Stage::ThunkOperand => {
                &&& self.knows_table(snap)
                &&& self.layout.thunk matches Some(locator)
                &&& self.awaits_operand(snap, locator)
            },
            Stage::StateFirst => self.knows_start(snap) && self.awaits_first(self.layout.state),
            Stage::StateSecond => self.knows_start(snap) && self.awaits_second(
                snap,
                self.layout.state,
            ),
            Stage::LevelFirst => self.knows_state(snap) && self.awaits_first(self.layout.level),
            Stage::LevelSecond => self.knows_state(snap) && self.awaits_second(
                snap,
                self.layout.level,
            ),
            Stage::FlagFirst => {
                &&& self.knows_level(snap)
                &&& self.layout.zone_select_flag matches Some(offsets)
                &&& self.awaits_first(offsets)
            },
            Stage::FlagSecond => {
                &&& self.knows_level(snap)
                &&& self.layout.zone_select_flag matches Some(offsets)
                &&& self.awaits_second(snap, offsets)
            },
            Stage::ZoneScan => self.knows_flag(snap),
            Stage::ZoneOperand => self.knows_flag(snap) && self.awaits_operand(
                snap,
                self.layout.zone_indicator,
            ),
            Stage::Finished => snap.resolution(self.image) == Some(self.outcome()),
            Stage::Unavailable => snap.width().is_some() && snap.resolution(self.image).is_none(),
        }
    }

    /// A resolver at the start of the detection.
    pub fn new(image: ModuleImage) -> (resolver: Self)
        ensures
            resolver.image == image,
            resolver.stage == Stage::DetectWide,
            !resolver.paused,
            forall|snap: Snapshot| resolver.consistent(snap),
    {
        let no_path = PathOffsets { first: 0, second: 0, last: 0, absolute: false };
        let no_locator = Locator {
            signature: SignatureId::WideTable,
            operand_offset: 0,
            rule: OperandRule::Pointer,
        };
        Resolver {
            image,
            stage: Stage::DetectWide,
            paused: false,
            layout: Layout {
                width: BitWidth::Bits64,
                tier: VersionTier::Legacy,
                table: no_locator,
                thunk: None,
                state: no_path,
                level: no_path,
                zone_select_flag: None,
                zone_indicator: no_locator,
            },
            operand: NULL_ADDRESS,
            first: 0,
            table: NULL_ADDRESS,
            thunk: NULL_ADDRESS,
            found: ResolvedAddressSet {
                state: NULL_ADDRESS,
                level_id: NULL_ADDRESS,
                zone_select_flag: NULL_ADDRESS,
                zone_indicator: NULL_ADDRESS,
            },
        }
    }

    /// The query of a path with the given offsets.
    fn query(&self, offsets: PathOffsets) -> (query: PathQuery)
        ensures
            query == self.query_of(offsets),
    {
        PathQuery {
            width: self.layout.width,
            module_base: self.image.base_address,
            base_pointer: self.table,
            thunk: self.thunk,
            offsets,
        }
    }

    /// The request that the resolver is waiting on.
    pub fn request(&self) -> (request: Request)
        ensures
            request == self.pending(),
    {
        if self.paused {
            return Request::Suspend;
        }
        match self.stage {
            Stage::DetectWide => Request::Scan(SignatureId::WideTable),
            Stage::DetectNarrow => Request::Scan(SignatureId::NarrowTable),
            Stage::TableOperand | Stage::ThunkOperand | Stage::ZoneOperand => Request::Read(
                self.operand,
            ),
            Stage::ThunkScan => match self.layout.thunk {
                Some(locator) => Request::Scan(locator.signature),
                None => Request::Unavailable,
            },
            Stage::StateFirst => Request::Read(self.first_of(self.layout.state)),
            Stage::StateSecond => Request::Read(
                self.query(self.layout.state).second_read(self.first),
            ),
            Stage::LevelFirst => Request::Read(self.first_of(self.layout.level)),
            Stage::LevelSecond => Request::Read(
                self.query(self.layout.level).second_read(self.first),
            ),
            Stage::FlagFirst => match self.layout.zone_select_flag {
                Some(offsets) => Request::Read(self.first_of(offsets)),
                None => Request::Unavailable,
            },
            Stage::FlagSecond => match self.layout.zone_select_flag {
                Some(offsets) => Request::Read(self.query(offsets).second_read(self.first)),
                None => Request::Unavailable,
            },
            Stage::ZoneScan => Request::Scan(self.layout.zone_indicator.signature),
            Stage::Finished => Request::Finished(
                Resolution {
                    addresses: self.found,
                    width: self.layout.width,
                    tier: self.layout.tier,
                },
            ),
            Stage::Unavailable => Request::Unavailable,
        }
    }

    /// The address of the first value of a path.
    fn first_of(&self, offsets: PathOffsets) -> (address: u64)
        ensures
            address == self.query_of(offsets).first_address(),
    {
        offset(self.table, widen(offsets.first))
    }

    /// The resolver once the width has been detected by a match of its
    /// marker at offset `found`: it awaits the table operand, or has given
    /// up where no layout is known for the build.
    fn detected(self, width: BitWidth, found: u64) -> (next: Self)
        ensures
            next.image == self.image,
            next.paused == self.paused,
            next.stage.steps_left() <= 11,
            forall|snap: Snapshot|
                #[trigger] snap.width() == Some(width) && (snap.matches)(
                    match width {
                        BitWidth::Bits64 => SignatureId::WideTable,
                        BitWidth::Bits32 => SignatureId::NarrowTable,
                    },
                ) == Some(found) ==> next.consistent(snap),
    {
        let tier = version_tier(width, self.image.size_bytes);
        match layout_for(width, tier) {
            Some(layout) => Resolver {
                stage: Stage::TableOperand,
                layout,
                operand: layout.table.operand_address(offset(self.image.base_address, found)),
                ..self
            },
            None => Resolver { stage: Stage::Unavailable, ..self },
        }
    }

    /// The resolver once the table pointer is known.
    fn enter_thunk(self) -> (next: Self)
        ensures
            next.image == self.image,
            next.paused == self.paused,
            next.stage.steps_left() <= 10,
            forall|snap: Snapshot| #[trigger] self.knows_table(snap) ==> next.consistent(snap),
    {
        match self.layout.thunk {
            Some(_) => Resolver { stage: Stage::ThunkScan, ..self },
            None => {
                let mid = Resolver { thunk: NULL_ADDRESS, ..self };
                let next = mid.enter_state();
                assert forall|snap: Snapshot| #[trigger] self.knows_table(snap) implies next.consistent(
                    snap,
                ) by {
                    assert(mid.knows_start(snap));
                }
                next
            },
        }
    }

    /// The resolver once table pointer and thunk are known.
    fn enter_state(self) -> (next: Self)
        ensures
            next.image == self.image,
            next.paused == self.paused,
            next.stage.steps_left() <= 8,
            forall|snap: Snapshot| #[trigger] self.knows_start(snap) ==> next.consistent(snap),
    {
        let query = self.query(self.layout.state);
        match query.first_read() {
            Some(_) => Resolver { stage: Stage::StateFirst, ..self },
            None => self.with_state(query.direct()),
        }
    }

    /// The resolver once the state byte's address has been worked out.
    fn with_state(self, address: u64) -> (next: Self)
        ensures
            next.image == self.image,
            next.paused == self.paused,
            next.stage.steps_left() <= 6,
            forall|snap: Snapshot|
                #[trigger] self.knows_start(snap) && address == self.query_of(
                    self.layout.state,
                ).target_in(snap.words) ==> next.consistent(snap),
    {
        let mid = Resolver { found: ResolvedAddressSet { state: address, ..self.found }, ..self };
        let query = mid.query(mid.layout.level);
        let next = match query.first_read() {
            Some(_) => Resolver { stage: Stage::LevelFirst, ..mid },
            None => mid.with_level(query.direct()),
        };
        assert forall|snap: Snapshot|
            #[trigger] self.knows_start(snap) && address == self.query_of(
                self.layout.state,
            ).target_in(snap.words) implies next.consistent(snap) by {
            assert(mid.knows_state(snap));
        }
        next
    }

    /// The resolver once the level byte's address has been worked out.
    fn with_level(self, address: u64) -> (next: Self)
        ensures
            next.image == self.image,
            next.paused == self.paused,
            next.stage.steps_left() <= 4,
            forall|snap: Snapshot|
                #[trigger] self.knows_state(snap) && address == self.query_of(
                    self.layout.level,
                ).target_in(snap.words) ==> next.consistent(snap),
    {
        let mid = Resolver { found: ResolvedAddressSet { level_id: address, ..self.found }, ..self };
        let next = match mid.layout.zone_select_flag {
            Some(offsets) => {
                let query = mid.query(offsets);
                match query.first_read() {
                    Some(_) => Resolver { stage: Stage::FlagFirst, ..mid },
                    None => mid.with_flag(query.direct()),
                }
            },
            None => mid.with_flag(NULL_ADDRESS),
        };
        assert forall|snap: Snapshot|
            #[trigger] self.knows_state(snap) && address == self.query_of(
                self.layout.level,
            ).target_in(snap.words) implies next.consistent(snap) by {
            assert(mid.knows_level(snap));
        }
        next
    }

    /// The resolver once the zone select flag's address has been worked
    /// out, or set to null for want of such a flag.
    fn with_flag(self, address: u64) -> (next: Self)
        ensures
            next.image == self.image,
            next.paused == self.paused,
            next.stage == Stage::ZoneScan,
            forall|snap: Snapshot|
                #[trigger] self.knows_level(snap) && address == (match self.layout.zone_select_flag {
                    Some(offsets) => self.query_of(offsets).target_in(snap.words),
                    None => NULL_ADDRESS,
                }) ==> next.consistent(snap),
    {
        Resolver {
            stage: Stage::ZoneScan,
            found: ResolvedAddressSet { zone_select_flag: address, ..self.found },
            ..self
        }
    }

    /// The resolver after a scan that it asked for has been answered.
    fn after_match(self, found: Option<u64>) -> (next: Self)
        requires
            !self.paused,
            self.pending() is Scan,
        ensures
            next.image == self.image,
            !next.paused || (self.stage == Stage::DetectNarrow && found.is_none()),
            self.stage == Stage::DetectNarrow && found.is_none() ==> next == (Resolver {
                stage: Stage::DetectWide,
                paused: true,
                ..self
            }),
            !(self.stage == Stage::DetectNarrow && found.is_none()) ==> next.stage.steps_left()
                < self.stage.steps_left(),
            forall|snap: Snapshot|
                #[trigger] self.consistent(snap) && snap.answers(
                    self.pending(),
                    Reply::Match(found),
                ) ==> next.consistent(snap),
    {
        match (self.stage, found) {
            (Stage::DetectWide, Some(at)) => self.detected(BitWidth::Bits64, at),
            (Stage::DetectWide, None) => Resolver { stage: Stage::DetectNarrow, ..self },
            (Stage::DetectNarrow, Some(at)) => self.detected(BitWidth::Bits32, at),
            (Stage::DetectNarrow, None) => Resolver {
                stage: Stage::DetectWide,
                paused: true,
                ..self
            },
            (Stage::ThunkScan, Some(at)) => match self.layout.thunk {
                Some(locator) => Resolver {
                    stage: Stage::ThunkOperand,
                    operand: locator.operand_address(offset(self.image.base_address, at)),
                    ..self
                },
                None => Resolver { stage: Stage::Unavailable, ..self },
            },
            (Stage::ZoneScan, Some(at)) => Resolver {
                stage: Stage::ZoneOperand,
                operand: self.layout.zone_indicator.operand_address(
                    offset(self.image.base_address, at),
                ),
                ..self
            },
            _ => Resolver { stage: Stage::Unavailable, ..self },
        }
    }

    /// The resolver after a read that it asked for has returned `word`.
    fn after_word(self, word: u32) -> (next: Self)
        requires
            !self.paused,
            self.pending() is Read,
        ensures
            next.image == self.image,
            !next.paused,
            next.stage.steps_left() < self.stage.steps_left(),
            forall|snap: Snapshot|
                #[trigger] self.consistent(snap) && snap.answers(
                    self.pending(),
                    Reply::Word(Some(word)),
                ) ==> next.consistent(snap),
    {
        let base = self.image.base_address;
        match self.stage {
            Stage::TableOperand => {
                let mid = Resolver {
                    table: self.layout.table.target(base, self.operand, word),
                    ..self
                };
                let next = mid.enter_thunk();
                assert forall|snap: Snapshot|
                    #[trigger] self.consistent(snap) && snap.answers(
                        self.pending(),
                        Reply::Word(Some(word)),
                    ) implies next.consistent(snap) by {
                    assert(mid.knows_table(snap));
                }
                next
            },
            Stage::ThunkOperand => match self.layout.thunk {
                Some(locator) => {
                    let mid = Resolver { thunk: locator.target(base, self.operand, word), ..self };
                    let next = mid.enter_state();
                    assert forall|snap: Snapshot|
                        #[trigger] self.consistent(snap) && snap.answers(
                            self.pending(),
                            Reply::Word(Some(word)),
                        ) implies next.consistent(snap) by {
                        assert(mid.knows_start(snap));
                    }
                    next
                },
                None => Resolver { stage: Stage::Unavailable, ..self },
            },
            Stage::StateFirst => Resolver { stage: Stage::StateSecond, first: word, ..self },
            Stage::StateSecond => {
                let address = self.query(self.layout.state).finish(self.first, word);
                let next = self.with_state(address);
                assert forall|snap: Snapshot|
                    #[trigger] self.consistent(snap) && snap.answers(
                        self.pending(),
                        Reply::Word(Some(word)),
                    ) implies next.consistent(snap) by {
                    assert(self.knows_start(snap));
                }
                next
            },
            Stage::LevelFirst => Resolver { stage: Stage::LevelSecond, first: word, ..self },
            Stage::LevelSecond => {
                let address = self.query(self.layout.level).finish(self.first, word);
                let next = self.with_level(address);
                assert forall|snap: Snapshot|
                    #[trigger] self.consistent(snap) && snap.answers(
                        self.pending(),
                        Reply::Word(Some(word)),
                    ) implies next.consistent(snap) by {
                    assert(self.knows_state(snap));
                }
                next
            },
            Stage::FlagFirst => Resolver { stage: Stage::FlagSecond, first: word, ..self },
            Stage::FlagSecond => match self.layout.zone_select_flag {
                Some(offsets) => {
                    let address = self.query(offsets).finish(self.first, word);
                    let next = self.with_flag(address);
                    assert forall|snap: Snapshot|
                        #[trigger] self.consistent(snap) && snap.answers(
                            self.pending(),
                            Reply::Word(Some(word)),
                        ) implies next.consistent(snap) by {
                        assert(self.knows_level(snap));
                    }
                    next
                },
                None => Resolver { stage: Stage::Unavailable, ..self },
            },
            Stage::ZoneOperand => Resolver {
                stage: Stage::Finished,
                found: ResolvedAddressSet {
                    zone_indicator: self.layout.zone_indicator.target(base, self.operand, word),
                    ..self.found
                },
                ..self
            },
            _ => Resolver { stage: Stage::Unavailable, ..self },
        }
    }

    /// Takes the reply to the pending request and moves on.
    ///
    /// A reply of another kind than the one asked for is ignored. A failed
    /// read makes the resolver ask for a wait and then for the same read
    /// again. Where neither marker of the detection is found, it asks for a
    /// wait and starts the detection over. A signature of the layout that
    /// matches nowhere ends the resolution as unavailable. Every other
    /// reply brings the resolver at least one step nearer to its end, and
    /// what it has worked out stays what any image gives that has answered
    /// all requests so far.
    pub fn step(&mut self, reply: Reply)
        ensures
            final(self).image == old(self).image,
            !old(self).expects(reply) ==> *final(self) == *old(self),
            old(self).paused && reply == Reply::Resumed ==> *final(self) == (Resolver {
                paused: false,
                ..*old(self)
            }),
            old(self).expects(reply) && reply == Reply::Word(None) ==> *final(self) == (Resolver {
                paused: true,
                ..*old(self)
            }),
            old(self).expects(reply) && old(self).stage == Stage::DetectNarrow && reply
                == Reply::Match(None) ==> *final(self) == (Resolver {
                stage: Stage::DetectWide,
                paused: true,
                ..*old(self)
            }),
            old(self).advances_on(reply) ==> !final(self).paused && final(self).stage.steps_left()
                < old(self).stage.steps_left(),
            forall|snap: Snapshot|
                #[trigger] old(self).consistent(snap) && snap.answers(old(self).pending(), reply)
                    ==> final(self).consistent(snap),
    {
        let now = *self;
        let request = now.request();
        let next = match (request, reply) {
            (Request::Suspend, Reply::Resumed) => Resolver { paused: false, ..now },
            (Request::Scan(_), Reply::Match(found)) => now.after_match(found),
            (Request::Read(_), Reply::Word(Some(word))) => now.after_word(word),
            (Request::Read(_), Reply::Word(None)) => Resolver { paused: true, ..now },
            _ => now,
        };
        *self = next;
    }
}

/// Scans the bytes of the module image for a signature and phrases the
/// outcome as the reply to the resolver's request. The reply is the one
/// that every image with these module bytes gives.
pub fn scan_reply(signature: SignatureId, bytes: &[u8]) -> (reply: Reply)
    ensures
        match reply {
            Reply::Match(Some(found)) => is_first_match(
                bytes@,
                signature.matchers(),
                found as int,
            ),
            Reply::Match(None) => matches_nowhere(bytes@, signature.matchers()),
            _ => false,
        },
        forall|snap: Snapshot| #[trigger]
            snap.shows(bytes@) ==> snap.answers(Request::Scan(signature), reply),
{
    let pattern = signature.pattern();
    let reply = match pattern.scan(bytes) {
        Some(at) => Reply::Match(Some(at as u64)),
        None => Reply::Match(None),
    };
    assert forall|snap: Snapshot| #[trigger] snap.shows(bytes@) implies snap.answers(
        Request::Scan(signature),
        reply,
    ) by {
        match ((snap.matches)(signature), reply) {
            (Some(shown), Reply::Match(Some(found))) => {
                lemma_first_match_unique(
                    bytes@,
                    signature.matchers(),
                    shown as int,
                    found as int,
                );
            },
            (Some(shown), _) => {
                assert(!matches_at(bytes@, signature.matchers(), shown as int));
            },
            (None, Reply::Match(Some(found))) => {
                assert(!matches_at(bytes@, signature.matchers(), found as int));
            },
            _ => {},
        }
    }
    reply
}

/// A resolver that has finished reports the addresses that the image
/// gives which answered its requests.
pub proof fn lemma_finished_is_resolution(resolver: Resolver, snap: Snapshot, outcome: Resolution)
    requires
        resolver.consistent(snap),
        resolver.pending() == Request::Finished(outcome),
    ensures
        snap.resolution(resolver.image) == Some(outcome),
{
}

/// A resolver gives up only where the image that answered its requests
/// shows a pointer width and yet gives no addresses: no layout is known
/// for the build, or a signature of its layout matches nowhere.
pub proof fn lemma_unavailable_is_final(resolver: Resolver, snap: Snapshot)
    requires
        resolver.consistent(snap),
        resolver.pending() == Request::Unavailable,
    ensures
        resolver.stage == Stage::Unavailable,
        snap.width().is_some(),
        snap.resolution(resolver.image).is_none(),
{
}

/// The addresses that an image gives are those of the build that it
/// shows: the tier follows from the width and the image's size, a 64-bit
/// build is never of the `Current` tier, and the zone select flag's
/// address is null on the `Legacy` tier.
pub proof fn lemma_resolution_fits_build(snap: Snapshot, image: ModuleImage)
    ensures
        snap.resolution(image) matches Some(outcome) ==> {
            &&& snap.width() == Some(outcome.width)
            &&& outcome.tier == tier_of(outcome.width, image.size_bytes)
            &&& !(outcome.width == BitWidth::Bits64 && outcome.tier == VersionTier::Current)
            &&& outcome.tier == VersionTier::Legacy ==> outcome.addresses.zone_select_flag
                == NULL_ADDRESS
        },
{
}

} // verus!
