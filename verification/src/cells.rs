//! The observed memory cells and how their raw values decode.

use vstd::prelude::*;
use vstd::std_specs::cmp::PartialEqSpecImpl;

verus! {

/// Coarse mode of the game, decoded from a four-byte tag.
#[derive(Clone, Copy, Debug)]
pub enum ZoneIndicatorKind {
    MainMenu,
    Zones,
    Ending,
    SaveSelect,
    Unknown,
}

/// Tag value of the main menu: the ASCII bytes `Main`, low byte first.
pub const TAG_MAIN_MENU: u32 = 0x6E69614D;

/// Tag value while a level is played: the ASCII bytes `Zone`.
pub const TAG_ZONES: u32 = 0x656E6F5A;

/// Tag value of the ending sequence: the ASCII bytes `Endi`.
pub const TAG_ENDING: u32 = 0x69646E45;

/// Tag value of the save selection screen: the ASCII bytes `Save`.
pub const TAG_SAVE_SELECT: u32 = 0x65766153;

impl ZoneIndicatorKind {
    /// Position of the variant in the declaration.
    pub open spec fn ordinal_of(self) -> int {
        match self {
            ZoneIndicatorKind::MainMenu => 0,
            ZoneIndicatorKind::Zones => 1,
            ZoneIndicatorKind::Ending => 2,
            ZoneIndicatorKind::SaveSelect => 3,
            ZoneIndicatorKind::Unknown => 4,
        }
    }

    /// The indicator that a tag value stands for; every value that is none
    /// of the four known tags stands for `Unknown`.
    pub open spec fn of_tag(tag: u32) -> Self {
        if tag == TAG_MAIN_MENU {
            ZoneIndicatorKind::MainMenu
        } else if tag == TAG_ZONES {
            ZoneIndicatorKind::Zones
        } else if tag == TAG_ENDING {
            ZoneIndicatorKind::Ending
        } else if tag == TAG_SAVE_SELECT {
            ZoneIndicatorKind::SaveSelect
        } else {
            ZoneIndicatorKind::Unknown
        }
    }

    /// Position of the variant in the declaration.
    pub fn ordinal(&self) -> (n: u8)
        ensures
            n == self.ordinal_of(),
    {
        match self {
            ZoneIndicatorKind::MainMenu => 0,
            ZoneIndicatorKind::Zones => 1,
            ZoneIndicatorKind::Ending => 2,
            ZoneIndicatorKind::SaveSelect => 3,
            ZoneIndicatorKind::Unknown => 4,
        }
    }

    /// Decodes a tag value.
    pub fn from_tag(tag: u32) -> (kind: Self)
        ensures
            kind == Self::of_tag(tag),
    {
        match tag {
            TAG_MAIN_MENU => ZoneIndicatorKind::MainMenu,
            TAG_ZONES => ZoneIndicatorKind::Zones,
            TAG_ENDING => ZoneIndicatorKind::Ending,
            TAG_SAVE_SELECT => ZoneIndicatorKind::SaveSelect,
            _ => ZoneIndicatorKind::Unknown,
        }
    }
}

impl PartialEq for ZoneIndicatorKind {
    fn eq(&self, other: &Self) -> (r: bool) {
        self.ordinal() == other.ordinal()
    }
}

impl PartialEqSpecImpl for ZoneIndicatorKind {
    open spec fn obeys_eq_spec() -> bool {
        true
    }

    open spec fn eq_spec(&self, other: &Self) -> bool {
        *self == *other
    }
}

impl Eq for ZoneIndicatorKind {

}

/// The act that is being played, or `Unknown` while none is.
#[derive(Clone, Copy, Debug)]
pub enum ActKind {
    GreenHill1,
    GreenHill2,
    GreenHill3,
    Marble1,
    Marble2,
    Marble3,
    SpringYard1,
    SpringYard2,
    SpringYard3,
    Labyrinth1,
    Labyrinth2,
    Labyrinth3,
    StarLight1,
    StarLight2,
    StarLight3,
    ScrapBrain1,
    ScrapBrain2,
    ScrapBrain3,
    FinalZone,
    Unknown,
}

/// Number of playable acts; level bytes below it name an act.
pub const PLAYABLE_ACTS: u8 = 19;

impl ActKind {
    /// Position of the variant in the declaration: the level byte of a
    /// playable act, and `PLAYABLE_ACTS` for `Unknown`.
    pub open spec fn ordinal_of(self) -> int {
        match self {
            ActKind::GreenHill1 => 0,
            ActKind::GreenHill2 => 1,
            ActKind::GreenHill3 => 2,
            ActKind::Marble1 => 3,
            ActKind::Marble2 => 4,
            ActKind::Marble3 => 5,
            ActKind::SpringYard1 => 6,
            ActKind::SpringYard2 => 7,
            ActKind::SpringYard3 => 8,
            ActKind::Labyrinth1 => 9,
            ActKind::Labyrinth2 => 10,
            ActKind::Labyrinth3 => 11,
            ActKind::StarLight1 => 12,
            ActKind::StarLight2 => 13,
            ActKind::StarLight3 => 14,
            ActKind::ScrapBrain1 => 15,
            ActKind::ScrapBrain2 => 16,
            ActKind::ScrapBrain3 => 17,
            ActKind::FinalZone => 18,
            ActKind::Unknown => 19,
        }
    }

    /// The act that a level byte names; bytes from `PLAYABLE_ACTS` on name none.
    pub open spec fn of_level(level: u8) -> Self {
        if level == 0 {
            ActKind::GreenHill1
        } else if level == 1 {
            ActKind::GreenHill2
        } else if level == 2 {
            ActKind::GreenHill3
        } else if level == 3 {
            ActKind::Marble1
        } else if level == 4 {
            ActKind::Marble2
        } else if level == 5 {
            ActKind::Marble3
        } else if level == 6 {
            ActKind::SpringYard1
        } else if level == 7 {
            ActKind::SpringYard2
        } else if level == 8 {
            ActKind::SpringYard3
        } else if level == 9 {
            ActKind::Labyrinth1
        } else if level == 10 {
            ActKind::Labyrinth2
        } else if level == 11 {
            ActKind::Labyrinth3
        } else if level == 12 {
            ActKind::StarLight1
        } else if level == 13 {
            ActKind::StarLight2
        } else if level == 14 {
            ActKind::StarLight3
        } else if level == 15 {
            ActKind::ScrapBrain1
        } else if level == 16 {
            ActKind::ScrapBrain2
        } else if level == 17 {
            ActKind::ScrapBrain3
        } else if level == 18 {
            ActKind::FinalZone
        } else {
            ActKind::Unknown
        }
    }

    /// The act sample of one tick, given the mode of the game, the sampled
    /// level byte and the act recorded last. During the ending no act is
    /// played. While a level is played the act is the one that the level
    /// byte names, and there is no sample where the byte is missing. In
    /// every other mode the act recorded last is carried forward, and it is
    /// `Unknown` where none was recorded yet.
    pub open spec fn sampled(zone: ZoneIndicatorKind, level: Option<u8>, last: Option<Self>) -> Option<
        Self,
    > {
        match zone {
            ZoneIndicatorKind::Ending => Some(ActKind::Unknown),
            ZoneIndicatorKind::Zones => match level {
                Some(b) => Some(Self::of_level(b)),
                None => None,
            },
            _ => match last {
                Some(act) => Some(act),
                None => Some(ActKind::Unknown),
            },
        }
    }

    /// Position of the variant in the declaration.
    pub fn ordinal(&self) -> (n: u8)
        ensures
            n == self.ordinal_of(),
    {
        match self {
            ActKind::GreenHill1 => 0,
            ActKind::GreenHill2 => 1,
            ActKind::GreenHill3 => 2,
            ActKind::Marble1 => 3,
            ActKind::Marble2 => 4,
            ActKind::Marble3 => 5,
            ActKind::SpringYard1 => 6,
            ActKind::SpringYard2 => 7,
            ActKind::SpringYard3 => 8,
            ActKind::Labyrinth1 => 9,
            ActKind::Labyrinth2 => 10,
            ActKind::Labyrinth3 => 11,
            ActKind::StarLight1 => 12,
            ActKind::StarLight2 => 13,
            ActKind::StarLight3 => 14,
            ActKind::ScrapBrain1 => 15,
            ActKind::ScrapBrain2 => 16,
            ActKind::ScrapBrain3 => 17,
            ActKind::FinalZone => 18,
            ActKind::Unknown => 19,
        }
    }

    /// Decodes a level byte.
    pub fn from_level(level: u8) -> (act: Self)
        ensures
            act == Self::of_level(level),
            level < PLAYABLE_ACTS ==> act.ordinal_of() == level,
            level >= PLAYABLE_ACTS ==> act == ActKind::Unknown,
    {
        match level {
            0 => ActKind::GreenHill1,
            1 => ActKind::GreenHill2,
            2 => ActKind::GreenHill3,
            3 => ActKind::Marble1,
            4 => ActKind::Marble2,
            5 => ActKind::Marble3,
            6 => ActKind::SpringYard1,
            7 => ActKind::SpringYard2,
            8 => ActKind::SpringYard3,
            9 => ActKind::Labyrinth1,
            10 => ActKind::Labyrinth2,
            11 => ActKind::Labyrinth3,
            12 => ActKind::StarLight1,
            13 => ActKind::StarLight2,
            14 => ActKind::StarLight3,
            15 => ActKind::ScrapBrain1,
            16 => ActKind::ScrapBrain2,
            17 => ActKind::ScrapBrain3,
            18 => ActKind::FinalZone,
            _ => ActKind::Unknown,
        }
    }

    /// Decodes the act sample of one tick from the mode of the game, the
    /// sampled level byte and the act recorded last.
    pub fn sample(zone: ZoneIndicatorKind, level: Option<u8>, last: Option<Self>) -> (act: Option<Self>)
        ensures
            act == Self::sampled(zone, level, last),
    {
        match zone {
            ZoneIndicatorKind::Ending => Some(ActKind::Unknown),
            ZoneIndicatorKind::Zones => match level {
                Some(b) => Some(Self::from_level(b)),
                None => None,
            },
            _ => match last {
                Some(act) => Some(act),
                None => Some(ActKind::Unknown),
            },
        }
    }
}

impl PartialEq for ActKind {
    fn eq(&self, other: &Self) -> (r: bool) {
        self.ordinal() == other.ordinal()
    }
}

impl PartialEqSpecImpl for ActKind {
    open spec fn obeys_eq_spec() -> bool {
        true
    }

    open spec fn eq_spec(&self, other: &Self) -> bool {
        *self == *other
    }
}

impl Eq for ActKind {

}

} // verus!
