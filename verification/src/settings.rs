//! The toggles that decide which timer actions are wanted.

use crate::cells::ActKind;
use vstd::prelude::*;

verus! {

/// Names one toggle of the configuration.
#[derive(Clone, Copy, Debug, PartialEq, Eq, Structural)]
pub enum Toggle {
    StartCleanSave,
    StartNewGamePlus,
    Reset,
    GreenHill1,
    GreenHill2,
    GreenHill3,
    Marble1,
    Marble2,
    Marble3,
    SpringYard1,
    SpringYard2,
    SpringYard3,
    Labyrinth1,
    Labyrinth2,
    Labyrinth3,
    StarLight1,
    StarLight2,
    StarLight3,
    ScrapBrain1,
    ScrapBrain2,
    ScrapBrain3,
    FinalZone,
}

/// Number of toggles.
pub const TOGGLE_COUNT: usize = 22;

/// One snapshot of the toggles. Every toggle is on by default.
#[derive(Clone, Copy, Debug, PartialEq, Eq, Structural)]
pub struct SplitConfiguration {
    pub start_clean_save: bool,
    pub start_new_game_plus: bool,
    pub reset: bool,
    pub green_hill_1: bool,
    pub green_hill_2: bool,
    pub green_hill_3: bool,
    pub marble_1: bool,
    pub marble_2: bool,
    pub marble_3: bool,
    pub spring_yard_1: bool,
    pub spring_yard_2: bool,
    pub spring_yard_3: bool,
    pub labyrinth_1: bool,
    pub labyrinth_2: bool,
    pub labyrinth_3: bool,
    pub star_light_1: bool,
    pub star_light_2: bool,
    pub star_light_3: bool,
    pub scrap_brain_1: bool,
    pub scrap_brain_2: bool,
    pub scrap_brain_3: bool,
    pub final_zone: bool,
}

impl Toggle {
    /// The text shown to the user for this toggle.
    pub open spec fn label_text(self) -> Seq<char> {
        match self {
            Toggle::StartCleanSave => "Start --> New Game"@,
            Toggle::StartNewGamePlus => "Start --> New Game+"@,
            Toggle::Reset => "Reset --> Enable auto reset"@,
            Toggle::GreenHill1 => "Green Hill Zone - Act 1"@,
            Toggle::GreenHill2 => "Green Hill Zone - Act 2"@,
            Toggle::GreenHill3 => "Green Hill Zone - Act 3"@,
            Toggle::Marble1 => "Marble Zone - Act 1"@,
            Toggle::Marble2 => "Marble Zone - Act 2"@,
            Toggle::Marble3 => "Marble Zone - Act 3"@,
            Toggle::SpringYard1 => "Spring Yard Zone - Act 1"@,
            Toggle::SpringYard2 => "Spring Yard Zone - Act 2"@,
            Toggle::SpringYard3 => "Spring Yard Zone - Act 3"@,
            Toggle::Labyrinth1 => "Labyrinth Zone - Act 1"@,
            Toggle::Labyrinth2 => "Labyrinth Zone - Act 2"@,
            Toggle::Labyrinth3 => "Labyrinth Zone - Act 3"@,
            Toggle::StarLight1 => "Star Light Zone - Act 1"@,
            Toggle::StarLight2 => "Star Light Zone - Act 2"@,
            Toggle::StarLight3 => "Star Light Zone - Act 3"@,
            Toggle::ScrapBrain1 => "Scrap Brain Zone - Act 1"@,
            Toggle::ScrapBrain2 => "Scrap Brain Zone - Act 2"@,
            Toggle::ScrapBrain3 => "Scrap Brain Zone - Act 3"@,
            Toggle::FinalZone => "Final Zone"@,
        }
    }

    /// The name under which the toggle is stored.
    pub open spec fn key_text(self) -> Seq<char> {
        match self {
            Toggle::StartCleanSave => "start_clean_save"@,
            Toggle::StartNewGamePlus => "start_new_game_plus"@,
            Toggle::Reset => "reset"@,
            Toggle::GreenHill1 => "green_hill_1"@,
            Toggle::GreenHill2 => "green_hill_2"@,
            Toggle::GreenHill3 => "green_hill_3"@,
            Toggle::Marble1 => "marble_1"@,
            Toggle::Marble2 => "marble_2"@,
            Toggle::Marble3 => "marble_3"@,
            Toggle::SpringYard1 => "spring_yard_1"@,
            Toggle::SpringYard2 => "spring_yard_2"@,
            Toggle::SpringYard3 => "spring_yard_3"@,
            Toggle::Labyrinth1 => "labyrinth_1"@,
            Toggle::Labyrinth2 => "labyrinth_2"@,
            Toggle::Labyrinth3 => "labyrinth_3"@,
            Toggle::StarLight1 => "star_light_1"@,
            Toggle::StarLight2 => "star_light_2"@,
            Toggle::StarLight3 => "star_light_3"@,
            Toggle::ScrapBrain1 => "scrap_brain_1"@,
            Toggle::ScrapBrain2 => "scrap_brain_2"@,
            Toggle::ScrapBrain3 => "scrap_brain_3"@,
            Toggle::FinalZone => "final_zone"@,
        }
    }

    /// The toggle named after `act`: the one that gates the split at the
    /// end of that act. `Unknown` has none.
    pub open spec fn of_act(act: ActKind) -> Option<Toggle> {
        match act {
            ActKind::GreenHill1 => Some(Toggle::GreenHill1),
            ActKind::GreenHill2 => Some(Toggle::GreenHill2),
            ActKind::GreenHill3 => Some(Toggle::GreenHill3),
            ActKind::Marble1 => Some(Toggle::Marble1),
            ActKind::Marble2 => Some(Toggle::Marble2),
            ActKind::Marble3 => Some(Toggle::Marble3),
            ActKind::SpringYard1 => Some(Toggle::SpringYard1),
            ActKind::SpringYard2 => Some(Toggle::SpringYard2),
            ActKind::SpringYard3 => Some(Toggle::SpringYard3),
            ActKind::Labyrinth1 => Some(Toggle::Labyrinth1),
            ActKind::Labyrinth2 => Some(Toggle::Labyrinth2),
            ActKind::Labyrinth3 => Some(Toggle::Labyrinth3),
            ActKind::StarLight1 => Some(Toggle::StarLight1),
            ActKind::StarLight2 => Some(Toggle::StarLight2),
            ActKind::StarLight3 => Some(Toggle::StarLight3),
            ActKind::ScrapBrain1 => Some(Toggle::ScrapBrain1),
            ActKind::ScrapBrain2 => Some(Toggle::ScrapBrain2),
            ActKind::ScrapBrain3 => Some(Toggle::ScrapBrain3),
            ActKind::FinalZone => Some(Toggle::FinalZone),
            ActKind::Unknown => None,
        }
    }

    /// The text shown to the user for this toggle.
    pub fn label(&self) -> (text: &'static str)
        ensures
            text@ == self.label_text(),
    {
        match self {
            Toggle::StartCleanSave => "Start --> New Game",
            Toggle::StartNewGamePlus => "Start --> New Game+",
            Toggle::Reset => "Reset --> Enable auto reset",
            Toggle::GreenHill1 => "Green Hill Zone - Act 1",
            Toggle::GreenHill2 => "Green Hill Zone - Act 2",
            Toggle::GreenHill3 => "Green Hill Zone - Act 3",
            Toggle::Marble1 => "Marble Zone - Act 1",
            Toggle::Marble2 => "Marble Zone - Act 2",
            Toggle::Marble3 => "Marble Zone - Act 3",
            Toggle::SpringYard1 => "Spring Yard Zone - Act 1",
            Toggle::SpringYard2 => "Spring Yard Zone - Act 2",
            Toggle::SpringYard3 => "Spring Yard Zone - Act 3",
            Toggle::Labyrinth1 => "Labyrinth Zone - Act 1",
            Toggle::Labyrinth2 => "Labyrinth Zone - Act 2",
            Toggle::Labyrinth3 => "Labyrinth Zone - Act 3",
            Toggle::StarLight1 => "Star Light Zone - Act 1",
            Toggle::StarLight2 => "Star Light Zone - Act 2",
            Toggle::StarLight3 => "Star Light Zone - Act 3",
            Toggle::ScrapBrain1 => "Scrap Brain Zone - Act 1",
            Toggle::ScrapBrain2 => "Scrap Brain Zone - Act 2",
            Toggle::ScrapBrain3 => "Scrap Brain Zone - Act 3",
            Toggle::FinalZone => "Final Zone",
        }
    }

    /// The name under which the toggle is stored.
    pub fn key(&self) -> (text: &'static str)
        ensures
            text@ == self.key_text(),
    {
        match self {
            Toggle::StartCleanSave => "start_clean_save",
            Toggle::StartNewGamePlus => "start_new_game_plus",
            Toggle::Reset => "reset",
            Toggle::GreenHill1 => "green_hill_1",
            Toggle::GreenHill2 => "green_hill_2",
            Toggle::GreenHill3 => "green_hill_3",
            Toggle::Marble1 => "marble_1",
            Toggle::Marble2 => "marble_2",
            Toggle::Marble3 => "marble_3",
            Toggle::SpringYard1 => "spring_yard_1",
            Toggle::SpringYard2 => "spring_yard_2",
            Toggle::SpringYard3 => "spring_yard_3",
            Toggle::Labyrinth1 => "labyrinth_1",
            Toggle::Labyrinth2 => "labyrinth_2",
            Toggle::Labyrinth3 => "labyrinth_3",
            Toggle::StarLight1 => "star_light_1",
            Toggle::StarLight2 => "star_light_2",
            Toggle::StarLight3 => "star_light_3",
            Toggle::ScrapBrain1 => "scrap_brain_1",
            Toggle::ScrapBrain2 => "scrap_brain_2",
            Toggle::ScrapBrain3 => "scrap_brain_3",
            Toggle::FinalZone => "final_zone",
        }
    }

    /// The toggle named after `act`, if there is one.
    pub fn for_act(act: ActKind) -> (toggle: Option<Toggle>)
        ensures
            toggle == Self::of_act(act),
    {
        match act {
            ActKind::GreenHill1 => Some(Toggle::GreenHill1),
            ActKind::GreenHill2 => Some(Toggle::GreenHill2),
            ActKind::GreenHill3 => Some(Toggle::GreenHill3),
            ActKind::Marble1 => Some(Toggle::Marble1),
            ActKind::Marble2 => Some(Toggle::Marble2),
            ActKind::Marble3 => Some(Toggle::Marble3),
            ActKind::SpringYard1 => Some(Toggle::SpringYard1),
            ActKind::SpringYard2 => Some(Toggle::SpringYard2),
            ActKind::SpringYard3 => Some(Toggle::SpringYard3),
            ActKind::Labyrinth1 => Some(Toggle::Labyrinth1),
            ActKind::Labyrinth2 => Some(Toggle::Labyrinth2),
            ActKind::Labyrinth3 => Some(Toggle::Labyrinth3),
            ActKind::StarLight1 => Some(Toggle::StarLight1),
            ActKind::StarLight2 => Some(Toggle::StarLight2),
            ActKind::StarLight3 => Some(Toggle::StarLight3),
            ActKind::ScrapBrain1 => Some(Toggle::ScrapBrain1),
            ActKind::ScrapBrain2 => Some(Toggle::ScrapBrain2),
            ActKind::ScrapBrain3 => Some(Toggle::ScrapBrain3),
            ActKind::FinalZone => Some(Toggle::FinalZone),
            ActKind::Unknown => None,
        }
    }

    /// Every toggle, in the order in which the configuration lists them.
    pub fn all() -> (toggles: Vec<Toggle>)
        ensures
            toggles@ == Self::listing(),
            toggles@.len() == TOGGLE_COUNT,
    {
        vec![
            Toggle::StartCleanSave,
            Toggle::StartNewGamePlus,
            Toggle::Reset,
            Toggle::GreenHill1,
            Toggle::GreenHill2,
            Toggle::GreenHill3,
            Toggle::Marble1,
            Toggle::Marble2,
            Toggle::Marble3,
            Toggle::SpringYard1,
            Toggle::SpringYard2,
            Toggle::SpringYard3,
            Toggle::Labyrinth1,
            Toggle::Labyrinth2,
            Toggle::Labyrinth3,
            Toggle::StarLight1,
            Toggle::StarLight2,
            Toggle::StarLight3,
            Toggle::ScrapBrain1,
            Toggle::ScrapBrain2,
            Toggle::ScrapBrain3,
            Toggle::FinalZone,
        ]
    }

    /// Every toggle, in the order in which the configuration lists them.
    pub open spec fn listing() -> Seq<Toggle> {
        seq![
            Toggle::StartCleanSave,
            Toggle::StartNewGamePlus,
            Toggle::Reset,
            Toggle::GreenHill1,
            Toggle::GreenHill2,
            Toggle::GreenHill3,
            Toggle::Marble1,
            Toggle::Marble2,
            Toggle::Marble3,
            Toggle::SpringYard1,
            Toggle::SpringYard2,
            Toggle::SpringYard3,
            Toggle::Labyrinth1,
            Toggle::Labyrinth2,
            Toggle::Labyrinth3,
            Toggle::StarLight1,
            Toggle::StarLight2,
            Toggle::StarLight3,
            Toggle::ScrapBrain1,
            Toggle::ScrapBrain2,
            Toggle::ScrapBrain3,
            Toggle::FinalZone,
        ]
    }
}

/// `value` where `hit` holds, and `kept` elsewhere.
fn replaced(hit: bool, value: bool, kept: bool) -> (r: bool)
    ensures
        r == if hit {
            value
        } else {
            kept
        },
{
    if hit {
        value
    } else {
        kept
    }
}

impl SplitConfiguration {
    /// The value of one toggle.
    pub open spec fn value_of(self, toggle: Toggle) -> bool {
        match toggle {
            Toggle::StartCleanSave => self.start_clean_save,
            Toggle::StartNewGamePlus => self.start_new_game_plus,
            Toggle::Reset => self.reset,
            Toggle::GreenHill1 => self.green_hill_1,
            Toggle::GreenHill2 => self.green_hill_2,
            Toggle::GreenHill3 => self.green_hill_3,
            Toggle::Marble1 => self.marble_1,
            Toggle::Marble2 => self.marble_2,
            Toggle::Marble3 => self.marble_3,
            Toggle::SpringYard1 => self.spring_yard_1,
            Toggle::SpringYard2 => self.spring_yard_2,
            Toggle::SpringYard3 => self.spring_yard_3,
            Toggle::Labyrinth1 => self.labyrinth_1,
            Toggle::Labyrinth2 => self.labyrinth_2,
            Toggle::Labyrinth3 => self.labyrinth_3,
            Toggle::StarLight1 => self.star_light_1,
            Toggle::StarLight2 => self.star_light_2,
            Toggle::StarLight3 => self.star_light_3,
            Toggle::ScrapBrain1 => self.scrap_brain_1,
            Toggle::ScrapBrain2 => self.scrap_brain_2,
            Toggle::ScrapBrain3 => self.scrap_brain_3,
            Toggle::FinalZone => self.final_zone,
        }
    }

    /// The configuration with one toggle replaced.
    pub open spec fn with_value(self, toggle: Toggle, value: bool) -> Self {
        SplitConfiguration {
            start_clean_save: if toggle == Toggle::StartCleanSave {
                value
            } else {
                self.start_clean_save
            },
            start_new_game_plus: if toggle == Toggle::StartNewGamePlus {
                value
            } else {
                self.start_new_game_plus
            },
            reset: if toggle == Toggle::Reset {
                value
            } else {
                self.reset
            },
            green_hill_1: if toggle == Toggle::GreenHill1 {
                value
            } else {
                self.green_hill_1
            },
            green_hill_2: if toggle == Toggle::GreenHill2 {
                value
            } else {
                self.green_hill_2
            },
            green_hill_3: if toggle == Toggle::GreenHill3 {
                value
            } else {
                self.green_hill_3
            },
            marble_1: if toggle == Toggle::Marble1 {
                value
            } else {
                self.marble_1
            },
            marble_2: if toggle == Toggle::Marble2 {
                value
            } else {
                self.marble_2
            },
            marble_3: if toggle == Toggle::Marble3 {
                value
            } else {
                self.marble_3
            },
            spring_yard_1: if toggle == Toggle::SpringYard1 {
                value
            } else {
                self.spring_yard_1
            },
            spring_yard_2: if toggle == Toggle::SpringYard2 {
                value
            } else {
                self.spring_yard_2
            },
            spring_yard_3: if toggle == Toggle::SpringYard3 {
                value
            } else {
                self.spring_yard_3
            },
            labyrinth_1: if toggle == Toggle::Labyrinth1 {
                value
            } else {
                self.labyrinth_1
            },
            labyrinth_2: if toggle == Toggle::Labyrinth2 {
                value
            } else {
                self.labyrinth_2
            },
            labyrinth_3: if toggle == Toggle::Labyrinth3 {
                value
            } else {
                self.labyrinth_3
            },
            star_light_1: if toggle == Toggle::StarLight1 {
                value
            } else {
                self.star_light_1
            },
            star_light_2: if toggle == Toggle::StarLight2 {
                value
            } else {
                self.star_light_2
            },
            star_light_3: if toggle == Toggle::StarLight3 {
                value
            } else {
                self.star_light_3
            },
            scrap_brain_1: if toggle == Toggle::ScrapBrain1 {
                value
            } else {
                self.scrap_brain_1
            },
            scrap_brain_2: if toggle == Toggle::ScrapBrain2 {
                value
            } else {
                self.scrap_brain_2
            },
            scrap_brain_3: if toggle == Toggle::ScrapBrain3 {
                value
            } else {
                self.scrap_brain_3
            },
            final_zone: if toggle == Toggle::FinalZone {
                value
            } else {
                self.final_zone
            },
        }
    }

    /// Whether the end of `act` is to be split: the value of the toggle
    /// named after the act, and `false` for `Unknown`.
    pub open spec fn wants_split_after(self, act: ActKind) -> bool {
        match Toggle::of_act(act) {
            Some(toggle) => self.value_of(toggle),
            None => false,
        }
    }

    /// A configuration with every toggle set to `value`.
    pub fn uniform(value: bool) -> (cfg: Self)
        ensures
            forall|toggle: Toggle| cfg.value_of(toggle) == value,
    {
        SplitConfiguration {
            start_clean_save: value,
            start_new_game_plus: value,
            reset: value,
            green_hill_1: value,
            green_hill_2: value,
            green_hill_3: value,
            marble_1: value,
            marble_2: value,
            marble_3: value,
            spring_yard_1: value,
            spring_yard_2: value,
            spring_yard_3: value,
            labyrinth_1: value,
            labyrinth_2: value,
            labyrinth_3: value,
            star_light_1: value,
            star_light_2: value,
            star_light_3: value,
            scrap_brain_1: value,
            scrap_brain_2: value,
            scrap_brain_3: value,
            final_zone: value,
        }
    }

    /// The value of one toggle.
    pub fn get(&self, toggle: Toggle) -> (value: bool)
        ensures
            value == self.value_of(toggle),
    {
        match toggle {
            Toggle::StartCleanSave => self.start_clean_save,
            Toggle::StartNewGamePlus => self.start_new_game_plus,
            Toggle::Reset => self.reset,
            Toggle::GreenHill1 => self.green_hill_1,
            Toggle::GreenHill2 => self.green_hill_2,
            Toggle::GreenHill3 => self.green_hill_3,
            Toggle::Marble1 => self.marble_1,
            Toggle::Marble2 => self.marble_2,
            Toggle::Marble3 => self.marble_3,
            Toggle::SpringYard1 => self.spring_yard_1,
            Toggle::SpringYard2 => self.spring_yard_2,
            Toggle::SpringYard3 => self.spring_yard_3,
            Toggle::Labyrinth1 => self.labyrinth_1,
            Toggle::Labyrinth2 => self.labyrinth_2,
            Toggle::Labyrinth3 => self.labyrinth_3,
            Toggle::StarLight1 => self.star_light_1,
            Toggle::StarLight2 => self.star_light_2,
            Toggle::StarLight3 => self.star_light_3,
            Toggle::ScrapBrain1 => self.scrap_brain_1,
            Toggle::ScrapBrain2 => self.scrap_brain_2,
            Toggle::ScrapBrain3 => self.scrap_brain_3,
            Toggle::FinalZone => self.final_zone,
        }
    }

    /// Sets one toggle and leaves the others as they are.
    pub fn set(&mut self, toggle: Toggle, value: bool)
        ensures
            *final(self) == old(self).with_value(toggle, value),
    {
        *self = SplitConfiguration {
            start_clean_save: replaced(toggle == Toggle::StartCleanSave, value, self.start_clean_save),
            start_new_game_plus: replaced(toggle == Toggle::StartNewGamePlus, value, self.start_new_game_plus),
            reset: replaced(toggle == Toggle::Reset, value, self.reset),
            green_hill_1: replaced(toggle == Toggle::GreenHill1, value, self.green_hill_1),
            green_hill_2: replaced(toggle == Toggle::GreenHill2, value, self.green_hill_2),
            green_hill_3: replaced(toggle == Toggle::GreenHill3, value, self.green_hill_3),
            marble_1: replaced(toggle == Toggle::Marble1, value, self.marble_1),
            marble_2: replaced(toggle == Toggle::Marble2, value, self.marble_2),
            marble_3: replaced(toggle == Toggle::Marble3, value, self.marble_3),
            spring_yard_1: replaced(toggle == Toggle::SpringYard1, value, self.spring_yard_1),
            spring_yard_2: replaced(toggle == Toggle::SpringYard2, value, self.spring_yard_2),
            spring_yard_3: replaced(toggle == Toggle::SpringYard3, value, self.spring_yard_3),
            labyrinth_1: replaced(toggle == Toggle::Labyrinth1, value, self.labyrinth_1),
            labyrinth_2: replaced(toggle == Toggle::Labyrinth2, value, self.labyrinth_2),
            labyrinth_3: replaced(toggle == Toggle::Labyrinth3, value, self.labyrinth_3),
            star_light_1: replaced(toggle == Toggle::StarLight1, value, self.star_light_1),
            star_light_2: replaced(toggle == Toggle::StarLight2, value, self.star_light_2),
            star_light_3: replaced(toggle == Toggle::StarLight3, value, self.star_light_3),
            scrap_brain_1: replaced(toggle == Toggle::ScrapBrain1, value, self.scrap_brain_1),
            scrap_brain_2: replaced(toggle == Toggle::ScrapBrain2, value, self.scrap_brain_2),
            scrap_brain_3: replaced(toggle == Toggle::ScrapBrain3, value, self.scrap_brain_3),
            final_zone: replaced(toggle == Toggle::FinalZone, value, self.final_zone),
        };
    }

    /// Whether the end of `act` is to be split.
    pub fn splits_after(&self, act: ActKind) -> (wanted: bool)
        ensures
            wanted == self.wants_split_after(act),
    {
        match Toggle::for_act(act) {
            Some(toggle) => self.get(toggle),
            None => false,
        }
    }
}

/// Replacing one toggle gives that toggle the new value and keeps the value
/// of every other toggle.
pub proof fn lemma_with_value_changes_one(
    cfg: SplitConfiguration,
    toggle: Toggle,
    value: bool,
    other: Toggle,
)
    ensures
        cfg.with_value(toggle, value).value_of(toggle) == value,
        other != toggle ==> cfg.with_value(toggle, value).value_of(other) == cfg.value_of(other),
{
    match toggle {
        Toggle::StartCleanSave => {},
        Toggle::StartNewGamePlus => {},
        Toggle::Reset => {},
        Toggle::GreenHill1 => {},
        Toggle::GreenHill2 => {},
        Toggle::GreenHill3 => {},
        Toggle::Marble1 => {},
        Toggle::Marble2 => {},
        Toggle::Marble3 => {},
        Toggle::SpringYard1 => {},
        Toggle::SpringYard2 => {},
        Toggle::SpringYard3 => {},
        Toggle::Labyrinth1 => {},
        Toggle::Labyrinth2 => {},
        Toggle::Labyrinth3 => {},
        Toggle::StarLight1 => {},
        Toggle::StarLight2 => {},
        Toggle::StarLight3 => {},
        Toggle::ScrapBrain1 => {},
        Toggle::ScrapBrain2 => {},
        Toggle::ScrapBrain3 => {},
        Toggle::FinalZone => {},
    }
}

impl Default for SplitConfiguration {
    /// Every toggle on.
    fn default() -> (cfg: Self)
        ensures
            forall|toggle: Toggle| cfg.value_of(toggle),
    {
        SplitConfiguration::uniform(true)
    }
}

} // verus!
