//! The decision engine: from the watchers' snapshots, the configuration and
//! the version tier to the three timer decisions.

use crate::cells::{ActKind, ZoneIndicatorKind, PLAYABLE_ACTS};
use crate::settings::SplitConfiguration;
use crate::tier::VersionTier;
use crate::watcher::{Pair, Watcher};
use vstd::prelude::*;

verus! {

/// The four watched cells.
#[derive(Clone, Copy, Debug)]
pub struct Watchers {
    pub state: Watcher<u8>,
    pub act: Watcher<ActKind>,
    pub zone_select_flag: Watcher<u8>,
    pub zone_indicator: Watcher<ZoneIndicatorKind>,
}

/// The decoded values of the four cells at one moment.
#[derive(Clone, Copy, Debug, PartialEq, Eq)]
pub struct RawGameState {
    pub state_byte: u8,
    pub zone_select_flag: u8,
    pub zone_indicator: ZoneIndicatorKind,
    pub act: ActKind,
}

/// What the memory reader returned for one tick; `None` is a failed read.
#[derive(Clone, Copy, Debug)]
pub struct Samples {
    pub state: Option<u8>,
    pub zone_select_flag: Option<u8>,
    pub zone_tag: Option<u32>,
    pub level: Option<u8>,
}

/// What the host timer is doing.
#[derive(Clone, Copy, Debug, PartialEq, Eq, Structural)]
pub enum TimerPhase {
    NotRunning,
    Running,
    Paused,
    Ended,
}

/// The command to issue to the host timer after one tick.
#[derive(Clone, Copy, Debug, PartialEq, Eq, Structural)]
pub enum TimerAction {
    Nothing,
    Start,
    Split,
    Reset,
}

impl Watchers {
    /// Whether no cell has been sampled yet.
    pub open spec fn is_empty(self) -> bool {
        &&& self.state.pair.is_none()
        &&& self.act.pair.is_none()
        &&& self.zone_select_flag.pair.is_none()
        &&& self.zone_indicator.pair.is_none()
    }

    /// The sample that the zone select flag's watcher takes: on the
    /// `Current` tier what was read; on the `Legacy` tier, which has no such
    /// cell, always zero.
    pub open spec fn flag_sample(tier: VersionTier, read: Option<u8>) -> Option<u8> {
        match tier {
            VersionTier::Current => read,
            VersionTier::Legacy => Some(0u8),
        }
    }

    /// The sample that the zone indicator's watcher takes.
    pub open spec fn zone_sample(tag: Option<u32>) -> Option<ZoneIndicatorKind> {
        match tag {
            Some(t) => Some(ZoneIndicatorKind::of_tag(t)),
            None => None,
        }
    }

    /// The act watcher after one tick, given the zone indicator's watcher
    /// as it is after the same tick. Without any zone indicator no act is
    /// decoded.
    pub open spec fn act_fed(
        act: Watcher<ActKind>,
        zone: Watcher<ZoneIndicatorKind>,
        level: Option<u8>,
    ) -> Watcher<ActKind> {
        match zone.pair {
            Some(z) => act.updated(
                ActKind::sampled(
                    z.current,
                    level,
                    match act.pair {
                        Some(a) => Some(a.current),
                        None => None,
                    },
                ),
            ),
            None => act,
        }
    }

    /// The watchers after the samples of one tick. A failed read leaves its
    /// watcher as it was.
    pub open spec fn fed(self, tier: VersionTier, samples: Samples) -> Self {
        let zone = self.zone_indicator.updated(Self::zone_sample(samples.zone_tag));
        Watchers {
            state: self.state.updated(samples.state),
            act: Self::act_fed(self.act, zone, samples.level),
            zone_select_flag: self.zone_select_flag.updated(
                Self::flag_sample(tier, samples.zone_select_flag),
            ),
            zone_indicator: zone,
        }
    }

    /// The current values of the four cells, once each has been sampled.
    pub open spec fn current_state(self) -> Option<RawGameState> {
        match (self.state.pair, self.zone_select_flag.pair, self.zone_indicator.pair, self.act.pair) {
            (Some(state), Some(flag), Some(zone), Some(act)) => Some(
                RawGameState {
                    state_byte: state.current,
                    zone_select_flag: flag.current,
                    zone_indicator: zone.current,
                    act: act.current,
                },
            ),
            _ => None,
        }
    }

    /// The current values of the four cells, or `None` while one of them
    /// has not been sampled.
    pub fn snapshot(&self) -> (state: Option<RawGameState>)
        ensures
            state == self.current_state(),
    {
        match (self.state.pair, self.zone_select_flag.pair, self.zone_indicator.pair, self.act.pair) {
            (Some(state), Some(flag), Some(zone), Some(act)) => Some(
                RawGameState {
                    state_byte: state.current,
                    zone_select_flag: flag.current,
                    zone_indicator: zone.current,
                    act: act.current,
                },
            ),
            _ => None,
        }
    }

    /// Four empty watchers.
    pub fn new() -> (w: Self)
        ensures
            w.is_empty(),
    {
        Watchers {
            state: Watcher::new(),
            act: Watcher::new(),
            zone_select_flag: Watcher::new(),
            zone_indicator: Watcher::new(),
        }
    }

    /// Feeds the samples of one tick into the four watchers.
    pub fn update(&mut self, tier: VersionTier, samples: Samples)
        ensures
            *final(self) == old(self).fed(tier, samples),
    {
        let mut state = self.state;
        let mut flag = self.zone_select_flag;
        let mut zone = self.zone_indicator;
        let mut act = self.act;
        state.update(samples.state);
        match tier {
            VersionTier::Current => {
                flag.update(samples.zone_select_flag);
            },
            VersionTier::Legacy => {
                flag.update_infallible(0);
            },
        }
        let zone_now = match samples.zone_tag {
            Some(tag) => Some(zone.update_infallible(ZoneIndicatorKind::from_tag(tag))),
            None => zone.pair,
        };
        match zone_now {
            Some(z) => {
                let last = act.current_value();
                act.update(ActKind::sample(z.current, samples.level, last));
            },
            None => {},
        }
        *self = Watchers { state, act, zone_select_flag: flag, zone_indicator: zone };
    }
}

/// Value of the state byte just before a reset.
pub open spec fn pre_reset_state(tier: VersionTier) -> u8 {
    match tier {
        VersionTier::Legacy => 200,
        VersionTier::Current => 13,
    }
}

/// Value of the state byte just after a reset.
pub open spec fn post_reset_state(tier: VersionTier) -> u8 {
    match tier {
        VersionTier::Legacy => 201,
        VersionTier::Current => 14,
    }
}

/// Whether the timer is to be reset: the master toggle is on, the state
/// byte went from the tier's pre-reset value to its post-reset value, and
/// the game shows the save selection.
pub open spec fn should_reset(w: Watchers, cfg: SplitConfiguration, tier: VersionTier) -> bool {
    &&& cfg.reset
    &&& w.state.pair matches Some(s)
    &&& s.previous == pre_reset_state(tier)
    &&& s.current == post_reset_state(tier)
    &&& w.zone_indicator.pair matches Some(z)
    &&& z.current == ZoneIndicatorKind::SaveSelect
}

/// Whether the act pair is a transition that may split. Into a playable
/// act: from the act just before it. Into `Unknown`, which is the end of
/// the run: from any other act.
pub open spec fn is_split_transition(acts: Pair<ActKind>) -> bool {
    if acts.current == ActKind::Unknown {
        acts.previous != ActKind::Unknown
    } else {
        acts.previous.ordinal_of() + 1 == acts.current.ordinal_of()
    }
}

/// Whether the toggle that gates the split into `current` is on: for a
/// playable act the toggle named after the act before it, which is
/// `previous` on a split transition; for `Unknown` the toggle of the final
/// zone.
pub open spec fn split_wanted(cfg: SplitConfiguration, acts: Pair<ActKind>) -> bool {
    if acts.current == ActKind::Unknown {
        cfg.final_zone
    } else {
        cfg.wants_split_after(acts.previous)
    }
}

/// Whether the timer is to be split.
pub open spec fn should_split(w: Watchers, cfg: SplitConfiguration) -> bool {
    &&& w.act.pair matches Some(acts)
    &&& is_split_transition(acts)
    &&& split_wanted(cfg, acts)
}

/// Whether a run on a clean save has begun.
pub open spec fn clean_save_begins(
    tier: VersionTier,
    state: Pair<u8>,
    zone: Pair<ZoneIndicatorKind>,
) -> bool {
    match tier {
        VersionTier::Legacy => {
            ||| (state.previous != state.current && state.current == 2 && zone.current
                == ZoneIndicatorKind::SaveSelect)
            ||| (state.previous == 6 && state.current == 7)
        },
        VersionTier::Current => {
            ||| (state.previous == 3 && state.current == 7 && zone.current
                == ZoneIndicatorKind::SaveSelect)
            ||| (state.previous == 10 && state.current == 11)
        },
    }
}

/// Whether a new-game-plus run has begun. Only the `Current` tier consults
/// the zone select flag.
pub open spec fn new_game_plus_begins(tier: VersionTier, state: Pair<u8>, flag: Pair<u8>) -> bool {
    match tier {
        VersionTier::Legacy => state.previous == 8 && state.current == 9,
        VersionTier::Current => state.previous == 2 && state.current == 6 && flag.current == 0,
    }
}

/// Whether the timer is to be started.
pub open spec fn should_start(w: Watchers, cfg: SplitConfiguration, tier: VersionTier) -> bool {
    &&& w.state.pair matches Some(state)
    &&& w.zone_select_flag.pair matches Some(flag)
    &&& w.zone_indicator.pair matches Some(zone)
    &&& {
        ||| (cfg.start_clean_save && clean_save_begins(tier, state, zone))
        ||| (cfg.start_new_game_plus && new_game_plus_begins(tier, state, flag))
    }
}

/// The command of one tick. While the timer runs or is paused: reset comes
/// first, and split only where reset did not fire. While it does not run:
/// start. After the end of a run: nothing.
pub open spec fn action_of(
    phase: TimerPhase,
    w: Watchers,
    cfg: SplitConfiguration,
    tier: VersionTier,
) -> TimerAction {
    match phase {
        TimerPhase::Running | TimerPhase::Paused => if should_reset(w, cfg, tier) {
            TimerAction::Reset
        } else if should_split(w, cfg) {
            TimerAction::Split
        } else {
            TimerAction::Nothing
        },
        TimerPhase::NotRunning => if should_start(w, cfg, tier) {
            TimerAction::Start
        } else {
            TimerAction::Nothing
        },
        TimerPhase::Ended => TimerAction::Nothing,
    }
}

/// Decides whether to reset the timer.
pub fn reset(watchers: &Watchers, settings: &SplitConfiguration, tier: VersionTier) -> (fire: bool)
    ensures
        fire == should_reset(*watchers, *settings, tier),
{
    if !settings.reset {
        return false;
    }
    let (from, to): (u8, u8) = match tier {
        VersionTier::Legacy => (200, 201),
        VersionTier::Current => (13, 14),
    };
    let state_went = match watchers.state.pair {
        Some(s) => s.changed_from_to(&from, &to),
        None => false,
    };
    let at_save_select = match watchers.zone_indicator.pair {
        Some(z) => z.current == ZoneIndicatorKind::SaveSelect,
        None => false,
    };
    state_went && at_save_select
}

/// Decides whether to split the timer.
pub fn split(watchers: &Watchers, settings: &SplitConfiguration) -> (fire: bool)
    ensures
        fire == should_split(*watchers, *settings),
{
    let acts = match watchers.act.pair {
        Some(acts) => acts,
        None => {
            return false;
        },
    };
    let from: u8 = acts.previous.ordinal();
    let to: u8 = acts.current.ordinal();
    if to == PLAYABLE_ACTS {
        settings.final_zone && from != PLAYABLE_ACTS
    } else {
        from + 1 == to && settings.splits_after(acts.previous)
    }
}

/// Decides whether to start the timer.
pub fn start(watchers: &Watchers, settings: &SplitConfiguration, tier: VersionTier) -> (fire: bool)
    ensures
        fire == should_start(*watchers, *settings, tier),
{
    let state = match watchers.state.pair {
        Some(state) => state,
        None => {
            return false;
        },
    };
    let flag = match watchers.zone_select_flag.pair {
        Some(flag) => flag,
        None => {
            return false;
        },
    };
    let zone = match watchers.zone_indicator.pair {
        Some(zone) => zone,
        None => {
            return false;
        },
    };
    let at_save_select = zone.current == ZoneIndicatorKind::SaveSelect;
    match tier {
        VersionTier::Legacy => {
            let from_save_file = state.changed() && state.current == 2 && at_save_select;
            let without_save_file = state.previous == 6 && state.current == 7;
            let new_game_plus = state.previous == 8 && state.current == 9;
            (settings.start_clean_save && (from_save_file || without_save_file)) || (
            settings.start_new_game_plus && new_game_plus)
        },
        VersionTier::Current => {
            let from_save_file = state.previous == 3 && state.current == 7 && at_save_select;
            let without_save_file = state.previous == 10 && state.current == 11;
            let new_game_plus = state.previous == 2 && state.current == 6 && flag.current == 0;
            (settings.start_clean_save && (from_save_file || without_save_file)) || (
            settings.start_new_game_plus && new_game_plus)
        },
    }
}

/// Decides the command of one tick from the timer's phase and the
/// snapshots.
pub fn decide(
    phase: TimerPhase,
    watchers: &Watchers,
    settings: &SplitConfiguration,
    tier: VersionTier,
) -> (action: TimerAction)
    ensures
        action == action_of(phase, *watchers, *settings, tier),
{
    match phase {
        TimerPhase::Running | TimerPhase::Paused => {
            if reset(watchers, settings, tier) {
                TimerAction::Reset
            } else if split(watchers, settings) {
                TimerAction::Split
            } else {
                TimerAction::Nothing
            }
        },
        TimerPhase::NotRunning => {
            if start(watchers, settings, tier) {
                TimerAction::Start
            } else {
                TimerAction::Nothing
            }
        },
        TimerPhase::Ended => TimerAction::Nothing,
    }
}

/// The split decision as a table keyed by the current act: each playable
/// act but the first names the toggle and the previous act that it needs;
/// `Unknown` needs the toggle of the final zone and any other previous
/// act; the first act never splits.
pub open spec fn split_table(cfg: SplitConfiguration, acts: Pair<ActKind>) -> bool {
    match acts.current {
            ActKind::GreenHill2 => cfg.green_hill_1 && acts.previous == ActKind::GreenHill1,
            ActKind::GreenHill3 => cfg.green_hill_2 && acts.previous == ActKind::GreenHill2,
            ActKind::Marble1 => cfg.green_hill_3 && acts.previous == ActKind::GreenHill3,
            ActKind::Marble2 => cfg.marble_1 && acts.previous == ActKind::Marble1,
            ActKind::Marble3 => cfg.marble_2 && acts.previous == ActKind::Marble2,
            ActKind::SpringYard1 => cfg.marble_3 && acts.previous == ActKind::Marble3,
            ActKind::SpringYard2 => cfg.spring_yard_1 && acts.previous == ActKind::SpringYard1,
            ActKind::SpringYard3 => cfg.spring_yard_2 && acts.previous == ActKind::SpringYard2,
            ActKind::Labyrinth1 => cfg.spring_yard_3 && acts.previous == ActKind::SpringYard3,
            ActKind::Labyrinth2 => cfg.labyrinth_1 && acts.previous == ActKind::Labyrinth1,
            ActKind::Labyrinth3 => cfg.labyrinth_2 && acts.previous == ActKind::Labyrinth2,
            ActKind::StarLight1 => cfg.labyrinth_3 && acts.previous == ActKind::Labyrinth3,
            ActKind::StarLight2 => cfg.star_light_1 && acts.previous == ActKind::StarLight1,
            ActKind::StarLight3 => cfg.star_light_2 && acts.previous == ActKind::StarLight2,
            ActKind::ScrapBrain1 => cfg.star_light_3 && acts.previous == ActKind::StarLight3,
            ActKind::ScrapBrain2 => cfg.scrap_brain_1 && acts.previous == ActKind::ScrapBrain1,
            ActKind::ScrapBrain3 => cfg.scrap_brain_2 && acts.previous == ActKind::ScrapBrain2,
            ActKind::FinalZone => cfg.scrap_brain_3 && acts.previous == ActKind::ScrapBrain3,
        ActKind::Unknown => cfg.final_zone && acts.previous != acts.current,
        ActKind::GreenHill1 => false,
    }
}

/// The split decision is the one that the table gives, row by row.
pub proof fn lemma_split_follows_table(w: Watchers, cfg: SplitConfiguration)
    ensures
        should_split(w, cfg) == match w.act.pair {
            Some(acts) => split_table(cfg, acts),
            None => false,
        },
{
}

/// Without any sample no decision fires, whatever the timer does.
pub proof fn lemma_no_sample_no_action(
    phase: TimerPhase,
    w: Watchers,
    cfg: SplitConfiguration,
    tier: VersionTier,
)
    requires
        w.is_empty(),
    ensures
        !should_start(w, cfg, tier),
        !should_split(w, cfg),
        !should_reset(w, cfg, tier),
        action_of(phase, w, cfg, tier) == TimerAction::Nothing,
{
}

/// Reset and start never fire on the same snapshots: the state byte after
/// a reset is none of those that begin a run.
pub proof fn lemma_reset_excludes_start(w: Watchers, cfg: SplitConfiguration, tier: VersionTier)
    ensures
        !(should_reset(w, cfg, tier) && should_start(w, cfg, tier)),
{
}

/// On the `Legacy` tier, with every cell sampled, the state byte going from
/// 6 to 7 starts the timer where the clean-save toggle is on, whatever the
/// other cells hold.
pub proof fn lemma_legacy_clean_start(w: Watchers, cfg: SplitConfiguration)
    requires
        w.state.pair == Some(Pair { previous: 6u8, current: 7u8 }),
        w.zone_select_flag.pair.is_some(),
        w.zone_indicator.pair.is_some(),
        cfg.start_clean_save,
    ensures
        should_start(w, cfg, VersionTier::Legacy),
        action_of(TimerPhase::NotRunning, w, cfg, VersionTier::Legacy) == TimerAction::Start,
{
}

/// The transition from the first act to the second splits exactly where
/// the toggle of the first act is on.
pub proof fn lemma_first_act_split_is_gated(w: Watchers, cfg: SplitConfiguration)
    requires
        w.act.pair == Some(
            Pair { previous: ActKind::GreenHill1, current: ActKind::GreenHill2 },
        ),
    ensures
        should_split(w, cfg) == cfg.green_hill_1,
{
}

/// On the `Current` tier, with the reset toggle on and the state byte going
/// from 13 to 14, the timer is reset exactly where the game shows the save
/// selection.
pub proof fn lemma_current_reset_is_gated(w: Watchers, cfg: SplitConfiguration)
    requires
        w.state.pair == Some(Pair { previous: 13u8, current: 14u8 }),
        w.zone_indicator.pair.is_some(),
        cfg.reset,
    ensures
        should_reset(w, cfg, VersionTier::Current) == (w.zone_indicator.pair.unwrap().current
            == ZoneIndicatorKind::SaveSelect),
{
}

/// A transition into `Unknown` splits, where the toggle of the final zone
/// is on, exactly if the previous act was not `Unknown` already.
pub proof fn lemma_final_split(w: Watchers, cfg: SplitConfiguration, previous: ActKind)
    requires
        w.act.pair == Some(Pair { previous, current: ActKind::Unknown }),
        cfg.final_zone,
    ensures
        should_split(w, cfg) == (previous != ActKind::Unknown),
{
}

/// On the `Legacy` tier the start decision does not depend on what the
/// zone select flag's watcher holds, so that the zero fed in place of the
/// missing cell is never taken for a sample.
pub proof fn lemma_legacy_start_ignores_flag(
    w: Watchers,
    cfg: SplitConfiguration,
    flag: Pair<u8>,
    other: Pair<u8>,
)
    ensures
        should_start(
            Watchers { zone_select_flag: Watcher { pair: Some(flag) }, ..w },
            cfg,
            VersionTier::Legacy,
        ) == should_start(
            Watchers { zone_select_flag: Watcher { pair: Some(other) }, ..w },
            cfg,
            VersionTier::Legacy,
        ),
{
}

/// On the `Current` tier the zone select flag's watcher takes nothing but
/// what was read: a failed read feeds it no zero.
pub proof fn lemma_current_flag_is_sampled(w: Watchers, samples: Samples)
    ensures
        w.fed(VersionTier::Current, samples).zone_select_flag == w.zone_select_flag.updated(
            samples.zone_select_flag,
        ),
        samples.zone_select_flag.is_none() ==> w.fed(
            VersionTier::Current,
            samples,
        ).zone_select_flag == w.zone_select_flag,
{
}

/// A tick on which every read fails leaves the four watchers as they were,
/// but for the zero that the `Legacy` tier feeds to the zone select flag
/// and for the act carried forward outside of levels.
pub proof fn lemma_failed_reads_keep_cells(w: Watchers, tier: VersionTier)
    ensures
        ({
            let after = w.fed(
                tier,
                Samples { state: None, zone_select_flag: None, zone_tag: None, level: None },
            );
            &&& after.state == w.state
            &&& after.zone_indicator == w.zone_indicator
            &&& tier == VersionTier::Current ==> after.zone_select_flag == w.zone_select_flag
        }),
{
}

/// The decisions are functions of the snapshots, the configuration and the
/// tier: asked twice about the same, the engine answers the same.
pub proof fn lemma_same_snapshots_same_decision(
    phase: TimerPhase,
    w: Watchers,
    again: Watchers,
    cfg: SplitConfiguration,
    tier: VersionTier,
)
    requires
        again == w,
    ensures
        should_start(again, cfg, tier) == should_start(w, cfg, tier),
        should_split(again, cfg) == should_split(w, cfg),
        should_reset(again, cfg, tier) == should_reset(w, cfg, tier),
        action_of(phase, again, cfg, tier) == action_of(phase, w, cfg, tier),
{
}

} // verus!
