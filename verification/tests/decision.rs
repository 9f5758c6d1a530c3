use sonic_forever_autosplitter::cells::{ActKind, ZoneIndicatorKind};
use sonic_forever_autosplitter::decision::{
    decide, reset, split, start, RawGameState, Samples, TimerAction, TimerPhase, Watchers,
};
use sonic_forever_autosplitter::settings::{SplitConfiguration, Toggle};
use sonic_forever_autosplitter::tier::VersionTier;
use sonic_forever_autosplitter::watcher::{Pair, Watcher};

const ZONES: [ZoneIndicatorKind; 5] = [
    ZoneIndicatorKind::MainMenu,
    ZoneIndicatorKind::Zones,
    ZoneIndicatorKind::Ending,
    ZoneIndicatorKind::SaveSelect,
    ZoneIndicatorKind::Unknown,
];

const ACTS: [ActKind; 20] = [
    ActKind::GreenHill1,
    ActKind::GreenHill2,
    ActKind::GreenHill3,
    ActKind::Marble1,
    ActKind::Marble2,
    ActKind::Marble3,
    ActKind::SpringYard1,
    ActKind::SpringYard2,
    ActKind::SpringYard3,
    ActKind::Labyrinth1,
    ActKind::Labyrinth2,
    ActKind::Labyrinth3,
    ActKind::StarLight1,
    ActKind::StarLight2,
    ActKind::StarLight3,
    ActKind::ScrapBrain1,
    ActKind::ScrapBrain2,
    ActKind::ScrapBrain3,
    ActKind::FinalZone,
    ActKind::Unknown,
];

fn watching<T: Copy>(previous: T, current: T) -> Watcher<T> {
    Watcher { pair: Some(Pair { previous, current }) }
}

fn watchers(
    state: (u8, u8),
    act: (ActKind, ActKind),
    flag: (u8, u8),
    zone: (ZoneIndicatorKind, ZoneIndicatorKind),
) -> Watchers {
    Watchers {
        state: watching(state.0, state.1),
        act: watching(act.0, act.1),
        zone_select_flag: watching(flag.0, flag.1),
        zone_indicator: watching(zone.0, zone.1),
    }
}

fn with_state(previous: u8, current: u8, zone: ZoneIndicatorKind) -> Watchers {
    watchers((previous, current), (ActKind::Unknown, ActKind::Unknown), (0, 0), (zone, zone))
}

fn with_acts(previous: ActKind, current: ActKind) -> Watchers {
    watchers(
        (0, 0),
        (previous, current),
        (0, 0),
        (ZoneIndicatorKind::Zones, ZoneIndicatorKind::Zones),
    )
}

fn only(toggle: Toggle) -> SplitConfiguration {
    let mut cfg = SplitConfiguration::uniform(false);
    cfg.set(toggle, true);
    cfg
}

fn all_but(toggle: Toggle) -> SplitConfiguration {
    let mut cfg = SplitConfiguration::default();
    cfg.set(toggle, false);
    cfg
}

#[test]
fn legacy_clean_start_whatever_else_holds() {
    let cfg = SplitConfiguration::default();
    for zone in ZONES {
        for act in ACTS {
            for flag in [0u8, 1, 255] {
                let w = watchers((6, 7), (act, act), (flag, flag), (zone, zone));
                assert!(start(&w, &cfg, VersionTier::Legacy));
                assert!(start(&w, &only(Toggle::StartCleanSave), VersionTier::Legacy));
                assert!(!start(&w, &all_but(Toggle::StartCleanSave), VersionTier::Legacy));
            }
        }
    }
}

#[test]
fn first_split_is_gated_by_its_toggle() {
    let w = with_acts(ActKind::GreenHill1, ActKind::GreenHill2);
    assert!(split(&w, &SplitConfiguration::default()));
    assert!(split(&w, &only(Toggle::GreenHill1)));
    assert!(!split(&w, &all_but(Toggle::GreenHill1)));
    assert!(!split(&w, &only(Toggle::GreenHill2)));
}

#[test]
fn current_reset_is_gated_by_save_select() {
    let cfg = SplitConfiguration::default();
    assert!(reset(&with_state(13, 14, ZoneIndicatorKind::SaveSelect), &cfg, VersionTier::Current));
    assert!(!reset(&with_state(13, 14, ZoneIndicatorKind::Zones), &cfg, VersionTier::Current));
    for zone in ZONES {
        let expected = zone == ZoneIndicatorKind::SaveSelect;
        assert_eq!(reset(&with_state(13, 14, zone), &cfg, VersionTier::Current), expected);
        assert!(!reset(&with_state(13, 14, zone), &all_but(Toggle::Reset), VersionTier::Current));
    }
}

#[test]
fn final_split_needs_a_change_into_unknown() {
    let cfg = SplitConfiguration::default();
    for previous in ACTS {
        let w = with_acts(previous, ActKind::Unknown);
        assert_eq!(split(&w, &cfg), previous != ActKind::Unknown);
        assert_eq!(split(&w, &only(Toggle::FinalZone)), previous != ActKind::Unknown);
        assert!(!split(&w, &all_but(Toggle::FinalZone)));
    }
}

#[test]
fn legacy_start_ignores_the_flag() {
    let cfg = SplitConfiguration::default();
    for previous in 0..=20u8 {
        for current in 0..=20u8 {
            for zone in ZONES {
                let base = watchers(
                    (previous, current),
                    (ActKind::Unknown, ActKind::Unknown),
                    (0, 0),
                    (zone, zone),
                );
                let expected = start(&base, &cfg, VersionTier::Legacy);
                for flag in [(0u8, 1u8), (1, 0), (1, 1), (7, 255)] {
                    let w = Watchers { zone_select_flag: watching(flag.0, flag.1), ..base };
                    assert_eq!(start(&w, &cfg, VersionTier::Legacy), expected);
                }
            }
        }
    }
    let zero_flag = with_state(2, 6, ZoneIndicatorKind::MainMenu);
    assert!(!start(&zero_flag, &cfg, VersionTier::Legacy));
    assert!(start(&zero_flag, &cfg, VersionTier::Current));
}

#[test]
fn current_new_game_plus_needs_a_zero_flag() {
    let cfg = only(Toggle::StartNewGamePlus);
    let zone = ZoneIndicatorKind::MainMenu;
    let zero = watchers((2, 6), (ActKind::Unknown, ActKind::Unknown), (5, 0), (zone, zone));
    let one = watchers((2, 6), (ActKind::Unknown, ActKind::Unknown), (0, 1), (zone, zone));
    assert!(start(&zero, &cfg, VersionTier::Current));
    assert!(!start(&one, &cfg, VersionTier::Current));
    assert!(!start(&zero, &all_but(Toggle::StartNewGamePlus), VersionTier::Current));
    let unsampled = Watchers { zone_select_flag: Watcher::new(), ..zero };
    assert!(!start(&unsampled, &cfg, VersionTier::Current));
}

#[test]
fn legacy_start_conditions() {
    let clean = only(Toggle::StartCleanSave);
    let plus = only(Toggle::StartNewGamePlus);
    let tier = VersionTier::Legacy;
    assert!(start(&with_state(1, 2, ZoneIndicatorKind::SaveSelect), &clean, tier));
    assert!(start(&with_state(9, 2, ZoneIndicatorKind::SaveSelect), &clean, tier));
    assert!(!start(&with_state(2, 2, ZoneIndicatorKind::SaveSelect), &clean, tier));
    assert!(!start(&with_state(1, 2, ZoneIndicatorKind::MainMenu), &clean, tier));
    assert!(!start(&with_state(1, 2, ZoneIndicatorKind::SaveSelect), &plus, tier));
    assert!(start(&with_state(6, 7, ZoneIndicatorKind::MainMenu), &clean, tier));
    assert!(!start(&with_state(5, 7, ZoneIndicatorKind::MainMenu), &clean, tier));
    assert!(!start(&with_state(6, 7, ZoneIndicatorKind::MainMenu), &plus, tier));
    assert!(start(&with_state(8, 9, ZoneIndicatorKind::MainMenu), &plus, tier));
    assert!(!start(&with_state(8, 9, ZoneIndicatorKind::MainMenu), &clean, tier));
    assert!(!start(&with_state(9, 9, ZoneIndicatorKind::MainMenu), &plus, tier));
    assert!(!start(&with_state(10, 11, ZoneIndicatorKind::SaveSelect), &clean, tier));
    assert!(!start(&with_state(3, 7, ZoneIndicatorKind::SaveSelect), &clean, tier));
}

#[test]
fn current_start_conditions() {
    let clean = only(Toggle::StartCleanSave);
    let plus = only(Toggle::StartNewGamePlus);
    let tier = VersionTier::Current;
    assert!(start(&with_state(3, 7, ZoneIndicatorKind::SaveSelect), &clean, tier));
    assert!(!start(&with_state(3, 7, ZoneIndicatorKind::Zones), &clean, tier));
    assert!(!start(&with_state(4, 7, ZoneIndicatorKind::SaveSelect), &clean, tier));
    assert!(start(&with_state(10, 11, ZoneIndicatorKind::Zones), &clean, tier));
    assert!(!start(&with_state(11, 11, ZoneIndicatorKind::Zones), &clean, tier));
    assert!(!start(&with_state(10, 11, ZoneIndicatorKind::Zones), &plus, tier));
    assert!(start(&with_state(2, 6, ZoneIndicatorKind::Zones), &plus, tier));
    assert!(!start(&with_state(2, 6, ZoneIndicatorKind::Zones), &clean, tier));
    assert!(!start(&with_state(6, 7, ZoneIndicatorKind::SaveSelect), &clean, tier));
    assert!(!start(&with_state(8, 9, ZoneIndicatorKind::SaveSelect), &plus, tier));
    assert!(!start(&with_state(1, 2, ZoneIndicatorKind::SaveSelect), &clean, tier));
}

#[test]
fn reset_values_depend_on_the_tier() {
    let cfg = SplitConfiguration::default();
    let save = ZoneIndicatorKind::SaveSelect;
    assert!(reset(&with_state(200, 201, save), &cfg, VersionTier::Legacy));
    assert!(!reset(&with_state(200, 201, save), &cfg, VersionTier::Current));
    assert!(!reset(&with_state(13, 14, save), &cfg, VersionTier::Legacy));
    assert!(!reset(&with_state(201, 201, save), &cfg, VersionTier::Legacy));
    assert!(!reset(&with_state(200, 200, save), &cfg, VersionTier::Legacy));
    assert!(!reset(&with_state(199, 201, save), &cfg, VersionTier::Legacy));
    assert!(!reset(&with_state(200, 201, ZoneIndicatorKind::Zones), &cfg, VersionTier::Legacy));
    assert!(!reset(&with_state(200, 201, save), &all_but(Toggle::Reset), VersionTier::Legacy));
    assert!(reset(&with_state(200, 201, save), &only(Toggle::Reset), VersionTier::Legacy));
}

#[test]
fn split_table_row_by_row() {
    let toggles = [
        Toggle::GreenHill1,
        Toggle::GreenHill2,
        Toggle::GreenHill3,
        Toggle::Marble1,
        Toggle::Marble2,
        Toggle::Marble3,
        Toggle::SpringYard1,
        Toggle::SpringYard2,
        Toggle::SpringYard3,
        Toggle::Labyrinth1,
        Toggle::Labyrinth2,
        Toggle::Labyrinth3,
        Toggle::StarLight1,
        Toggle::StarLight2,
        Toggle::StarLight3,
        Toggle::ScrapBrain1,
        Toggle::ScrapBrain2,
        Toggle::ScrapBrain3,
    ];
    for row in 0..18 {
        let w = with_acts(ACTS[row], ACTS[row + 1]);
        assert!(split(&w, &SplitConfiguration::default()));
        assert!(split(&w, &only(toggles[row])));
        assert!(!split(&w, &all_but(toggles[row])));
    }
}

#[test]
fn split_needs_the_act_just_before() {
    let cfg = SplitConfiguration::default();
    for (i, previous) in ACTS.iter().enumerate() {
        for (j, current) in ACTS.iter().enumerate() {
            let expected = if j == 19 { i != 19 } else { i + 1 == j };
            assert_eq!(split(&with_acts(*previous, *current), &cfg), expected);
        }
    }
}

#[test]
fn first_act_never_splits() {
    let cfg = SplitConfiguration::default();
    for previous in ACTS {
        assert!(!split(&with_acts(previous, ActKind::GreenHill1), &cfg));
    }
}

#[test]
fn nothing_fires_without_samples() {
    let cfg = SplitConfiguration::default();
    let empty = Watchers::new();
    for tier in [VersionTier::Legacy, VersionTier::Current] {
        assert!(!start(&empty, &cfg, tier));
        assert!(!reset(&empty, &cfg, tier));
        assert!(!split(&empty, &cfg));
        for phase in
            [TimerPhase::NotRunning, TimerPhase::Running, TimerPhase::Paused, TimerPhase::Ended]
        {
            assert_eq!(decide(phase, &empty, &cfg, tier), TimerAction::Nothing);
        }
    }
}

#[test]
fn each_decision_needs_its_own_watchers() {
    let cfg = SplitConfiguration::default();
    let full = watchers(
        (6, 7),
        (ActKind::GreenHill1, ActKind::GreenHill2),
        (0, 0),
        (ZoneIndicatorKind::SaveSelect, ZoneIndicatorKind::SaveSelect),
    );
    assert!(start(&full, &cfg, VersionTier::Legacy));
    assert!(!start(&Watchers { state: Watcher::new(), ..full }, &cfg, VersionTier::Legacy));
    assert!(!start(&Watchers { zone_select_flag: Watcher::new(), ..full }, &cfg, VersionTier::Legacy));
    assert!(!start(&Watchers { zone_indicator: Watcher::new(), ..full }, &cfg, VersionTier::Legacy));
    assert!(start(&Watchers { act: Watcher::new(), ..full }, &cfg, VersionTier::Legacy));
    assert!(split(&Watchers { state: Watcher::new(), zone_indicator: Watcher::new(), ..full }, &cfg));
    assert!(!split(&Watchers { act: Watcher::new(), ..full }, &cfg));
    let resetting = Watchers { state: watching(200, 201), ..full };
    assert!(reset(&resetting, &cfg, VersionTier::Legacy));
    assert!(reset(&Watchers { act: Watcher::new(), zone_select_flag: Watcher::new(), ..resetting }, &cfg, VersionTier::Legacy));
    assert!(!reset(&Watchers { zone_indicator: Watcher::new(), ..resetting }, &cfg, VersionTier::Legacy));
    assert!(!reset(&Watchers { state: Watcher::new(), ..resetting }, &cfg, VersionTier::Legacy));
}

#[test]
fn decisions_are_repeatable() {
    let cfg = SplitConfiguration::default();
    let w = watchers(
        (200, 201),
        (ActKind::Marble3, ActKind::SpringYard1),
        (0, 0),
        (ZoneIndicatorKind::SaveSelect, ZoneIndicatorKind::SaveSelect),
    );
    for tier in [VersionTier::Legacy, VersionTier::Current] {
        assert_eq!(start(&w, &cfg, tier), start(&w, &cfg, tier));
        assert_eq!(split(&w, &cfg), split(&w, &cfg));
        assert_eq!(reset(&w, &cfg, tier), reset(&w, &cfg, tier));
        for phase in
            [TimerPhase::NotRunning, TimerPhase::Running, TimerPhase::Paused, TimerPhase::Ended]
        {
            assert_eq!(decide(phase, &w, &cfg, tier), decide(phase, &w, &cfg, tier));
        }
    }
    assert_eq!(w.state.pair.map(|p| (p.previous, p.current)), Some((200, 201)));
}

#[test]
fn reset_comes_before_split() {
    let cfg = SplitConfiguration::default();
    let w = watchers(
        (200, 201),
        (ActKind::Marble3, ActKind::SpringYard1),
        (0, 0),
        (ZoneIndicatorKind::SaveSelect, ZoneIndicatorKind::SaveSelect),
    );
    assert_eq!(decide(TimerPhase::Running, &w, &cfg, VersionTier::Legacy), TimerAction::Reset);
    assert_eq!(decide(TimerPhase::Paused, &w, &cfg, VersionTier::Legacy), TimerAction::Reset);
    assert_eq!(decide(TimerPhase::Running, &w, &cfg, VersionTier::Current), TimerAction::Split);
    assert_eq!(
        decide(TimerPhase::Running, &w, &all_but(Toggle::Reset), VersionTier::Legacy),
        TimerAction::Split
    );
    assert_eq!(decide(TimerPhase::NotRunning, &w, &cfg, VersionTier::Legacy), TimerAction::Nothing);
    assert_eq!(decide(TimerPhase::Ended, &w, &cfg, VersionTier::Legacy), TimerAction::Nothing);
}

#[test]
fn start_is_decided_only_while_not_running() {
    let cfg = SplitConfiguration::default();
    let w = with_state(6, 7, ZoneIndicatorKind::MainMenu);
    assert_eq!(decide(TimerPhase::NotRunning, &w, &cfg, VersionTier::Legacy), TimerAction::Start);
    assert_eq!(decide(TimerPhase::Running, &w, &cfg, VersionTier::Legacy), TimerAction::Nothing);
    assert_eq!(decide(TimerPhase::Paused, &w, &cfg, VersionTier::Legacy), TimerAction::Nothing);
    assert_eq!(decide(TimerPhase::Ended, &w, &cfg, VersionTier::Legacy), TimerAction::Nothing);
}

fn samples(state: Option<u8>, flag: Option<u8>, tag: Option<u32>, level: Option<u8>) -> Samples {
    Samples { state, zone_select_flag: flag, zone_tag: tag, level }
}

fn pair_of<T: Copy>(w: &Watcher<T>) -> Option<(T, T)> {
    w.pair.map(|p| (p.previous, p.current))
}

#[test]
fn update_feeds_all_four_watchers() {
    let mut w = Watchers::new();
    w.update(VersionTier::Current, samples(Some(3), Some(1), Some(0x656E6F5A), Some(0)));
    assert_eq!(pair_of(&w.state), Some((3, 3)));
    assert_eq!(pair_of(&w.zone_select_flag), Some((1, 1)));
    assert_eq!(pair_of(&w.zone_indicator), Some((ZoneIndicatorKind::Zones, ZoneIndicatorKind::Zones)));
    assert_eq!(pair_of(&w.act), Some((ActKind::GreenHill1, ActKind::GreenHill1)));
    w.update(VersionTier::Current, samples(Some(7), Some(0), Some(0x656E6F5A), Some(1)));
    assert_eq!(pair_of(&w.state), Some((3, 7)));
    assert_eq!(pair_of(&w.zone_select_flag), Some((1, 0)));
    assert_eq!(pair_of(&w.act), Some((ActKind::GreenHill1, ActKind::GreenHill2)));
    assert!(split(&w, &SplitConfiguration::default()));
}

#[test]
fn update_keeps_watchers_on_failed_reads() {
    let mut w = Watchers::new();
    w.update(VersionTier::Current, samples(Some(2), Some(1), Some(0x656E6F5A), Some(4)));
    w.update(VersionTier::Current, samples(Some(6), Some(9), Some(0x656E6F5A), Some(5)));
    let before = (pair_of(&w.state), pair_of(&w.zone_select_flag), pair_of(&w.zone_indicator), pair_of(&w.act));
    w.update(VersionTier::Current, samples(None, None, None, None));
    let after = (pair_of(&w.state), pair_of(&w.zone_select_flag), pair_of(&w.zone_indicator), pair_of(&w.act));
    assert_eq!(before, after);
    assert_eq!(after.0, Some((2, 6)));
    assert_eq!(after.1, Some((1, 9)));
    assert_eq!(after.3, Some((ActKind::Marble2, ActKind::Marble3)));
}

#[test]
fn update_on_empty_watchers_with_failed_reads_keeps_them_empty() {
    let mut w = Watchers::new();
    w.update(VersionTier::Current, samples(None, None, None, Some(3)));
    assert!(w.state.pair.is_none());
    assert!(w.zone_select_flag.pair.is_none());
    assert!(w.zone_indicator.pair.is_none());
    assert!(w.act.pair.is_none());
}

#[test]
fn legacy_flag_is_always_fed_zero() {
    let mut w = Watchers::new();
    w.update(VersionTier::Legacy, samples(Some(1), Some(77), None, None));
    assert_eq!(pair_of(&w.zone_select_flag), Some((0, 0)));
    w.update(VersionTier::Legacy, samples(Some(1), None, None, None));
    assert_eq!(pair_of(&w.zone_select_flag), Some((0, 0)));
}

#[test]
fn current_flag_is_never_fed_a_substitute() {
    let mut w = Watchers::new();
    w.update(VersionTier::Current, samples(Some(2), None, Some(0x6E69614D), None));
    assert!(w.zone_select_flag.pair.is_none());
    w.update(VersionTier::Current, samples(Some(6), None, Some(0x6E69614D), None));
    assert_eq!(pair_of(&w.state), Some((2, 6)));
    assert!(!start(&w, &SplitConfiguration::default(), VersionTier::Current));
    let mut sampled = Watchers::new();
    sampled.update(VersionTier::Current, samples(Some(2), Some(1), Some(0x6E69614D), None));
    sampled.update(VersionTier::Current, samples(Some(6), None, Some(0x6E69614D), None));
    assert_eq!(pair_of(&sampled.zone_select_flag), Some((1, 1)));
    assert!(!start(&sampled, &SplitConfiguration::default(), VersionTier::Current));
    let mut zero = Watchers::new();
    zero.update(VersionTier::Current, samples(Some(2), Some(0), Some(0x6E69614D), None));
    zero.update(VersionTier::Current, samples(Some(6), Some(0), Some(0x6E69614D), None));
    assert!(start(&zero, &SplitConfiguration::default(), VersionTier::Current));
}

#[test]
fn act_is_carried_outside_of_levels() {
    let mut w = Watchers::new();
    w.update(VersionTier::Legacy, samples(Some(0), None, Some(0x656E6F5A), Some(7)));
    assert_eq!(pair_of(&w.act), Some((ActKind::SpringYard2, ActKind::SpringYard2)));
    w.update(VersionTier::Legacy, samples(Some(0), None, Some(0x6E69614D), Some(0)));
    assert_eq!(pair_of(&w.act), Some((ActKind::SpringYard2, ActKind::SpringYard2)));
    w.update(VersionTier::Legacy, samples(Some(0), None, Some(0x65766153), None));
    assert_eq!(pair_of(&w.act), Some((ActKind::SpringYard2, ActKind::SpringYard2)));
    w.update(VersionTier::Legacy, samples(Some(0), None, Some(0x656E6F5A), Some(8)));
    assert_eq!(pair_of(&w.act), Some((ActKind::SpringYard2, ActKind::SpringYard3)));
}

#[test]
fn ending_forces_the_act_to_unknown() {
    let mut w = Watchers::new();
    w.update(VersionTier::Legacy, samples(Some(0), None, Some(0x656E6F5A), Some(18)));
    assert_eq!(pair_of(&w.act), Some((ActKind::FinalZone, ActKind::FinalZone)));
    w.update(VersionTier::Legacy, samples(Some(0), None, Some(0x69646E45), Some(18)));
    assert_eq!(pair_of(&w.act), Some((ActKind::FinalZone, ActKind::Unknown)));
    assert!(split(&w, &SplitConfiguration::default()));
    w.update(VersionTier::Legacy, samples(Some(0), None, Some(0x69646E45), Some(18)));
    assert_eq!(pair_of(&w.act), Some((ActKind::Unknown, ActKind::Unknown)));
    assert!(!split(&w, &SplitConfiguration::default()));
}

#[test]
fn act_before_any_level_is_unknown() {
    let mut w = Watchers::new();
    w.update(VersionTier::Legacy, samples(Some(0), None, Some(0x6E69614D), Some(3)));
    assert_eq!(pair_of(&w.act), Some((ActKind::Unknown, ActKind::Unknown)));
    w.update(VersionTier::Legacy, samples(Some(0), None, Some(12345), Some(3)));
    assert_eq!(pair_of(&w.zone_indicator), Some((ZoneIndicatorKind::MainMenu, ZoneIndicatorKind::Unknown)));
    assert_eq!(pair_of(&w.act), Some((ActKind::Unknown, ActKind::Unknown)));
}

#[test]
fn failed_level_read_keeps_the_act_watcher() {
    let mut w = Watchers::new();
    w.update(VersionTier::Legacy, samples(Some(0), None, Some(0x656E6F5A), Some(0)));
    w.update(VersionTier::Legacy, samples(Some(0), None, Some(0x656E6F5A), Some(1)));
    w.update(VersionTier::Legacy, samples(Some(0), None, Some(0x656E6F5A), None));
    assert_eq!(pair_of(&w.act), Some((ActKind::GreenHill1, ActKind::GreenHill2)));
    w.update(VersionTier::Legacy, samples(Some(0), None, None, Some(1)));
    assert_eq!(pair_of(&w.act), Some((ActKind::GreenHill2, ActKind::GreenHill2)));
}

#[test]
fn snapshot_needs_all_four_cells() {
    let mut w = Watchers::new();
    assert_eq!(w.snapshot(), None);
    w.update(VersionTier::Current, samples(Some(3), None, Some(0x656E6F5A), Some(5)));
    assert_eq!(w.snapshot(), None);
    w.update(VersionTier::Current, samples(Some(4), Some(1), Some(0x65766153), Some(6)));
    assert_eq!(
        w.snapshot(),
        Some(RawGameState {
            state_byte: 4,
            zone_select_flag: 1,
            zone_indicator: ZoneIndicatorKind::SaveSelect,
            act: ActKind::Marble3,
        })
    );
}
