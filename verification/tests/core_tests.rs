use sysagent::menu::{
    apply_settings_action, interpret_menu_choice, interpret_settings_choice,
    monitoring_should_stop, MenuAction, SettingsAction,
};
use sysagent::percent::Percent;
use sysagent::rate::{aggregate_throughput, counter_totals, IfaceCounters};
use sysagent::settings::AppSettings;
use sysagent::severity::{classify, SeverityBand};

#[test]
fn classify_boundaries() {
    assert_eq!(classify(&Percent::from_ratio(50, 1)), SeverityBand::Normal);
    assert_eq!(
        classify(&Percent::from_ratio(500001, 10000)),
        SeverityBand::Warning
    );
    assert_eq!(classify(&Percent::from_ratio(75, 1)), SeverityBand::Warning);
    assert_eq!(
        classify(&Percent::from_ratio(750001, 10000)),
        SeverityBand::Critical
    );
    assert_eq!(classify(&Percent::from_ratio(0, 1)), SeverityBand::Normal);
    assert_eq!(classify(&Percent::from_ratio(100, 1)), SeverityBand::Critical);
}

#[test]
fn classify_is_pure() {
    let p = Percent::from_e4(500000);
    assert_eq!(classify(&p), classify(&p));
    assert_eq!(classify(&p), SeverityBand::Normal);
}

#[test]
fn percent_rounding() {
    assert_eq!(Percent::from_ratio(55, 1).rounded(), 55);
    assert_eq!(Percent::from_ratio(0, 1).rounded(), 0);
    assert_eq!(Percent::from_ratio(100, 1).rounded(), 100);
    // 49.5 rounds up, halves away from zero
    assert_eq!(Percent::from_ratio(495, 10).rounded(), 50);
    assert_eq!(Percent::from_e4(123456).rounded_hundredths(), 1235);
}

#[test]
fn percent_fill_cells() {
    assert_eq!(Percent::from_ratio(0, 1).fill_cells(), 0);
    assert_eq!(Percent::from_ratio(100, 1).fill_cells(), 10);
    assert_eq!(Percent::from_ratio(55, 1).fill_cells(), 6);
    assert_eq!(Percent::from_ratio(75, 1).fill_cells(), 8);
    assert_eq!(Percent::from_ratio(50, 1).fill_cells(), 5);
}

#[test]
fn throughput_exact_sum() {
    let prev = vec![
        IfaceCounters::new("a".to_string(), 100, 10),
        IfaceCounters::new("b".to_string(), 200, 20),
    ];
    let cur = vec![
        IfaceCounters::new("a".to_string(), 150, 15),
        IfaceCounters::new("b".to_string(), 260, 21),
    ];
    let t = aggregate_throughput(&prev, &cur);
    assert_eq!(t.received, 50 + 60);
    assert_eq!(t.transmitted, 5 + 1);
}

#[test]
fn throughput_decreasing_counter_contributes_zero() {
    let prev = vec![IfaceCounters::new("eth0".to_string(), 1000, 500)];
    let cur = vec![IfaceCounters::new("eth0".to_string(), 1500, 400)];
    let t = aggregate_throughput(&prev, &cur);
    assert_eq!(t.received, 500);
    assert_eq!(t.transmitted, 0);
}

#[test]
fn throughput_empty_lists() {
    let prev: Vec<IfaceCounters> = vec![];
    let cur: Vec<IfaceCounters> = vec![];
    let t = aggregate_throughput(&prev, &cur);
    assert_eq!(t.received, 0);
    assert_eq!(t.transmitted, 0);
}

#[test]
fn throughput_mismatched_lengths_pairs_prefix() {
    let prev = vec![IfaceCounters::new("a".to_string(), 0, 0)];
    let cur = vec![
        IfaceCounters::new("a".to_string(), 7, 3),
        IfaceCounters::new("b".to_string(), 1000, 1000),
    ];
    let t = aggregate_throughput(&prev, &cur);
    assert_eq!(t.received, 7);
    assert_eq!(t.transmitted, 3);
}

#[test]
fn counter_totals_sum_all() {
    let ifaces = vec![
        IfaceCounters::new("a".to_string(), 1, 10),
        IfaceCounters::new("b".to_string(), 2, 20),
        IfaceCounters::new("c".to_string(), 3, 30),
    ];
    let (recv, trans) = counter_totals(&ifaces);
    assert_eq!(recv, 6);
    assert_eq!(trans, 60);
}

#[test]
fn settings_round_trip() {
    let s = AppSettings {
        show_progress_bars: false,
        show_debug_info: true,
    };
    let text = s.file_text();
    assert_eq!(text, "percent\nEnable\n");
    let back = AppSettings::parse(&text);
    assert_eq!(back, s);
}

#[test]
fn settings_round_trip_all_values() {
    for bars in [false, true] {
        for debug in [false, true] {
            let s = AppSettings {
                show_progress_bars: bars,
                show_debug_info: debug,
            };
            assert_eq!(AppSettings::parse(&s.file_text()), s);
        }
    }
}

#[test]
fn settings_parse_known_lines() {
    let s = AppSettings::parse("bars\nDisable\n");
    assert_eq!(s.show_progress_bars, true);
    assert_eq!(s.show_debug_info, false);
    let s = AppSettings::parse("percent\nDisable\n");
    assert_eq!(s.show_progress_bars, false);
    let s = AppSettings::parse("bars\r\nEnable\r\n");
    assert_eq!(s.show_progress_bars, true);
    assert_eq!(s.show_debug_info, true);
}

#[test]
fn settings_parse_malformed_gives_defaults() {
    let s = AppSettings::parse("");
    assert_eq!(s, AppSettings::new());
    let s = AppSettings::parse("nonsense\ngibberish\n");
    assert_eq!(s, AppSettings::new());
    let s = AppSettings::parse("bars");
    assert_eq!(s.show_progress_bars, true);
    assert_eq!(s.show_debug_info, false);
}

#[test]
fn settings_defaults() {
    let s = AppSettings::new();
    assert_eq!(s.show_progress_bars, true);
    assert_eq!(s.show_debug_info, false);
}

#[test]
fn menu_choices() {
    assert_eq!(interpret_menu_choice("1\n"), MenuAction::StartAgent);
    assert_eq!(interpret_menu_choice("2\n"), MenuAction::OpenSettings);
    assert_eq!(interpret_menu_choice("3\n"), MenuAction::ShowCredits);
    assert_eq!(interpret_menu_choice("4\n"), MenuAction::GenerateDebugLog);
    assert_eq!(interpret_menu_choice(" 5 \n"), MenuAction::ExitProgram);
    assert_eq!(interpret_menu_choice("6\n"), MenuAction::Invalid);
    assert_eq!(interpret_menu_choice("\n"), MenuAction::Invalid);
    assert_eq!(interpret_menu_choice(""), MenuAction::Invalid);
    assert_eq!(interpret_menu_choice("11\n"), MenuAction::Invalid);
}

#[test]
fn settings_menu_choices() {
    assert_eq!(
        interpret_settings_choice("1\n"),
        SettingsAction::ToggleDisplayMode
    );
    assert_eq!(
        interpret_settings_choice("2\n"),
        SettingsAction::ToggleDebugInfo
    );
    assert_eq!(interpret_settings_choice("3\n"), SettingsAction::BackToMain);
    assert_eq!(interpret_settings_choice("9\n"), SettingsAction::Invalid);
}

#[test]
fn settings_toggles() {
    let mut s = AppSettings::new();
    apply_settings_action(&mut s, SettingsAction::ToggleDisplayMode);
    assert_eq!(s.show_progress_bars, false);
    assert_eq!(s.show_debug_info, false);
    apply_settings_action(&mut s, SettingsAction::ToggleDebugInfo);
    assert_eq!(s.show_progress_bars, false);
    assert_eq!(s.show_debug_info, true);
    apply_settings_action(&mut s, SettingsAction::BackToMain);
    assert_eq!(
        s,
        AppSettings {
            show_progress_bars: false,
            show_debug_info: true
        }
    );
}

#[test]
fn monitoring_stops_only_on_q() {
    assert!(monitoring_should_stop(Some('q')));
    assert!(!monitoring_should_stop(Some('a')));
    assert!(!monitoring_should_stop(None));
}
