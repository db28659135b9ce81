use kal::schedule::{decide, synthetic_command, Mode, ScheduleEntry};
use kal::togglable::Togglable;

fn all_day(low: i32, high: i32) -> ScheduleEntry {
    ScheduleEntry { start: 0, end: 1439, low, high }
}

#[test]
fn hysteresis_sequence_with_default_thresholds() {
    // Thresholds 18.00 / 20.00, starting from Off: 19 holds, 17 heats,
    // 19 holds the heat, 21 stops, 19 holds the stop.
    let schedule = vec![all_day(1800, 2000)];
    let temps = [1900, 1700, 1900, 2100, 1900];
    let expected = [false, true, true, false, false];
    let mut level = false;
    for (t, e) in temps.iter().zip(expected.iter()) {
        level = decide(720, *t, &schedule, Mode::Auto, level);
        assert_eq!(level, *e, "temperature {t}");
    }
}

#[test]
fn no_matching_entry_holds_the_previous_level() {
    // The single window covers 06:00 to 22:00; midnight falls outside it.
    let schedule = vec![ScheduleEntry { start: 360, end: 1320, low: 1800, high: 2000 }];
    for previous in [false, true] {
        for temp in [-10000, 0, 1700, 1900, 2100, 30000] {
            assert_eq!(decide(0, temp, &schedule, Mode::Auto, previous), previous);
        }
    }
    // An empty schedule holds the level too.
    let empty: Vec<ScheduleEntry> = Vec::new();
    assert_eq!(decide(720, 1000, &empty, Mode::Auto, true), true);
    assert_eq!(decide(720, 1000, &empty, Mode::Auto, false), false);
}

#[test]
fn forced_modes_ignore_schedule_and_temperature() {
    let schedule = vec![all_day(1800, 2000)];
    for previous in [false, true] {
        assert_eq!(decide(720, 5000, &schedule, Mode::On, previous), true);
        assert_eq!(decide(720, -5000, &schedule, Mode::Off, previous), false);
    }
}

#[test]
fn windows_wrap_past_midnight() {
    // 22:00 to 06:00 the next morning.
    let schedule = vec![ScheduleEntry { start: 1320, end: 360, low: 1800, high: 2000 }];
    // 23:00 is inside the wrapped window, cold air heats.
    assert_eq!(decide(1380, 1700, &schedule, Mode::Auto, false), true);
    // 05:00 is still inside.
    assert_eq!(decide(300, 1700, &schedule, Mode::Auto, false), true);
    // Noon is outside: the level holds.
    assert_eq!(decide(720, 1700, &schedule, Mode::Auto, false), false);
}

#[test]
fn first_matching_entry_wins() {
    // Both windows contain noon; the first declared entry decides.
    let schedule = vec![all_day(2500, 2600), all_day(1800, 2000)];
    // Under the first entry 21.00 is below low => heat; under the second it
    // would stop the heating.
    assert_eq!(decide(720, 2100, &schedule, Mode::Auto, false), true);
}

#[test]
fn boundary_temperatures_flip_exactly_at_the_thresholds() {
    let schedule = vec![all_day(1800, 2000)];
    assert_eq!(decide(720, 1800, &schedule, Mode::Auto, false), true);
    assert_eq!(decide(720, 1801, &schedule, Mode::Auto, false), false);
    assert_eq!(decide(720, 2000, &schedule, Mode::Auto, true), false);
    assert_eq!(decide(720, 1999, &schedule, Mode::Auto, true), true);
}

#[test]
fn synthetic_commands_are_explicit_and_never_toggle() {
    assert_eq!(synthetic_command(true, true), None);
    assert_eq!(synthetic_command(false, false), None);
    assert_eq!(synthetic_command(true, false), Some(Togglable::On));
    assert_eq!(synthetic_command(false, true), Some(Togglable::Off));
}
