use idlemon::devices::{classify_read, is_monitored_path, ReadClass, INPUT_EVENT_SIZE};
use idlemon::machine::{
    ActivityStateMachine, Config, ALERT_TRIGGER_MS, BREAK_DURATION_MS, IDLE_TRIGGER_MS,
};
use idlemon::status::{format_hh_mm_ss, parse_status_payload};
use idlemon::user::{State, User};

#[test]
fn standard_config_matches_constants() {
    let c = Config::standard();
    assert_eq!(c.alert_trigger, ALERT_TRIGGER_MS);
    assert_eq!(c.idle_trigger, IDLE_TRIGGER_MS);
    assert_eq!(c.break_duration, BREAK_DURATION_MS);
    assert_eq!(ALERT_TRIGGER_MS, 3_600_000);
    assert_eq!(IDLE_TRIGGER_MS, 300_000);
    assert_eq!(BREAK_DURATION_MS, 300_000);
    assert_eq!(INPUT_EVENT_SIZE, 24);
}

#[test]
fn fresh_user_is_idle() {
    let u = User::new(7);
    assert_eq!(u.state, State::Idle);
    assert_eq!(u.updated, 7);
}

#[test]
fn set_state_updates_entry_instant() {
    let mut u = User::new(0);
    u.set_state(State::Active, 5_000);
    assert_eq!(u.state, State::Active);
    assert_eq!(u.updated, 5_000);
    assert_eq!(u.time_in_current_state(12_345), 7_345);
}

#[test]
fn clock_formatting_exact() {
    assert_eq!(format_hh_mm_ss(0), "00:00:00");
    assert_eq!(format_hh_mm_ss(1), "00:00:01");
    assert_eq!(format_hh_mm_ss(59), "00:00:59");
    assert_eq!(format_hh_mm_ss(60), "00:01:00");
    assert_eq!(format_hh_mm_ss(362), "00:06:02");
    assert_eq!(format_hh_mm_ss(3_599), "00:59:59");
    assert_eq!(format_hh_mm_ss(3_600), "01:00:00");
    assert_eq!(format_hh_mm_ss(359_999), "99:59:59");
    assert_eq!(format_hh_mm_ss(360_000), "100:00:00");
}

#[test]
fn message_glyphs_exact() {
    let mut u = User::new(0);
    assert_eq!(u.message(), "<span foreground='#f9e2af'> ○ </span>");
    u.set_state(State::Active, 1);
    assert_eq!(u.message(), "<span foreground='#a6e3a1'> ● </span>");
    u.set_state(State::Alert, 2);
    assert_eq!(
        u.message(),
        "<span foreground='#fab387' weight='bold' size='x-large'>GET UP</span>"
    );
}

#[test]
fn snapshot_elapsed_is_floor_of_seconds() {
    let mut u = User::new(0);
    u.set_state(State::Active, 1_000);
    let snap = u.snapshot(11_999);
    assert_eq!(snap.display_text, "<span foreground='#a6e3a1'> ● </span>");
    assert_eq!(snap.tooltip, "Active: 00:00:10");
}

#[test]
fn status_payload_exact_json() {
    let u = User::new(0);
    let payload = u.status_payload(1_000);
    assert_eq!(
        payload,
        "{\"text\":\"<span foreground='#f9e2af'> ○ </span>\",\"tooltip\":\"Idle: 00:00:01\"}"
    );
}

#[test]
fn status_payload_is_what_serde_parses_back() {
    let mut u = User::new(0);
    u.set_state(State::Alert, 2_000);
    let payload = u.status_payload(5_000);
    let v: serde_json::Value = serde_json::from_str(&payload).unwrap();
    assert_eq!(
        v["text"].as_str().unwrap(),
        "<span foreground='#fab387' weight='bold' size='x-large'>GET UP</span>"
    );
    assert_eq!(v["tooltip"].as_str().unwrap(), "Alert: 00:00:03");
}

#[test]
fn status_line_exact() {
    let mut u = User::new(0);
    u.set_state(State::Active, 0);
    assert_eq!(u.status_line(62_000), "Active 00:01:02\n");
}

#[test]
fn payload_round_trip() {
    let mut u = User::new(0);
    u.set_state(State::Active, 1_000);
    let payload = u.status_payload(3_500);
    let (text, tooltip) = parse_status_payload(&payload).unwrap();
    assert_eq!(text, "<span foreground='#a6e3a1'> ● </span>");
    assert_eq!(tooltip, "Active: 00:00:02");
}

#[test]
fn parse_rejects_malformed_payloads() {
    assert!(parse_status_payload("").is_none());
    assert!(parse_status_payload("{\"text\":\"x\"}").is_none());
    assert!(parse_status_payload("Idle 00:00:01\n").is_none());
}

#[test]
fn read_classification() {
    assert_eq!(classify_read(24, false), ReadClass::Activity);
    assert_eq!(classify_read(24, true), ReadClass::Activity);
    assert_eq!(classify_read(-1, true), ReadClass::WouldBlock);
    assert_eq!(classify_read(-1, false), ReadClass::ReadError);
    assert_eq!(classify_read(0, false), ReadClass::NoBytes);
}

#[test]
fn device_path_filter() {
    assert!(is_monitored_path("/dev/input/by-id/usb-Gear-kbd-event", false));
    assert!(is_monitored_path("usb-kbd", false));
    assert!(!is_monitored_path("/dev/input/by-id/usb-Gear-mouse", false));
    assert!(is_monitored_path("/dev/input/by-id/usb-Gear-mouse", true));
    assert!(!is_monitored_path("/dev/input/by-id/usb-Gear-event5", true));
    assert!(!is_monitored_path("", true));
}

#[test]
fn idle_activates_on_first_activity_tick() {
    let mut m = ActivityStateMachine::new(Config::standard(), 0);
    m.step(false, 1_000);
    assert_eq!(m.user.state, State::Idle);
    m.step(true, 2_000);
    assert_eq!(m.user.state, State::Active);
    assert_eq!(m.user.updated, 2_000);
    assert_eq!(m.inactive_since, None);
}

#[test]
fn zero_devices_stays_idle_forever() {
    let mut m = ActivityStateMachine::new(Config::standard(), 0);
    for i in 0..10u64 {
        let now = i * 1_000;
        m.step(false, now);
        assert_eq!(m.user.state, State::Idle);
        assert_eq!(m.user.updated, 0);
        let snap = m.user.snapshot(now);
        assert_eq!(snap.tooltip, format!("Idle: 00:00:{:02}", i));
        assert_eq!(m.user.status_line(now), format!("Idle 00:00:{:02}\n", i));
    }
}

#[test]
fn burst_then_silence_downgrades_at_idle_trigger() {
    let config = Config {
        alert_trigger: 3_600_000,
        idle_trigger: 60_000,
        break_duration: 300_000,
    };
    let mut m = ActivityStateMachine::new(config, 0);
    m.step(true, 1_000);
    assert_eq!(m.user.state, State::Active);
    // silence begins at 2_000; Active must persist strictly below 60 s of it
    let mut now = 2_000;
    while now < 62_000 {
        m.step(false, now);
        assert_eq!(m.user.state, State::Active);
        assert_eq!(m.inactive_since, Some(2_000));
        now += 1_000;
    }
    // first tick at which continuous silence reaches 60 s
    m.step(false, 62_000);
    assert_eq!(m.user.state, State::Idle);
    assert_eq!(m.user.updated, 62_000);
    assert_eq!(m.inactive_since, None);
}

#[test]
fn sustained_activity_escalates_at_alert_trigger() {
    let mut m = ActivityStateMachine::new(Config::standard(), 0);
    m.step(true, 0);
    assert_eq!(m.user.state, State::Active);
    let mut now = 600_000;
    while now < 3_600_000 {
        m.step(true, now);
        assert_eq!(m.user.state, State::Active);
        now += 600_000;
    }
    m.step(true, 3_600_000);
    assert_eq!(m.user.state, State::Alert);
    assert_eq!(m.user.updated, 3_600_000);
}

#[test]
fn silence_alone_never_escalates() {
    let mut m = ActivityStateMachine::new(Config::standard(), 0);
    m.step(true, 0);
    assert_eq!(m.user.state, State::Active);
    // hours past the alert trigger, but the tick is silent: no escalation
    m.step(false, 4_000_000);
    assert_eq!(m.user.state, State::Active);
    assert_eq!(m.inactive_since, Some(4_000_000));
}

fn machine_in_alert() -> (ActivityStateMachine, u64) {
    let config = Config {
        alert_trigger: 1_000,
        idle_trigger: 300_000,
        break_duration: 300_000,
    };
    let mut m = ActivityStateMachine::new(config, 0);
    m.step(true, 0);
    assert_eq!(m.user.state, State::Active);
    m.step(true, 1_000);
    assert_eq!(m.user.state, State::Alert);
    (m, 1_000)
}

#[test]
fn interrupted_break_does_not_clear_alert() {
    let (mut m, t0) = machine_in_alert();
    // four minutes of silence, one tick a minute
    let silence_start = t0 + 60_000;
    for k in 0..4u64 {
        m.step(false, silence_start + k * 60_000);
        assert_eq!(m.user.state, State::Alert);
    }
    // renewed activity resets the inactivity timer before five minutes pass
    m.step(true, silence_start + 245_000);
    assert_eq!(m.user.state, State::Alert);
    assert_eq!(m.inactive_since, None);
    // silence resumes; the old timer must not count
    m.step(false, silence_start + 250_000);
    m.step(false, silence_start + 301_000);
    assert_eq!(m.user.state, State::Alert);
}

#[test]
fn full_break_clears_alert_on_boundary_tick() {
    let (mut m, t0) = machine_in_alert();
    let silence_start = t0 + 60_000;
    m.step(false, silence_start);
    assert_eq!(m.user.state, State::Alert);
    assert_eq!(m.inactive_since, Some(silence_start));
    m.step(false, silence_start + 299_999);
    assert_eq!(m.user.state, State::Alert);
    m.step(false, silence_start + 300_000);
    assert_eq!(m.user.state, State::Idle);
    assert_eq!(m.user.updated, silence_start + 300_000);
    assert_eq!(m.inactive_since, None);
}

#[test]
fn observed_transitions_stay_on_the_table() {
    let config = Config {
        alert_trigger: 5_000,
        idle_trigger: 3_000,
        break_duration: 4_000,
    };
    let mut m = ActivityStateMachine::new(config, 0);
    let polls = [
        true, true, false, false, true, true, true, true, false, true, false, false, false, false,
        true, false, true, true, true, true, true, true, false, false, false, false, false, true,
    ];
    let mut now: u64 = 0;
    let mut prev = m.user.state;
    for &a in polls.iter() {
        now += 1_000;
        m.step(a, now);
        let next = m.user.state;
        assert!(!(prev == State::Idle && next == State::Alert));
        assert!(!(prev == State::Alert && next == State::Active));
        assert!(
            prev == next
                || (prev == State::Idle && next == State::Active)
                || (prev == State::Active && next == State::Alert)
                || (prev == State::Active && next == State::Idle)
                || (prev == State::Alert && next == State::Idle)
        );
        prev = next;
    }
}
