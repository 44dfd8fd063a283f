use aqi_monitor::{
    button_step, Backlight, BacklightEvent, ButtonPhase, ButtonStep, DrawOp, DutyAction, Monitor, PmsReading,
    Refresh, SampleHistory, SensorDuty, TextKind, ViewMode, MAX_HISTORY,
};

const SEC: u64 = 1_000_000;

fn reading(pm2_5: u16) -> PmsReading {
    PmsReading { pm1_0_atm: 1, pm2_5_atm: pm2_5, pm10_0_atm: 2 }
}

#[test]
fn history_keeps_newest_samples_when_full() {
    let mut h = SampleHistory::new();
    for i in 0..(MAX_HISTORY as u32 + 5) {
        h.record((i % 60000) as u16);
    }
    assert_eq!(h.len(), MAX_HISTORY);
    let s = h.as_slice();
    assert_eq!(s[0], 5);
    assert_eq!(s[MAX_HISTORY - 1], ((MAX_HISTORY as u32 + 4) % 60000) as u16);
}

#[test]
fn history_appends_while_room() {
    let mut h = SampleHistory::new();
    h.record(7);
    h.record(9);
    assert_eq!(h.as_slice(), &[7, 9]);
}

#[test]
fn first_pass_draws_live_screen_from_scratch() {
    let mut m = Monitor::new(0);
    match m.tick(SEC, false, Some(reading(20))) {
        Refresh::Draw(ops) => {
            assert_eq!(ops[0], DrawOp::Clear);
            assert_eq!(ops.len(), 5);
            assert_eq!(ops[3], DrawOp::Text {
                text: TextKind::Pm2_5(20),
                x: 10,
                y: 100,
                ink: aqi_monitor::Ink::Aqi(aqi_monitor::AqiLevel::Moderate),
            });
        }
        _ => panic!("expected a redraw"),
    }
    assert!(!m.force_redraw);
    // One second after start-up is too early for a sample.
    assert_eq!(m.history.len(), 0);
    assert!(matches!(m.tick(2 * SEC, false, None), Refresh::Idle));
}

#[test]
fn samples_are_at_least_five_seconds_apart() {
    let mut m = Monitor::new(0);
    let _ = m.tick(0, false, None);
    assert!(matches!(m.tick(5 * SEC - 1, false, Some(reading(10))), Refresh::Idle));
    assert_eq!(m.history.len(), 0);
    assert_eq!(m.last_frame, reading(10));
    assert!(matches!(m.tick(5 * SEC, false, Some(reading(11))), Refresh::Draw(_)));
    assert_eq!(m.history.as_slice(), &[11]);
    assert!(matches!(m.tick(9 * SEC, false, Some(reading(12))), Refresh::Idle));
    assert!(matches!(m.tick(10 * SEC, false, Some(reading(13))), Refresh::Draw(_)));
    assert_eq!(m.history.as_slice(), &[11, 13]);
}

#[test]
fn button_switches_screen_and_forces_redraw() {
    let mut m = Monitor::new(0);
    let _ = m.tick(0, false, None);
    match m.tick(SEC, true, None) {
        Refresh::Draw(ops) => {
            assert_eq!(ops[0], DrawOp::Clear);
            assert_eq!(ops.len(), 3);
        }
        _ => panic!("expected a redraw"),
    }
    assert_eq!(m.view, ViewMode::LastHour);
}

#[test]
fn clean_air_graph_is_drawn() {
    let mut m = Monitor::new(0);
    let _ = m.tick(0, false, None);
    let _ = m.tick(5 * SEC, false, Some(reading(0)));
    match m.tick(6 * SEC, true, None) {
        Refresh::Draw(ops) => {
            assert_eq!(ops.len(), 3 + 600);
            assert_eq!(ops[2], DrawOp::Text { text: TextKind::NowMax { now: 0, max: 0 }, x: 160, y: 30, ink: aqi_monitor::Ink::White });
        }
        _ => panic!("expected a redraw"),
    }
}

#[test]
fn sensor_commands_alternate_sleep_then_wake() {
    let mut d = SensorDuty::new(0);
    let mut sent = Vec::new();
    for minute in 0..400u64 {
        match d.step(minute * 60 * SEC) {
            DutyAction::PutToSleep => sent.push("sleep"),
            DutyAction::WakeUp => {
                sent.push("wake");
                d.restart_cycle(minute * 60 * SEC);
            }
            DutyAction::ReadFrame => assert!(d.active),
            DutyAction::Wait => assert!(!d.active),
        }
    }
    assert_eq!(sent, vec!["sleep", "wake", "sleep", "wake", "sleep", "wake"]);
}

#[test]
fn duty_cycle_two_hours_on_ten_minutes_off() {
    let mut d = SensorDuty::new(0);
    assert_eq!(d.step(0), DutyAction::ReadFrame);
    assert_eq!(d.step((120 * 60 - 1) * SEC), DutyAction::ReadFrame);
    assert_eq!(d.step(120 * 60 * SEC), DutyAction::PutToSleep);
    assert!(!d.active);
    assert_eq!(d.step((130 * 60 - 1) * SEC), DutyAction::Wait);
    assert_eq!(d.step(130 * 60 * SEC), DutyAction::WakeUp);
    assert!(d.active);
    d.restart_cycle(130 * 60 * SEC + 5);
    assert_eq!(d.cycle_start_us, 130 * 60 * SEC + 5);
    assert_eq!(d.step(131 * 60 * SEC), DutyAction::ReadFrame);
}

#[test]
fn backlight_dims_after_timeout_and_relights_on_press() {
    assert_eq!(Backlight::Lit.wait_limit_secs(), Some(30));
    assert_eq!(Backlight::Dimmed.wait_limit_secs(), None);
    assert_eq!(Backlight::Lit.step(BacklightEvent::TimedOut), (Backlight::Dimmed, 0));
    assert_eq!(Backlight::Dimmed.step(BacklightEvent::Woken), (Backlight::Lit, 10));
    assert_eq!(Backlight::Lit.step(BacklightEvent::Woken), (Backlight::Lit, 10));
}

#[test]
fn button_signals_once_per_press() {
    let s = button_step(ButtonPhase::Released, true);
    assert_eq!(s, ButtonStep { next: ButtonPhase::Held, notify: true, delay_ms: 50 });
    let s = button_step(ButtonPhase::Held, true);
    assert_eq!(s, ButtonStep { next: ButtonPhase::Held, notify: false, delay_ms: 10 });
    let s = button_step(ButtonPhase::Held, false);
    assert_eq!(s, ButtonStep { next: ButtonPhase::Released, notify: false, delay_ms: 20 });
}
