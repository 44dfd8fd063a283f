use aqi_monitor::{
    aqi_level, get_aqi_color, render_ui, AqiLevel, DrawOp, Ink, Label, PmsReading, TextKind, ViewMode,
};
use embedded_graphics::pixelcolor::{Rgb565, RgbColor};

#[test]
fn aqi_zone_boundaries() {
    assert_eq!(aqi_level(0), AqiLevel::Good);
    assert_eq!(aqi_level(12), AqiLevel::Good);
    assert_eq!(aqi_level(13), AqiLevel::Moderate);
    assert_eq!(aqi_level(35), AqiLevel::Moderate);
    assert_eq!(aqi_level(36), AqiLevel::Sensitive);
    assert_eq!(aqi_level(55), AqiLevel::Sensitive);
    assert_eq!(aqi_level(56), AqiLevel::Unhealthy);
    assert_eq!(aqi_level(-1), AqiLevel::Unhealthy);
}

#[test]
fn aqi_zones_never_improve_as_pm_rises() {
    let rank = |l: AqiLevel| match l {
        AqiLevel::Good => 0,
        AqiLevel::Moderate => 1,
        AqiLevel::Sensitive => 2,
        AqiLevel::Unhealthy => 3,
    };
    for pm in 0..200 {
        assert!(rank(aqi_level(pm)) <= rank(aqi_level(pm + 1)));
    }
}

#[test]
fn aqi_colors_match_graphics_palette() {
    assert_eq!(get_aqi_color(5), Rgb565::GREEN);
    assert_eq!(get_aqi_color(20), Rgb565::YELLOW);
    assert_eq!(get_aqi_color(40), Rgb565::new(31, 38, 0));
    assert_eq!(get_aqi_color(100), Rgb565::RED);
    assert_eq!(Ink::White.color(), Rgb565::WHITE);
    assert_eq!(Ink::Cyan.color(), Rgb565::CYAN);
    assert_eq!(Ink::Black.color(), Rgb565::BLACK);
}

#[test]
fn view_cycles_through_four_screens() {
    let m = ViewMode::Live;
    assert_eq!(m.next(), ViewMode::LastHour);
    assert_eq!(m.next().next(), ViewMode::LastDay);
    assert_eq!(m.next().next().next(), ViewMode::Hourly);
    assert_eq!(m.next().next().next().next(), ViewMode::Live);
}

#[test]
fn live_view_draws_values_with_alert_color() {
    let frame = PmsReading { pm1_0_atm: 3, pm2_5_atm: 40, pm10_0_atm: 50 };
    let ops = render_ui(&frame, &[], ViewMode::Live, true);
    assert_eq!(
        ops,
        vec![
            DrawOp::Clear,
            DrawOp::Text { text: TextKind::Label(Label::AirQualityMonitor), x: 10, y: 30, ink: Ink::Cyan },
            DrawOp::Text { text: TextKind::Pm1_0(3), x: 10, y: 70, ink: Ink::White },
            DrawOp::Text { text: TextKind::Pm2_5(40), x: 10, y: 100, ink: Ink::Aqi(AqiLevel::Sensitive) },
            DrawOp::Text { text: TextKind::Pm10(50), x: 10, y: 130, ink: Ink::White },
        ]
    );
    let ops = render_ui(&frame, &[], ViewMode::Live, false);
    assert_eq!(ops.len(), 4);
}

#[test]
fn graph_without_history_says_collecting() {
    let frame = PmsReading::default();
    let ops = render_ui(&frame, &[], ViewMode::LastHour, true);
    assert_eq!(
        ops,
        vec![
            DrawOp::Clear,
            DrawOp::Text { text: TextKind::Label(Label::LastHour), x: 10, y: 30, ink: Ink::Cyan },
            DrawOp::Text { text: TextKind::Label(Label::CollectingData), x: 10, y: 70, ink: Ink::White },
        ]
    );
}

#[test]
fn last_hour_graph_is_right_justified() {
    let frame = PmsReading::default();
    let ops = render_ui(&frame, &[10, 20], ViewMode::LastHour, false);
    assert_eq!(ops.len(), 1 + 600);
    assert_eq!(ops[0], DrawOp::Text { text: TextKind::NowMax { now: 20, max: 20 }, x: 160, y: 30, ink: Ink::White });
    // Empty slots are drawn as zero-height bars with the rest cleared.
    assert_eq!(ops[1], DrawOp::Line { x: 10, y_from: 160, y_to: 160, ink: Ink::Aqi(AqiLevel::Good) });
    assert_eq!(ops[2], DrawOp::Line { x: 10, y_from: 159, y_to: 50, ink: Ink::Black });
    // The two samples land in the last column: average 15, scaled 15 * 110 / 20 = 82.
    assert_eq!(ops[599], DrawOp::Line { x: 309, y_from: 160, y_to: 78, ink: Ink::Aqi(AqiLevel::Moderate) });
    assert_eq!(ops[600], DrawOp::Line { x: 309, y_from: 77, y_to: 50, ink: Ink::Black });
}

#[test]
fn last_day_graph_full_scale_column_reaches_top() {
    let frame = PmsReading::default();
    let history = vec![100u16; 17280];
    let ops = render_ui(&frame, &history, ViewMode::LastDay, true);
    // Clear, title, now/max, then one line per column: every bar reaches the top.
    assert_eq!(ops.len(), 3 + 300);
    assert_eq!(ops[1], DrawOp::Text { text: TextKind::Label(Label::Last24h), x: 10, y: 30, ink: Ink::Cyan });
    for x in 0..300 {
        assert_eq!(ops[3 + x], DrawOp::Line { x: 10 + x as i32, y_from: 160, y_to: 50, ink: Ink::Aqi(AqiLevel::Unhealthy) });
    }
}

#[test]
fn hourly_view_puts_recent_samples_in_last_hour() {
    let frame = PmsReading::default();
    let ops = render_ui(&frame, &[10, 20], ViewMode::Hourly, false);
    assert_eq!(ops.len(), 1 + 24 * 10 * 2);
    // Hour 0 is empty: bars of height zero.
    assert_eq!(ops[1], DrawOp::Line { x: 20, y_from: 160, y_to: 160, ink: Ink::Aqi(AqiLevel::Good) });
    assert_eq!(ops[2], DrawOp::Line { x: 20, y_from: 159, y_to: 50, ink: Ink::Black });
    // Hour 23, centred at 301: average 15, scaled 15 * 100 / 20 = 75.
    let last = &ops[1 + 23 * 20..];
    assert_eq!(last[0], DrawOp::Line { x: 296, y_from: 160, y_to: 85, ink: Ink::Aqi(AqiLevel::Moderate) });
    assert_eq!(last[1], DrawOp::Line { x: 296, y_from: 84, y_to: 50, ink: Ink::Black });
    assert_eq!(last[18], DrawOp::Line { x: 305, y_from: 160, y_to: 85, ink: Ink::Aqi(AqiLevel::Moderate) });
}

#[test]
fn hourly_without_history_says_no_data() {
    let frame = PmsReading::default();
    let ops = render_ui(&frame, &[], ViewMode::Hourly, true);
    assert_eq!(ops[2], DrawOp::Text { text: TextKind::Label(Label::NoData), x: 10, y: 70, ink: Ink::White });
}

#[test]
fn all_zero_window_draws_empty_bars() {
    let frame = PmsReading::default();
    let ops = render_ui(&frame, &[0, 0, 0], ViewMode::LastHour, false);
    assert_eq!(ops.len(), 1 + 600);
    assert_eq!(ops[0], DrawOp::Text { text: TextKind::NowMax { now: 0, max: 0 }, x: 160, y: 30, ink: Ink::White });
    for x in 0..300 {
        assert_eq!(ops[1 + 2 * x], DrawOp::Line { x: 10 + x as i32, y_from: 160, y_to: 160, ink: Ink::Aqi(AqiLevel::Good) });
        assert_eq!(ops[2 + 2 * x], DrawOp::Line { x: 10 + x as i32, y_from: 159, y_to: 50, ink: Ink::Black });
    }
    // Only the window counts: an old non-zero sample is outside the last hour.
    let mut history = vec![5u16];
    history.extend(std::iter::repeat(0u16).take(720));
    let ops = render_ui(&frame, &history, ViewMode::LastHour, false);
    assert_eq!(ops[0], DrawOp::Text { text: TextKind::NowMax { now: 0, max: 0 }, x: 160, y: 30, ink: Ink::White });
}

#[test]
fn all_zero_history_draws_empty_hourly_bars() {
    let frame = PmsReading::default();
    let ops = render_ui(&frame, &[0, 0], ViewMode::Hourly, false);
    assert_eq!(ops.len(), 1 + 480);
    assert_eq!(ops[0], DrawOp::Text { text: TextKind::NowMax { now: 0, max: 0 }, x: 160, y: 30, ink: Ink::White });
    let last = &ops[1 + 23 * 20..];
    assert_eq!(last[0], DrawOp::Line { x: 296, y_from: 160, y_to: 160, ink: Ink::Aqi(AqiLevel::Good) });
}

#[test]
fn zone_colors_are_distinct_and_ordered() {
    let palette = [get_aqi_color(0), get_aqi_color(13), get_aqi_color(36), get_aqi_color(56)];
    for i in 0..4 {
        for j in 0..4 {
            assert_eq!(i == j, palette[i] == palette[j]);
        }
    }
    let rank = |c: Rgb565| palette.iter().position(|p| *p == c).unwrap();
    for pm in 0..200 {
        assert!(rank(get_aqi_color(pm)) <= rank(get_aqi_color(pm + 1)));
    }
}

#[test]
fn labels_and_value_lines_read_as_on_screen() {
    assert_eq!(Label::AirQualityMonitor.text(), "Air Quality Monitor");
    assert_eq!(Label::CollectingData.text(), "Collecting data...");
    assert_eq!(TextKind::Label(Label::Hourly24h).text(), "24h Hourly");
    assert_eq!(TextKind::Pm1_0(0).text(), "PM 1.0: 0 µg/m³    ");
    assert_eq!(TextKind::Pm2_5(305).text(), "PM 2.5: 305 µg/m³    ");
    assert_eq!(TextKind::Pm10(65535).text(), "PM 10:  65535 µg/m³    ");
}

#[test]
fn now_max_line_drops_a_value_that_does_not_fit() {
    assert_eq!(TextKind::NowMax { now: 12, max: 40 }.text(), "now: 12 max: 40");
    assert_eq!(TextKind::NowMax { now: 0, max: 0 }.text(), "now: 0 max: 0");
    // 16 bytes exactly still fit.
    assert_eq!(TextKind::NowMax { now: 123, max: 12 }.text(), "now: 123 max: 12");
    assert_eq!(TextKind::NowMax { now: 1234, max: 12 }.text(), "now: 1234 max: ");
    assert_eq!(TextKind::NowMax { now: 65535, max: 65535 }.text(), "now: 65535 max: ");
}
