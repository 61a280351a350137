use etoalium::draw::{Color, DrawCommand};
use etoalium::ratio::Ratio;
use etoalium::time::{time_of_day, TimeOfDay};
use etoalium::works::dm_seigaiha;
use etoalium::works::dm_waving_dots_square;
use etoalium::works::mdn_clock_example;
use etoalium::works::{Renderer, Surface};

fn time(hour: u32, minute: u32, second: u32) -> TimeOfDay {
    TimeOfDay::new(hour, minute, second).unwrap()
}

fn value(r: Ratio) -> f64 {
    r.num as f64 / r.den as f64
}

fn full_circle(x: Ratio, y: Ratio, radius: Ratio) -> DrawCommand {
    DrawCommand::Arc {
        x,
        y,
        radius,
        start_degrees: Ratio::whole(0),
        end_degrees: Ratio::whole(360),
        anticlockwise: true,
    }
}

// ---- fractions ----

#[test]
fn ratio_equals_compares_values() {
    assert!(Ratio::new(1, 2).equals(Ratio::new(2, 4)));
    assert!(Ratio::new(10800, 120).equals(Ratio::whole(90)));
    assert!(!Ratio::new(1, 2).equals(Ratio::new(1, 3)));
    assert!(Ratio::new(-3, 6).equals(Ratio::new(-1, 2)));
    assert!(!Ratio::new(-1, 2).equals(Ratio::new(1, 2)));
    assert!(Ratio::new(i64::MAX, i64::MAX).equals(Ratio::whole(1)));
    assert!(Ratio::new(i64::MIN, 1).equals(Ratio::new(i64::MIN, 1)));
    assert_ne!(Ratio::new(1, 2), Ratio::new(2, 4));
}

#[test]
fn colors_have_whole_or_equal_channels() {
    assert_eq!(
        Color::rgb(59, 93, 160),
        Color { red: Ratio::whole(59), green: Ratio::whole(93), blue: Ratio::whole(160) }
    );
    let level = Ratio::new(255, 2);
    assert_eq!(Color::gray(level), Color { red: level, green: level, blue: level });
}

#[test]
fn time_of_day_has_ranges() {
    assert_eq!(TimeOfDay::new(23, 59, 59), Some(TimeOfDay { hour: 23, minute: 59, second: 59 }));
    assert_eq!(TimeOfDay::new(0, 0, 0), Some(TimeOfDay { hour: 0, minute: 0, second: 0 }));
    assert_eq!(TimeOfDay::new(24, 0, 0), None);
    assert_eq!(TimeOfDay::new(0, 60, 0), None);
    assert_eq!(TimeOfDay::new(0, 0, 60), None);
}

#[test]
fn time_of_day_in_greenwich() {
    assert_eq!(time_of_day(0, 0), Some(time(0, 0, 0)));
    assert_eq!(time_of_day(999, 0), Some(time(0, 0, 0)));
    assert_eq!(time_of_day(1000, 0), Some(time(0, 0, 1)));
    assert_eq!(time_of_day(86_399_999, 0), Some(time(23, 59, 59)));
    assert_eq!(time_of_day(86_400_000, 0), Some(time(0, 0, 0)));
    assert_eq!(time_of_day(1_700_000_000_123, 0), Some(time(22, 13, 20)));
    // before the epoch the clock runs on towards midnight
    assert_eq!(time_of_day(-1, 0), Some(time(23, 59, 59)));
    assert_eq!(time_of_day(-1000, 0), Some(time(23, 59, 59)));
    assert_eq!(time_of_day(-1001, 0), Some(time(23, 59, 58)));
    assert_eq!(time_of_day(-86_400_000, 0), Some(time(0, 0, 0)));
}

#[test]
fn time_of_day_in_other_zones() {
    let now = 1_700_000_000_123;
    assert_eq!(time_of_day(now, 3600), Some(time(23, 13, 20)));
    assert_eq!(time_of_day(now, 7200), Some(time(0, 13, 20)));
    assert_eq!(time_of_day(now, -22 * 3600 - 14 * 60), Some(time(23, 59, 20)));
    assert_eq!(time_of_day(now, 19_800), Some(time(3, 43, 20)));
    assert_eq!(time_of_day(now, 86_399), Some(time(22, 13, 19)));
    assert_eq!(time_of_day(now, -86_399), Some(time(22, 13, 21)));
    assert_eq!(time_of_day(0, -1), Some(time(23, 59, 59)));
}

#[test]
fn time_of_day_has_its_limits() {
    assert_eq!(time_of_day(0, 86_400), None);
    assert_eq!(time_of_day(0, -86_400), None);
    assert_eq!(time_of_day(0, i32::MAX), None);
    assert_eq!(time_of_day(0, i32::MIN), None);
    assert_eq!(time_of_day(8_000_000_000_000_001, 0), None);
    assert_eq!(time_of_day(-8_000_000_000_000_001, 0), None);
    assert_eq!(time_of_day(i64::MAX, 0), None);
    assert_eq!(time_of_day(i64::MIN, 0), None);
    // 8 * 10^15 ms is 92 592 592 days, 14 hours, 13 minutes and 20 seconds
    assert_eq!(time_of_day(8_000_000_000_000_000, 0), Some(time(14, 13, 20)));
    assert_eq!(time_of_day(-8_000_000_000_000_000, 0), Some(time(9, 46, 40)));
    assert_eq!(time_of_day(8_000_000_000_000_000, 86_399), Some(time(14, 13, 19)));
    assert_eq!(time_of_day(-8_000_000_000_000_000, -86_399), Some(time(9, 46, 41)));
}

// ---- clock ----

#[test]
fn hour_hand_at_twelve_three_and_half_past_midnight() {
    assert!(mdn_clock_example::hour_hand_angle(time(12, 0, 0)).equals(Ratio::whole(0)));
    assert!(mdn_clock_example::hour_hand_angle(time(3, 0, 0)).equals(Ratio::whole(90)));
    assert!(mdn_clock_example::hour_hand_angle(time(0, 30, 0)).equals(Ratio::whole(15)));
}

#[test]
fn hour_hand_exact_values() {
    assert_eq!(mdn_clock_example::hour_hand_angle(time(3, 0, 0)), Ratio::new(10800, 120));
    assert_eq!(mdn_clock_example::hour_hand_angle(time(15, 0, 0)), Ratio::new(10800, 120));
    assert_eq!(mdn_clock_example::hour_hand_angle(time(0, 0, 1)), Ratio::new(1, 120));
    assert_eq!(mdn_clock_example::hour_hand_angle(time(11, 59, 59)), Ratio::new(43199, 120));
    assert_eq!(mdn_clock_example::hour_hand_angle(time(23, 59, 59)), Ratio::new(43199, 120));
}

#[test]
fn minute_and_second_hand_exact_values() {
    assert_eq!(mdn_clock_example::minute_hand_angle(time(7, 15, 30)), Ratio::new(930, 10));
    assert!(mdn_clock_example::minute_hand_angle(time(7, 15, 0)).equals(Ratio::whole(90)));
    assert!(mdn_clock_example::minute_hand_angle(time(7, 0, 10)).equals(Ratio::whole(1)));
    assert_eq!(mdn_clock_example::second_hand_angle(time(7, 15, 45)), Ratio::whole(270));
    assert_eq!(mdn_clock_example::second_hand_angle(time(7, 15, 0)), Ratio::whole(0));
    assert_eq!(mdn_clock_example::second_hand_angle(time(7, 15, 59)), Ratio::whole(354));
}

#[test]
fn clock_has_ticks_hands_and_rim() {
    let g = mdn_clock_example::Geometry::standard();
    let t = time(10, 8, 42);
    let commands = mdn_clock_example::draw(&g, t);
    assert_eq!(commands.len(), 365);
    assert_eq!(commands[0], DrawCommand::Save);
    assert_eq!(commands[1], DrawCommand::ClearRect { width: 150, height: 150 });
    assert_eq!(
        commands[2],
        DrawCommand::Translate { x: Ratio::new(150, 2), y: Ratio::new(150, 2) }
    );
    assert_eq!(commands[3], DrawCommand::Scale { x: Ratio::new(150, 375), y: Ratio::new(150, 375) });
    assert_eq!(commands[4], DrawCommand::Rotate { degrees: Ratio::whole(-90) });

    let strokes = commands.iter().filter(|c| **c == DrawCommand::Stroke).count();
    // 12 hour ticks, 48 minute ticks, 3 hands, the ring on the second hand, the rim
    assert_eq!(strokes, 12 + 48 + 3 + 1 + 1);
    let by_30 = DrawCommand::Rotate { degrees: Ratio::whole(30) };
    let by_6 = DrawCommand::Rotate { degrees: Ratio::whole(6) };
    assert_eq!(commands.iter().filter(|c| **c == by_30).count(), 12);
    assert_eq!(commands.iter().filter(|c| **c == by_6).count(), 60);

    let hands: Vec<Ratio> = commands[327..]
        .iter()
        .filter_map(|c| match c {
            DrawCommand::Rotate { degrees } => Some(*degrees),
            _ => None,
        })
        .collect();
    assert_eq!(
        hands,
        vec![
            mdn_clock_example::hour_hand_angle(t),
            mdn_clock_example::minute_hand_angle(t),
            mdn_clock_example::second_hand_angle(t)
        ]
    );
    assert_eq!(hands, vec![Ratio::new(36522, 120), Ratio::new(522, 10), Ratio::whole(252)]);
    assert_eq!(
        commands[commands.len() - 3],
        full_circle(Ratio::whole(0), Ratio::whole(0), Ratio::whole(142))
    );
    assert_eq!(commands[commands.len() - 1], DrawCommand::Restore);
}

#[test]
fn clock_minute_ticks_skip_the_hour_ticks() {
    let g = mdn_clock_example::Geometry::standard();
    let commands = mdn_clock_example::draw(&g, time(0, 0, 0));
    // minute ticks start after the setup (9) and the hour ticks (62)
    assert_eq!(commands[71], DrawCommand::Save);
    assert_eq!(commands[72], DrawCommand::SetLineWidth { pixels: Ratio::whole(5) });
    // tick 0 is skipped: only the frame turns
    assert_eq!(commands[73], DrawCommand::Rotate { degrees: Ratio::whole(6) });
    // tick 1 is drawn
    assert_eq!(commands[74], DrawCommand::BeginPath);
    assert_eq!(commands[75], DrawCommand::MoveTo { x: Ratio::whole(117), y: Ratio::whole(0) });
    assert_eq!(commands[76], DrawCommand::LineTo { x: Ratio::whole(120), y: Ratio::whole(0) });
    assert_eq!(commands[77], DrawCommand::Stroke);
    assert_eq!(commands[78], DrawCommand::Rotate { degrees: Ratio::whole(6) });
    assert_eq!(commands[325], DrawCommand::Restore);
}

#[test]
fn clock_restores_every_save() {
    let g = mdn_clock_example::Geometry { size: 300 };
    let commands = mdn_clock_example::draw(&g, time(17, 45, 3));
    let mut depth = 0;
    for command in &commands {
        match command {
            DrawCommand::Save => depth += 1,
            DrawCommand::Restore => {
                assert!(depth > 0);
                depth -= 1;
            }
            DrawCommand::Translate { .. } | DrawCommand::Scale { .. } | DrawCommand::Rotate { .. } => {
                assert!(depth > 0)
            }
            _ => {}
        }
    }
    assert_eq!(depth, 0);
}

#[test]
fn clock_is_the_same_twelve_hours_later() {
    let g = mdn_clock_example::Geometry::standard();
    assert_eq!(mdn_clock_example::draw(&g, time(4, 20, 9)), mdn_clock_example::draw(&g, time(16, 20, 9)));
    assert_ne!(mdn_clock_example::draw(&g, time(4, 20, 9)), mdn_clock_example::draw(&g, time(4, 20, 10)));
}

// ---- waving dots ----

#[test]
fn dot_radius_exact_values() {
    let g = dm_waving_dots_square::Geometry::standard();
    assert_eq!(dm_waving_dots_square::dot_radius(&g, 0, 0), Ratio::new(0, 31968));
    // 16 * 500 + 999 * 1 = 8999
    assert_eq!(dm_waving_dots_square::wave_numerator(&g, 1, 500), 8999);
    assert_eq!(dm_waving_dots_square::dot_radius(&g, 1, 500), Ratio::new(269970, 31968));
    // 16 * 999 + 999 * 16 = 2 * 15984: the wave has come round
    assert_eq!(dm_waving_dots_square::dot_radius(&g, 16, 999), Ratio::new(0, 31968));
    // 16 * 250 + 999 * 8 = 11992
    assert_eq!(dm_waving_dots_square::dot_radius(&g, 8, 1250), Ratio::new(359760, 31968));
    // 16 * 999 + 999 * 3 = 18981 = 15984 + 2997
    assert_eq!(dm_waving_dots_square::dot_radius(&g, 3, 999), Ratio::new(89910, 31968));
}

#[test]
fn dot_radius_follows_the_formula() {
    let g = dm_waving_dots_square::Geometry::standard();
    for i in [0u32, 1, 5, 16, 17, 100, 255] {
        for now in [0i64, 1, 333, 500, 998, 999, 1000, 86_400_123] {
            let d = 30.0;
            let phase = (i % 17) as f64 / 16.0;
            let expected = ((now % 1000) as f64 / 999.0 * (d / 2.0) + phase * d / 2.0) % (d / 2.0);
            let radius = value(dm_waving_dots_square::dot_radius(&g, i, now));
            let gap = (radius - expected).abs();
            // the two agree but for rounding, which shows where the radius wraps round
            assert!(gap < 1e-9 || (gap - 15.0).abs() < 1e-9, "dot {} at {}", i, now);
            assert!((0.0..15.0).contains(&radius));
        }
    }
}

#[test]
fn dot_level_is_linear_in_the_radius() {
    let g = dm_waving_dots_square::Geometry::standard();
    assert_eq!(dm_waving_dots_square::dot_level(&g, 0, 0), Ratio::new(4075920, 15984));
    assert_eq!(dm_waving_dots_square::dot_level(&g, 1, 500), Ratio::new(1781175, 15984));
    for i in [0u32, 7, 33, 255] {
        for now in [0i64, 250, 999, 123_456_789] {
            let radius = value(dm_waving_dots_square::dot_radius(&g, i, now));
            let level = value(dm_waving_dots_square::dot_level(&g, i, now));
            assert!((level - (255.0 - radius / 30.0 * 2.0 * 255.0)).abs() < 1e-9);
        }
    }
}

#[test]
fn dot_centers_are_the_middles_of_the_cells() {
    let g = dm_waving_dots_square::Geometry::standard();
    assert_eq!(dm_waving_dots_square::dot_center(&g, 0), (Ratio::new(30, 2), Ratio::new(30, 2)));
    assert_eq!(dm_waving_dots_square::dot_center(&g, 15), (Ratio::new(930, 2), Ratio::new(30, 2)));
    assert_eq!(dm_waving_dots_square::dot_center(&g, 16), (Ratio::new(30, 2), Ratio::new(90, 2)));
    assert_eq!(dm_waving_dots_square::dot_center(&g, 255), (Ratio::new(930, 2), Ratio::new(930, 2)));
}

#[test]
fn dot_radius_has_a_period_of_one_second() {
    let g = dm_waving_dots_square::Geometry::standard();
    for i in 0..256u32 {
        for now in [-2500i64, -1000, -1, 0, 1, 499, 999, 1000, 1_700_000_000_123] {
            assert_eq!(
                dm_waving_dots_square::dot_radius(&g, i, now),
                dm_waving_dots_square::dot_radius(&g, i, now + 1000)
            );
        }
    }
}

#[test]
fn dots_frame_has_a_period_of_one_second() {
    let g = dm_waving_dots_square::Geometry { n_edge: 5, dot_size: 7 };
    for now in [-1i64, 0, 250, 999, 54_321] {
        assert_eq!(dm_waving_dots_square::draw(&g, now), dm_waving_dots_square::draw(&g, now + 1000));
    }
    assert_ne!(dm_waving_dots_square::draw(&g, 0), dm_waving_dots_square::draw(&g, 500));
}

#[test]
fn dots_of_a_time_before_the_epoch() {
    let g = dm_waving_dots_square::Geometry::standard();
    // one millisecond before the epoch is the last millisecond of a period
    assert_eq!(dm_waving_dots_square::wave_numerator(&g, 3, -1), 2997);
    assert_eq!(
        dm_waving_dots_square::dot_radius(&g, 3, -1),
        dm_waving_dots_square::dot_radius(&g, 3, 999)
    );
    assert_eq!(dm_waving_dots_square::wave_numerator(&g, 0, i64::MIN), 16 * 192);
    assert_eq!(dm_waving_dots_square::wave_numerator(&g, 0, i64::MAX), 16 * 807);
}

#[test]
fn dots_frame_clears_then_paints_every_dot() {
    let g = dm_waving_dots_square::Geometry::standard();
    let commands = dm_waving_dots_square::draw(&g, 500);
    assert_eq!(g.extent(), 480);
    assert_eq!(g.dot_count(), 256);
    assert_eq!(commands.len(), 1 + 4 * 256);
    assert_eq!(commands[0], DrawCommand::ClearRect { width: 480, height: 480 });
    for i in 0..256u32 {
        let at = 1 + 4 * i as usize;
        let (x, y) = dm_waving_dots_square::dot_center(&g, i);
        assert_eq!(
            commands[at],
            DrawCommand::SetFillStyle {
                color: Color::gray(dm_waving_dots_square::dot_level(&g, i, 500))
            }
        );
        assert_eq!(commands[at + 1], DrawCommand::BeginPath);
        assert_eq!(
            commands[at + 2],
            full_circle(x, y, dm_waving_dots_square::dot_radius(&g, i, 500))
        );
        assert_eq!(commands[at + 3], DrawCommand::Fill);
    }
    assert_eq!(
        commands[5..9],
        [
            DrawCommand::SetFillStyle { color: Color::gray(Ratio::new(1781175, 15984)) },
            DrawCommand::BeginPath,
            full_circle(Ratio::new(90, 2), Ratio::new(30, 2), Ratio::new(269970, 31968)),
            DrawCommand::Fill,
        ]
    );
}

#[test]
fn smallest_and_largest_grid() {
    let g = dm_waving_dots_square::Geometry { n_edge: 1, dot_size: 1 };
    let commands = dm_waving_dots_square::draw(&g, 998);
    assert_eq!(commands.len(), 5);
    assert_eq!(commands[0], DrawCommand::ClearRect { width: 1, height: 1 });
    assert_eq!(commands[3], full_circle(Ratio::new(1, 2), Ratio::new(1, 2), Ratio::new(998, 1998)));

    let g = dm_waving_dots_square::Geometry { n_edge: u16::MAX, dot_size: u16::MAX };
    assert_eq!(g.extent(), 65535 * 65535);
    let last = g.dot_count() - 1;
    assert_eq!(last, 65535 * 65535 - 1);
    assert_eq!(
        dm_waving_dots_square::dot_center(&g, last),
        (Ratio::new(65535 * 131069, 2), Ratio::new(65535 * 131069, 2))
    );
    let radius = dm_waving_dots_square::dot_radius(&g, last, 999);
    assert_eq!(radius.den, 2 * 999 * 65535);
    assert!(0 <= radius.num && radius.num < 65535 * 999 * 65535);
}

// ---- seigaiha ----

#[test]
fn chip_angle_exact_values() {
    let g = dm_seigaiha::Geometry::standard();
    assert_eq!(dm_seigaiha::chip_angle(&g, 0, 0), Ratio::new(0, 225));
    assert!(dm_seigaiha::chip_angle(&g, 0, 1500).equals(Ratio::whole(180)));
    assert!(dm_seigaiha::chip_angle(&g, 1, 0).equals(Ratio::whole(20)));
    assert!(dm_seigaiha::chip_angle(&g, 9, 0).equals(Ratio::whole(180)));
    assert!(dm_seigaiha::chip_angle(&g, 10, 0).equals(Ratio::whole(0)));
    // 27 * 2999 + 4500 * 7 = 112473
    assert_eq!(dm_seigaiha::chip_angle(&g, 7, 2999), Ratio::new(112473, 225));
    assert_eq!(dm_seigaiha::chip_angle(&g, 7, -1), Ratio::new(112473, 225));
}

#[test]
fn chip_angle_follows_the_formula() {
    let g = dm_seigaiha::Geometry::standard();
    for i in [0u64, 1, 9, 10, 11, 150, 296] {
        for now in [0i64, 1, 1499, 2999, 3000, 1_700_000_000_123] {
            let chipping = (now as f64 % 3000.0) / 3000.0 * 360.0;
            let offset = (i % 10) as f64 / 9.0 * 180.0;
            let angle = value(dm_seigaiha::chip_angle(&g, i, now));
            assert!((angle - (chipping + offset)).abs() < 1e-9, "disc {} at {}", i, now);
        }
    }
}

#[test]
fn chip_angle_has_a_period_of_three_seconds() {
    let g = dm_seigaiha::Geometry::standard();
    for i in 0..297u64 {
        for now in [-4500i64, -3000, -1, 0, 1, 1499, 2999, 3000, 1_700_000_000_123] {
            assert_eq!(dm_seigaiha::chip_angle(&g, i, now), dm_seigaiha::chip_angle(&g, i, now + 3000));
        }
    }
}

#[test]
fn seigaiha_frame_has_a_period_of_three_seconds() {
    let g = dm_seigaiha::Geometry { canvas_width: 100, canvas_height: 80, n_circle: 3 };
    for now in [-1i64, 0, 1000, 2999, 54_321] {
        assert_eq!(dm_seigaiha::draw(&g, now), dm_seigaiha::draw(&g, now + 3000));
    }
    assert_ne!(dm_seigaiha::draw(&g, 0), dm_seigaiha::draw(&g, 1000));
}

#[test]
fn discs_lie_in_staggered_rows() {
    let g = dm_seigaiha::Geometry::standard();
    assert_eq!(g.circle_size(), 60);
    assert_eq!(g.dot_count(), 297);
    assert_eq!(dm_seigaiha::dot_center(&g, 0), (Ratio::new(0, 2), Ratio::new(60, 4)));
    assert_eq!(dm_seigaiha::dot_center(&g, 8), (Ratio::new(960, 2), Ratio::new(60, 4)));
    assert_eq!(dm_seigaiha::dot_center(&g, 9), (Ratio::new(60, 2), Ratio::new(120, 4)));
    assert_eq!(dm_seigaiha::dot_center(&g, 19), (Ratio::new(120, 2), Ratio::new(180, 4)));
    assert_eq!(dm_seigaiha::dot_center(&g, 296), (Ratio::new(960, 2), Ratio::new(1980, 4)));
}

#[test]
fn seigaiha_frame_clears_then_paints_every_disc() {
    let g = dm_seigaiha::Geometry::standard();
    let now = 1000;
    let commands = dm_seigaiha::draw(&g, now);
    assert_eq!(commands.len(), 1 + 297 * (6 + 3 * 5));
    assert_eq!(commands[0], DrawCommand::ClearRect { width: 480, height: 480 });
    for i in 0..297u64 {
        let at = 1 + 21 * i as usize;
        let (x, y) = dm_seigaiha::dot_center(&g, i);
        let angle = dm_seigaiha::chip_angle(&g, i, now);
        assert_eq!(commands[at], DrawCommand::SetFillStyle { color: Color::rgb(255, 255, 255) });
        assert_eq!(commands[at + 1], DrawCommand::BeginPath);
        assert_eq!(commands[at + 2], full_circle(x, y, Ratio::new(60, 2)));
        assert_eq!(commands[at + 3], DrawCommand::Fill);
        assert_eq!(commands[at + 4], DrawCommand::SetLineWidth { pixels: Ratio::new(60, 16) });
        assert_eq!(commands[at + 5], DrawCommand::SetStrokeStyle { color: Color::rgb(59, 93, 160) });
        for j in 0..5i64 {
            let ring = at + 6 + 3 * j as usize;
            assert_eq!(commands[ring], DrawCommand::BeginPath);
            assert_eq!(
                commands[ring + 1],
                DrawCommand::Arc {
                    x,
                    y,
                    radius: Ratio::new(60 * j, 8),
                    start_degrees: Ratio::new(angle.num + 6750 * j, 225),
                    end_degrees: Ratio::new(angle.num + 6750 * j + 72900, 225),
                    anticlockwise: false,
                }
            );
            assert_eq!(commands[ring + 2], DrawCommand::Stroke);
        }
    }
}

#[test]
fn rings_span_nine_tenths_of_a_turn() {
    let g = dm_seigaiha::Geometry { canvas_width: 300, canvas_height: 300, n_circle: 4 };
    let commands = dm_seigaiha::draw(&g, 777);
    let mut rings = 0;
    for command in &commands {
        if let DrawCommand::Arc { start_degrees, end_degrees, anticlockwise: false, .. } = command {
            assert!((value(*end_degrees) - value(*start_degrees) - 324.0).abs() < 1e-9);
            rings += 1;
        }
    }
    assert_eq!(rings, 5 * 17 * 5);
}

#[test]
fn third_ring_starts_sixty_degrees_after_the_first() {
    let g = dm_seigaiha::Geometry::standard();
    let commands = dm_seigaiha::draw(&g, 0);
    // disc 1: its rings start 20 degrees on
    let first = 1 + 21 + 6 + 1;
    match (commands[first], commands[first + 6]) {
        (
            DrawCommand::Arc { start_degrees: a, radius: ra, .. },
            DrawCommand::Arc { start_degrees: b, radius: rb, .. },
        ) => {
            assert!(a.equals(Ratio::whole(20)));
            assert!(b.equals(Ratio::whole(80)));
            assert!(ra.equals(Ratio::whole(0)));
            assert!(rb.equals(Ratio::whole(15)));
        }
        other => panic!("not two arcs: {:?}", other),
    }
}

// ---- the renderer of a work ----

#[test]
fn renderer_draws_its_animation() {
    let dots = dm_waving_dots_square::Geometry::standard();
    let waves = dm_seigaiha::Geometry::standard();
    let clock = mdn_clock_example::Geometry::standard();
    let t = time(9, 41, 7);
    assert_eq!(
        Renderer::DmWavingDotsSquare(dots).draw(321, None),
        dm_waving_dots_square::draw(&dots, 321)
    );
    assert_eq!(
        Renderer::DmWavingDotsSquare(dots).draw(321, Some(t)),
        dm_waving_dots_square::draw(&dots, 321)
    );
    assert_eq!(Renderer::DmSeigaiha(waves).draw(321, None), dm_seigaiha::draw(&waves, 321));
    assert_eq!(
        Renderer::MdnClockExample(clock).draw(321, Some(t)),
        mdn_clock_example::draw(&clock, t)
    );
    assert_eq!(
        Renderer::MdnClockExample(clock).draw(321, None),
        vec![DrawCommand::ClearRect { width: 150, height: 150 }]
    );
    assert_eq!(mdn_clock_example::draw_blank(&clock), Renderer::MdnClockExample(clock).draw(0, None));
}

#[test]
fn renderer_draws_at_a_moment_in_a_zone() {
    let dots = dm_waving_dots_square::Geometry::standard();
    let waves = dm_seigaiha::Geometry::standard();
    let clock = mdn_clock_example::Geometry::standard();
    let now = 1_700_000_000_123;
    for offset in [-3600, 0, 19_800, 86_400] {
        assert_eq!(
            Renderer::DmWavingDotsSquare(dots).draw_at(now, offset),
            dm_waving_dots_square::draw(&dots, now)
        );
        assert_eq!(Renderer::DmSeigaiha(waves).draw_at(now, offset), dm_seigaiha::draw(&waves, now));
    }
    assert_eq!(
        Renderer::MdnClockExample(clock).draw_at(now, 3600),
        mdn_clock_example::draw(&clock, time(23, 13, 20))
    );
    assert_eq!(
        Renderer::MdnClockExample(clock).draw_at(now, 86_400),
        mdn_clock_example::draw_blank(&clock)
    );
}

#[test]
fn only_the_clock_shows_the_time_of_day() {
    assert!(Renderer::MdnClockExample(mdn_clock_example::Geometry::standard()).shows_time_of_day());
    assert!(!Renderer::DmWavingDotsSquare(dm_waving_dots_square::Geometry::standard())
        .shows_time_of_day());
    assert!(!Renderer::DmSeigaiha(dm_seigaiha::Geometry::standard()).shows_time_of_day());
}

#[test]
fn surfaces_fit_the_frames() {
    let dots = dm_waving_dots_square::Geometry::standard();
    let waves = dm_seigaiha::Geometry::standard();
    let clock = mdn_clock_example::Geometry::standard();
    assert_eq!(
        dm_waving_dots_square::page_content(&dots),
        Surface { width: 480, height: 480, corner_radius: 15 }
    );
    assert_eq!(dm_seigaiha::page_content(&waves), Surface { width: 480, height: 480, corner_radius: 0 });
    assert_eq!(
        mdn_clock_example::page_content(&clock),
        Surface { width: 150, height: 150, corner_radius: 0 }
    );
    assert_eq!(Renderer::DmWavingDotsSquare(dots).surface(), dm_waving_dots_square::page_content(&dots));
    assert_eq!(Renderer::DmSeigaiha(waves).surface(), dm_seigaiha::page_content(&waves));
    assert_eq!(Renderer::MdnClockExample(clock).surface(), mdn_clock_example::page_content(&clock));
}

// ---- what every frame keeps to ----

#[test]
fn geometries_are_checked() {
    assert_eq!(
        dm_waving_dots_square::Geometry::new(16, 30),
        Some(dm_waving_dots_square::Geometry::standard())
    );
    assert_eq!(dm_waving_dots_square::Geometry::new(0, 30), None);
    assert_eq!(dm_waving_dots_square::Geometry::new(16, 0), None);
    assert_eq!(dm_seigaiha::Geometry::new(480, 480, 8), Some(dm_seigaiha::Geometry::standard()));
    assert_eq!(dm_seigaiha::Geometry::new(480, 480, 0), None);
    assert_eq!(
        dm_seigaiha::Geometry::new(0, 0, 1),
        Some(dm_seigaiha::Geometry { canvas_width: 0, canvas_height: 0, n_circle: 1 })
    );

    assert!(Renderer::MdnClockExample(mdn_clock_example::Geometry { size: 0 }).can_draw());
    assert!(Renderer::DmWavingDotsSquare(dm_waving_dots_square::Geometry::standard()).can_draw());
    assert!(!Renderer::DmWavingDotsSquare(dm_waving_dots_square::Geometry {
        n_edge: 0,
        dot_size: 30
    })
    .can_draw());
    assert!(!Renderer::DmWavingDotsSquare(dm_waving_dots_square::Geometry {
        n_edge: 16,
        dot_size: 0
    })
    .can_draw());
    assert!(Renderer::DmSeigaiha(dm_seigaiha::Geometry::standard()).can_draw());
    assert!(!Renderer::DmSeigaiha(dm_seigaiha::Geometry {
        canvas_width: 480,
        canvas_height: 480,
        n_circle: 0
    })
    .can_draw());
}

fn is_fraction(r: Ratio) -> bool {
    r.den > 0
}

fn is_level(r: Ratio) -> bool {
    r.den > 0 && 0 <= r.num && r.num <= 255 * r.den
}

fn is_color(c: Color) -> bool {
    is_level(c.red) && is_level(c.green) && is_level(c.blue)
}

fn can_be_painted(command: &DrawCommand) -> bool {
    match *command {
        DrawCommand::Translate { x, y }
        | DrawCommand::Scale { x, y }
        | DrawCommand::MoveTo { x, y }
        | DrawCommand::LineTo { x, y } => is_fraction(x) && is_fraction(y),
        DrawCommand::Rotate { degrees } => is_fraction(degrees),
        DrawCommand::SetFillStyle { color } | DrawCommand::SetStrokeStyle { color } => {
            is_color(color)
        }
        DrawCommand::SetLineWidth { pixels } => is_fraction(pixels),
        DrawCommand::Arc { x, y, radius, start_degrees, end_degrees, .. } => {
            is_fraction(x)
                && is_fraction(y)
                && is_fraction(radius)
                && radius.num >= 0
                && is_fraction(start_degrees)
                && is_fraction(end_degrees)
        }
        _ => true,
    }
}

fn keeps_the_frame(commands: &[DrawCommand]) -> bool {
    let mut depth = 0;
    for command in commands {
        match command {
            DrawCommand::Save => depth += 1,
            DrawCommand::Restore if depth == 0 => return false,
            DrawCommand::Restore => depth -= 1,
            DrawCommand::Translate { .. } | DrawCommand::Scale { .. } | DrawCommand::Rotate { .. }
                if depth == 0 =>
            {
                return false
            }
            _ => {}
        }
    }
    depth == 0
}

#[test]
fn every_frame_can_be_painted_and_keeps_the_frame() {
    let renderers = [
        Renderer::MdnClockExample(mdn_clock_example::Geometry::standard()),
        Renderer::MdnClockExample(mdn_clock_example::Geometry { size: 0 }),
        Renderer::DmWavingDotsSquare(dm_waving_dots_square::Geometry::standard()),
        Renderer::DmWavingDotsSquare(dm_waving_dots_square::Geometry { n_edge: 3, dot_size: 65535 }),
        Renderer::DmSeigaiha(dm_seigaiha::Geometry::standard()),
        Renderer::DmSeigaiha(dm_seigaiha::Geometry {
            canvas_width: 65535,
            canvas_height: 7,
            n_circle: 2,
        }),
    ];
    for renderer in renderers {
        for now in [i64::MIN, -1, 0, 999, 2999, 1_700_000_000_123, i64::MAX] {
            for local in [None, Some(time(0, 0, 0)), Some(time(23, 59, 59))] {
                let commands = renderer.draw(now, local);
                assert!(commands.iter().all(can_be_painted));
                assert!(keeps_the_frame(&commands));
            }
        }
    }
}
