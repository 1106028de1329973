use ps_move_server::color::{Hsv, HUE_FULL, UNIT};
use ps_move_server::led_effects::{LedEffect, LedEffectKind, BOUNCE_HUE_TOLERANCE};
use ps_move_server::rumble_effects::{RumbleEffect, RumbleEffectKind};

fn breathing_state(kind: &LedEffectKind) -> (bool, u64) {
    match kind {
        LedEffectKind::Breathing { inhaling, last_update, .. } => (*inhaling, *last_update),
        _ => panic!("not a breathing effect"),
    }
}

#[test]
fn breathing_reaches_peak_after_time_to_peak() {
    let mut kind = LedEffectKind::new_timed_breathing(Hsv::new(120000, 1000, 100), 1000, 800, 0);
    let mut hsv = kind.get_initial_hsv();
    assert_eq!(hsv.value, 100);
    for now in 1..1000u64 {
        hsv = kind.get_updated_hsv(hsv, now);
        assert!(hsv.value >= 100 && hsv.value < 800);
        assert!(breathing_state(&kind).0);
    }
    hsv = kind.get_updated_hsv(hsv, 1000);
    assert_eq!(hsv.value, 800);
    assert_eq!(breathing_state(&kind), (false, 1000));
    assert_eq!(hsv.hue, 120000);
    assert_eq!(hsv.saturation, 1000);
}

#[test]
fn breathing_is_quadratic() {
    let mut kind = LedEffectKind::new_timed_breathing(Hsv::new(0, 1000, 100), 1000, 800, 0);
    let hsv = kind.get_updated_hsv(Hsv::new(0, 1000, 100), 500);
    assert_eq!(hsv.value, 275);
}

#[test]
fn breathing_exhales_back_to_initial() {
    let mut kind = LedEffectKind::new_timed_breathing(Hsv::new(0, 1000, 100), 1000, 800, 0);
    let mut hsv = kind.get_updated_hsv(Hsv::new(0, 1000, 100), 1000);
    assert_eq!(hsv.value, 800);
    hsv = kind.get_updated_hsv(hsv, 1500);
    assert_eq!(hsv.value, 625);
    assert!(!breathing_state(&kind).0);
    hsv = kind.get_updated_hsv(hsv, 2000);
    assert_eq!(hsv.value, 100);
    assert_eq!(breathing_state(&kind), (true, 2000));
}

#[test]
fn breathing_stays_within_bounds_over_cycles() {
    let mut kind = LedEffectKind::new_timed_breathing(Hsv::new(0, 500, 200), 37, 650, 0);
    let mut hsv = kind.get_initial_hsv();
    let mut flips = 0;
    let mut last = breathing_state(&kind).0;
    for now in 0..1000u64 {
        hsv = kind.get_updated_hsv(hsv, now);
        assert!(hsv.value >= 200 && hsv.value <= 650);
        let (inhaling, _) = breathing_state(&kind);
        if inhaling != last {
            flips += 1;
            assert_eq!(hsv.value, if last { 650 } else { 200 });
        }
        last = inhaling;
    }
    assert!(flips >= 20);
}

#[test]
fn blink_toggles_after_half_interval() {
    let color = Hsv::new(42000, 1000, 350);
    let mut kind = LedEffectKind::Blink { hsv: color, interval: 500, last_blink: 0 };
    let mut hsv = kind.get_initial_hsv();
    assert_eq!(hsv, color);
    hsv = kind.get_updated_hsv(hsv, 250);
    assert_eq!(hsv, color);
    hsv = kind.get_updated_hsv(hsv, 251);
    assert_eq!(hsv, Hsv::off());
    hsv = kind.get_updated_hsv(hsv, 400);
    assert_eq!(hsv, Hsv::off());
    hsv = kind.get_updated_hsv(hsv, 502);
    assert_eq!(hsv, color);
}

#[test]
fn rainbow_steps_hue_and_wraps() {
    let mut kind = LedEffectKind::new_timed_rainbow(1000, 500, 3000);
    match kind {
        LedEffectKind::Rainbow { step, .. } => assert_eq!(step, 120),
        _ => panic!("not a rainbow"),
    }
    let start = kind.get_initial_hsv();
    assert_eq!(start, Hsv::new(0, 1000, 500));
    let next = kind.get_updated_hsv(Hsv::new(HUE_FULL - 60, 1000, 500), 5);
    assert_eq!(next.hue, 60);
    let again = kind.get_updated_hsv(Hsv::new(HUE_FULL - 60, 1000, 500), 9);
    assert_eq!(next, again);
}

#[test]
fn static_and_off_are_constant() {
    let color = Hsv::new(120000, 1000, 500);
    let mut kind = LedEffectKind::Static { hsv: color };
    assert_eq!(kind.get_updated_hsv(Hsv::off(), 10), color);
    let mut off = LedEffectKind::Off;
    assert_eq!(off.get_updated_hsv(color, 10), Hsv::off());
}

#[test]
fn candle_stays_within_range_and_varies() {
    let mut kind = LedEffectKind::new_candle(30000, 900, 200, 800, 0, Some(0), 0);
    assert_eq!(kind.get_initial_hsv(), Hsv::new(30000, 900, 200));
    let mut hsv = kind.get_initial_hsv();
    let mut seen = std::collections::HashSet::new();
    for now in 1..300u64 {
        hsv = kind.get_updated_hsv(hsv, now);
        assert!(hsv.value >= 200 && hsv.value <= 800);
        assert_eq!(hsv.hue, 30000);
        seen.insert(hsv.value);
    }
    assert!(seen.len() > 1);
}

#[test]
fn candle_widened_range_is_clamped() {
    let kind = LedEffectKind::new_candle(0, 1000, 400, 600, 500, None, 7);
    match kind {
        LedEffectKind::Candle { sample_low, sample_high, interval, last_change, .. } => {
            assert_eq!(sample_low, 300);
            assert_eq!(sample_high, 700);
            assert_eq!(interval, 1);
            assert_eq!(last_change, 7);
        }
        _ => panic!("not a candle"),
    }
    let mut kind = kind;
    let mut hsv = kind.get_initial_hsv();
    for now in 8..400u64 {
        hsv = kind.get_updated_hsv(hsv, now);
        assert!(hsv.value >= 400 && hsv.value <= 600);
    }
}

#[test]
fn bounce_reaches_each_color_and_wraps() {
    let mut kind = LedEffectKind::new_bounce(vec![0, 120000, 240000], 1000, 1000, 100);
    let mut hsv = kind.get_initial_hsv();
    assert_eq!(hsv.hue, 0);
    let mut arrivals = Vec::new();
    let mut ticks_since = 0u32;
    for now in 0..200u64 {
        let before = match &kind {
            LedEffectKind::Bounce { next_color_index, .. } => *next_color_index,
            _ => panic!("not a bounce"),
        };
        hsv = kind.get_updated_hsv(hsv, now);
        ticks_since += 1;
        let after = match &kind {
            LedEffectKind::Bounce { next_color_index, .. } => *next_color_index,
            _ => panic!("not a bounce"),
        };
        if after != before {
            let target = [0u32, 120000, 240000][before];
            let d = if hsv.hue > target { hsv.hue - target } else { target - hsv.hue };
            let d = d.min(HUE_FULL - d);
            assert!(d < BOUNCE_HUE_TOLERANCE);
            assert!(ticks_since <= UNIT / 100 + 1);
            arrivals.push(after);
            ticks_since = 0;
        }
    }
    assert!(arrivals.len() >= 4);
    assert_eq!(&arrivals[..4], &[2, 0, 1, 2]);
}

#[test]
fn mix_moves_along_short_arc() {
    let a = Hsv::new(350000, 1000, 0);
    let b = Hsv::new(10000, 0, 1000);
    let half = a.mix(b, 500);
    assert_eq!(half, Hsv::new(0, 500, 500));
    assert_eq!(a.mix(b, 1000), b);
    assert_eq!(a.mix(b, 5000), b);
    assert_eq!(a.mix(b, 0), a);
}

#[test]
fn hsv_new_normalises() {
    let c = Hsv::new(360000, 2000, 1500);
    assert_eq!(c, Hsv { hue: 0, saturation: 1000, value: 1000 });
}

#[test]
fn led_effect_expiry() {
    let effect = LedEffect::new_expiring(LedEffectKind::Off, 100, 1000);
    assert!(!effect.has_expired(1099));
    assert!(effect.has_expired(1100));
    assert!(effect.has_expired(1101));
    let lasting = LedEffect::from(LedEffectKind::Off, None, 5);
    assert_eq!(lasting.duration, None);
    assert!(!lasting.has_expired(u64::MAX));
    let timed = LedEffect::from(LedEffectKind::Off, Some(250), 5);
    assert_eq!(timed.duration, Some(250));
    assert!(timed.is_off());
}

#[test]
fn out_of_range_parameters_are_reported() {
    let bad = LedEffectKind::new_timed_breathing(Hsv::new(0, 1000, 900), 1000, 100, 0);
    assert!(bad.has_out_of_range_parameters());
    let good = LedEffectKind::new_timed_breathing(Hsv::new(0, 1000, 100), 1000, 900, 0);
    assert!(!good.has_out_of_range_parameters());
    let fast = LedEffectKind::Rainbow { saturation: 1000, value: 1000, step: HUE_FULL + 1 };
    assert!(fast.has_out_of_range_parameters());
    let rumble = RumbleEffectKind::Breathing { initial_strength: 600, step: 100, peak: 300, inhaling: true };
    assert!(rumble.has_out_of_range_parameters());
    let bright = LedEffectKind::new_timed_breathing(Hsv::new(0, 1000, 100), 1000, 1200, 0);
    assert!(bright.has_out_of_range_parameters());
    let wide = LedEffectKind::new_candle(0, 1000, 300, 1200, 0, None, 0);
    assert!(wide.has_out_of_range_parameters());
}

#[test]
fn rumble_breathing_steps_between_bounds() {
    let mut kind = RumbleEffectKind::Breathing { initial_strength: 200, step: 100, peak: 800, inhaling: true };
    let mut value = kind.get_initial_rumble();
    assert_eq!(value, 200);
    value = kind.get_updated_rumble(value, 0);
    assert_eq!(value, 280);
    for _ in 0..6 {
        value = kind.get_updated_rumble(value, 0);
    }
    assert_eq!(value, 760);
    value = kind.get_updated_rumble(value, 0);
    assert_eq!(value, 800);
    assert_eq!(kind, RumbleEffectKind::Breathing { initial_strength: 200, step: 100, peak: 800, inhaling: false });
    value = kind.get_updated_rumble(value, 0);
    assert_eq!(value, 720);
}

#[test]
fn rumble_blink_and_static() {
    let mut kind = RumbleEffectKind::Blink { strength: 700, interval: 100, last_blink: 0 };
    assert_eq!(kind.get_updated_rumble(700, 50), 700);
    assert_eq!(kind.get_updated_rumble(700, 51), 0);
    assert_eq!(kind.get_updated_rumble(0, 102), 700);
    let mut constant = RumbleEffectKind::Static { strength: 400 };
    assert_eq!(constant.get_updated_rumble(0, 1), 400);
    let mut off = RumbleEffectKind::Off;
    assert_eq!(off.get_updated_rumble(400, 1), 0);
    let effect = RumbleEffect::from(RumbleEffectKind::Off, Some(10), 0);
    assert!(effect.has_expired(10));
}

#[test]
fn well_formedness_checks() {
    assert!(LedEffectKind::new_bounce(vec![0, 1], 1000, 1000, 5).is_well_formed());
    let short = LedEffectKind::Bounce { colors: vec![Hsv::off()], step: 1, progress: 0, next_color_index: 0 };
    assert!(!short.is_well_formed());
    let bad_palette = LedEffectKind::Bounce {
        colors: vec![Hsv::off(), Hsv { hue: 0, saturation: 1001, value: 0 }],
        step: 1,
        progress: 0,
        next_color_index: 1,
    };
    assert!(bad_palette.is_well_formed());
    assert!(bad_palette.has_out_of_range_parameters());
    let bad_color = LedEffectKind::Static { hsv: Hsv { hue: HUE_FULL, saturation: 0, value: 0 } };
    assert!(bad_color.is_well_formed());
    assert!(bad_color.has_out_of_range_parameters());
    let empty_candle = LedEffectKind::Candle {
        hue: 0, saturation: 0, min_value: 0, max_value: 0, sample_low: 5, sample_high: 4, interval: 1, last_change: 0,
    };
    assert!(!empty_candle.is_well_formed());
    assert!(LedEffectKind::Off.is_well_formed());
    assert!(!LedEffectKind::Off.has_out_of_range_parameters());
    assert!(RumbleEffectKind::Static { strength: UNIT + 1 }.has_out_of_range_parameters());
    assert!(RumbleEffectKind::Breathing { initial_strength: 0, step: UNIT + 1, peak: 10, inhaling: true }.has_out_of_range_parameters());
    assert!(!RumbleEffectKind::Blink { strength: UNIT, interval: 1, last_blink: 0 }.has_out_of_range_parameters());
}

#[test]
fn bounce_with_out_of_range_palette_still_arrives() {
    let colors = vec![Hsv { hue: 0, saturation: 1000, value: 1000 }, Hsv { hue: HUE_FULL + 90000, saturation: 3000, value: 1000 }];
    let mut kind = LedEffectKind::Bounce { colors, step: 5000, progress: 0, next_color_index: 1 };
    let mut hsv = kind.get_initial_hsv();
    hsv = kind.get_updated_hsv(hsv, 0);
    assert_eq!(hsv.hue, 0);
    hsv = kind.get_updated_hsv(hsv, 1);
    assert_eq!(hsv, Hsv::new(90000, 1000, 1000));
    match kind {
        LedEffectKind::Bounce { progress, next_color_index, .. } => {
            assert_eq!(progress, 0);
            assert_eq!(next_color_index, 0);
        }
        _ => panic!("not a bounce"),
    }
}

#[test]
fn candle_clamps_given_sample() {
    let mut kind = LedEffectKind::new_candle(30000, 900, 200, 800, 500, Some(10), 0);
    let start = kind.get_initial_hsv();
    assert_eq!(kind.advance(start, 10, 950), start);
    assert_eq!(kind.advance(start, 11, 950), Hsv::new(30000, 900, 800));
    assert_eq!(kind.advance(start, 22, 100), Hsv::new(30000, 900, 200));
    assert_eq!(kind.advance(start, 33, 512), Hsv::new(30000, 900, 512));
    match kind {
        LedEffectKind::Candle { last_change, .. } => assert_eq!(last_change, 33),
        _ => panic!("not a candle"),
    }
}
