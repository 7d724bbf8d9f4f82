use demo_things::clock::Span;
use demo_things::fader::{fade_goal, Change, Fader};

fn share(delta: i8, ticks: u32, tick: u32) -> i8 {
    (f64::from(delta) / f64::from(ticks) * f64::from(tick)) as i8
}

fn place(initial: f64, delta: f64, ticks: u32, tick: u32, low: u8, high: u8) -> f64 {
    let current_delta = delta / f64::from(ticks) * f64::from(tick);
    (initial + current_delta).clamp(f64::from(low), f64::from(high))
}

#[test]
fn fade_up_in_steps() {
    let mut fader = Fader::default();
    let mut level = 50;
    assert!(!fader.tick(&mut level, share));
    assert_eq!(level, 50);

    fader.fade(50, 60, Span::from_millis(40));
    assert_eq!(fader.ticks, 4);
    let levels: Vec<u8> = (0..4)
        .map(|_| {
            assert!(fader.active);
            assert!(fader.tick(&mut level, share));
            level
        })
        .collect();
    assert_eq!(levels, vec![52, 55, 57, 60]);
    assert!(!fader.active);
    assert!(!fader.tick(&mut level, share));
    assert_eq!(level, 60);
}

#[test]
fn fade_down_tells_whether_the_level_changed() {
    let mut fader = Fader::default();
    let mut level = 10;
    fader.fade(10, 9, Span::from_millis(30));
    assert!(!fader.tick(&mut level, share));
    assert!(!fader.tick(&mut level, share));
    assert!(fader.tick(&mut level, share));
    assert_eq!(level, 9);
}

#[test]
fn short_fade_takes_one_step() {
    let mut fader = Fader::default();
    let mut level = 10;
    fader.fade(10, 90, Span::from_millis(9));
    assert_eq!(fader.ticks, 0);
    assert!(fader.active);
    assert!(fader.tick(&mut level, share));
    assert!(!fader.active);
    assert_eq!(level, 90);
    assert!(!fader.tick(&mut level, share));
    assert_eq!(level, 90);

    let mut level = 50;
    fader.fade(50, 60, Span::from_millis(5));
    fader.tick(&mut level, share);
    assert_eq!(level, 60);
    assert!(!fader.active);
}

#[test]
fn long_fade_is_capped() {
    let mut fader = Fader::default();
    fader.fade(0, 100, Span::from_secs(u64::MAX));
    assert_eq!(fader.ticks, u32::MAX / 10);
}

#[test]
fn whole_change_reaches_the_goal() {
    let mut fader = Fader::default();
    let mut level = 0;
    fader.fade(100, 3, Span::from_millis(10));
    fader.tick_by(&mut level, 0);
    assert_eq!(level, 3);
}

#[test]
fn steps_stay_within_bounds() {
    let mut fader = Fader::default();
    let mut level = 50;
    fader.fade(50, 60, Span::from_millis(100));
    fader.tick_by(&mut level, 127);
    assert_eq!(level, 100);
    fader.tick_by(&mut level, -128);
    assert_eq!(level, 0);
}

#[test]
fn goals_are_capped() {
    assert_eq!(fade_goal(0), 0);
    assert_eq!(fade_goal(100), 100);
    assert_eq!(fade_goal(101), 100);
    assert_eq!(fade_goal(255), 100);
}

#[test]
fn fades_end_at_their_level_whatever_is_due() {
    for (from, to, millis) in [(50, 60, 10), (0, 1, 490), (100, 0, 1000), (7, 7, 0), (3, 99, 1)] {
        for due in [-128, 0, 127] {
            let mut fader = Fader::default();
            let mut level = from;
            fader.fade(from, to, Span::from_millis(millis));
            for _ in 0..(millis / 10).max(1) {
                assert!(fader.active);
                fader.tick(&mut level, |_, _, _| due);
            }
            assert!(!fader.active);
            assert_eq!(level, to);
        }
    }
}

#[test]
fn fades_move_one_way() {
    for (from, to) in [(0, 100), (100, 0), (20, 23), (60, 59), (50, 50)] {
        let mut fader = Fader::default();
        let mut level: u8 = from;
        fader.fade(from, to, Span::from_millis(490));
        while fader.active {
            let before = level;
            fader.tick(&mut level, share);
            assert!(from.min(to) <= level && level <= from.max(to));
            assert!(if from <= to { before <= level } else { before >= level });
        }
        assert_eq!(level, to);
    }
}

fn idle() -> Fader<f64, Change<f64>> {
    Fader::idle(0., Change { by: 0., to: 0. })
}

fn difference(from: f64, to: f64) -> f64 {
    to - from
}

fn differs(a: f64, b: f64) -> bool {
    a != b
}

#[test]
fn fractional_fade() {
    let mut fader = idle();
    let mut level = 50.;
    fader.fade_float(level, 51., Span::from_millis(40), &difference);
    assert_eq!(fader.delta_level.by, 1.);
    let levels: Vec<f64> = (0..4)
        .map(|_| {
            fader.tick_float(&mut level, &place, &differs);
            level
        })
        .collect();
    assert_eq!(levels, vec![50.25, 50.5, 50.75, 51.]);
    fader.tick_float(&mut level, &place, &differs);
    assert_eq!(level, 51.);
}

#[test]
fn fractional_fade_of_no_length() {
    for (from, to) in [(50., 50.), (50., 60.), (12.5, 0.)] {
        let mut fader = idle();
        let mut level = from;
        fader.fade_float(level, to, Span::from_millis(0), &difference);
        fader.tick_float(&mut level, &place, &differs);
        assert_eq!(level, to);
        assert!(!fader.active);
    }
}

#[test]
fn equal_fractional_levels_are_left_alone() {
    let mut fader = idle();
    let mut level = 0.;
    fader.fade_float(level, 0., Span::from_millis(20), &difference);
    fader.tick_float(&mut level, &|_, _, _, _, _, _| -0., &differs);
    assert!(level.is_sign_positive());
}
