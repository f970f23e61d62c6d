use rainbowctl::chase::ChaseCursor;
use rainbowctl::chase::ChaseMode;
use rainbowctl::chase::ChaseState;
use rainbowctl::color::Color;
use rainbowctl::pulse::PulseState;
use rainbowctl::rainbow::RainbowLoopState;
use rainbowctl::rainbow::RainbowState;
use rainbowctl::solid::SolidState;

#[test]
fn color_scale_full_keeps_color() {
    let c = Color::new(100, 200, 7);
    assert_eq!(c.scale(65535), c);
}

#[test]
fn color_scale_zero_darkens() {
    let c = Color::new(100, 200, 7);
    assert_eq!(c.scale(0), Color::new(0, 0, 0));
}

#[test]
fn color_scale_half_rounds_down() {
    let c = Color::new(100, 200, 0);
    // 100 * 32768 / 65535 = 50, 200 * 32768 / 65535 = 100
    assert_eq!(c.scale(32768), Color::new(50, 100, 0));
}

#[test]
fn solid_applies_updates_in_order() {
    let mut s = SolidState::new(4, Color::new(9, 9, 9));
    let c1 = Color::new(255, 0, 0);
    let c2 = Color::new(0, 0, 255);
    s.set_color(c1);
    let f1 = s.frame();
    assert_eq!(f1, vec![c1; 4]);
    s.set_color(c2);
    let f2 = s.frame();
    assert_eq!(f2, vec![c2; 4]);
}

#[test]
fn pulse_ramp_starts_dark_and_is_symmetric() {
    // framerate 60 x period 2 forward samples, cycle of 2n-2 positions
    let n: u16 = 120;
    let cycle = (2 * n - 2) as usize;
    let mut p = PulseState::new(24, n, Color::new(255, 255, 255));
    let mut ramps: Vec<u16> = Vec::new();
    for _ in 0..cycle {
        let (num, den) = p.ramp();
        assert_eq!(den, n);
        ramps.push(num);
        p.tick();
    }
    // back at the start after one full cycle
    assert_eq!(p.ramp().0, ramps[0]);
    // the cycle starts at ramp position 0: zero brightness
    assert_eq!(ramps[0], 0);
    // ramp position at x mirrors the position at cycle - x
    for x in 1..cycle {
        assert_eq!(ramps[x], ramps[cycle - x], "ramp asymmetric at {x}");
    }
    // the sample-wise easing sin(pi x)^2 keeps the symmetry and endpoints
    let ease = |num: u16| {
        let v = (std::f64::consts::PI * num as f64 / n as f64).sin();
        v * v
    };
    assert!(ease(ramps[0]).abs() < 1e-12);
    for x in 1..cycle {
        assert!((ease(ramps[x]) - ease(ramps[cycle - x])).abs() < 1e-12);
    }
}

#[test]
fn pulse_color_update_keeps_phase() {
    let mut p = PulseState::new(24, 120, Color::new(1, 2, 3));
    p.tick();
    p.tick();
    let before = p.ramp();
    p.set_color(Color::new(9, 8, 7));
    assert_eq!(p.ramp(), before);
    assert_eq!(p.color, Color::new(9, 8, 7));
}

#[test]
fn pulse_frame_fills_dimmed_color() {
    let p = PulseState::new(3, 120, Color::new(200, 100, 0));
    let f = p.frame(32768);
    assert_eq!(f, vec![Color::new(100, 50, 0); 3]);
}

#[test]
fn chase_bounce_visits_without_endpoint_double_count() {
    let mut cursor = ChaseCursor::new(4, ChaseMode::Bounce);
    let seen: Vec<usize> = (0..10).map(|_| cursor.next()).collect();
    assert_eq!(seen, vec![0, 1, 2, 3, 2, 1, 0, 1, 2, 3]);
}

#[test]
fn chase_wrap_visits_in_rotation() {
    let mut cursor = ChaseCursor::new(4, ChaseMode::Wrap);
    let seen: Vec<usize> = (0..9).map(|_| cursor.next()).collect();
    assert_eq!(seen, vec![0, 1, 2, 3, 0, 1, 2, 3, 0]);
}

#[test]
fn chase_state_derives_steps_and_falloff() {
    let s = ChaseState::new(4, ChaseMode::Bounce, Color::new(255, 0, 0), 60, 3);
    // 60 fps x 3 s over 4 LEDs: 45 sub-steps per position
    assert_eq!(s.steps_per_led, 45);
    // falloff 1/5 spread over the period: keep 14/15 per tick
    assert_eq!(s.decay_num, 14);
    assert_eq!(s.decay_den, 15);
    assert_eq!(s.index, 0);
    assert_eq!(s.values, vec![0u16; 4]);
}

#[test]
fn chase_trail_decays_behind_lit_point() {
    let red = Color::new(255, 0, 0);
    let mut s = ChaseState::new(4, ChaseMode::Bounce, red, 60, 3);
    // spend the sub-steps so the next tick moves the lit point onward
    s.step = s.steps_per_led;
    s.tick(1000);
    assert_eq!(s.index, 1);
    assert_eq!(s.step, 0);
    assert_eq!(s.values, vec![1000, 0, 0, 0]);
    s.tick(500);
    // the old position decayed by 14/15: 1000 * 14 / 15 = 933
    assert_eq!(s.values, vec![933, 500, 0, 0]);
    let f = s.frame();
    assert_eq!(f.len(), 4);
    // 255 * 933 / 65535 = 3
    assert_eq!(f[0], Color::new(3, 0, 0));
    // 255 * 500 / 65535 = 1
    assert_eq!(f[1], Color::new(1, 0, 0));
    assert_eq!(f[2], Color::new(0, 0, 0));
}

#[test]
fn rainbow_hue_cycles() {
    let mut r = RainbowState::new(24, 300);
    assert_eq!(r.hue(), (0, 300));
    for _ in 0..299 {
        r.tick();
    }
    assert_eq!(r.hue(), (299, 300));
    r.tick();
    assert_eq!(r.hue(), (0, 300));
}

#[test]
fn rainbow_loop_spreads_and_shifts_hues() {
    let mut r = RainbowLoopState::new(4, 240);
    assert_eq!(r.hue_den(), 960);
    // pixel i starts at hue i/4: numerators i * 240
    assert_eq!(r.hues(), vec![0, 240, 480, 720]);
    r.tick();
    // one shift sample adds 1/240 to every pixel: numerator + 4
    assert_eq!(r.hues(), vec![4, 244, 484, 724]);
}

#[test]
fn rainbow_loop_hue_wraps_past_full_circle() {
    let mut r = RainbowLoopState::new(4, 240);
    for _ in 0..239 {
        r.tick();
    }
    // shift 239/240 adds 956/960 to every pixel, wrapping past 1:
    // numerators (i * 240 + 956) % 960
    assert_eq!(r.hues(), vec![956, 236, 476, 716]);
    r.tick();
    assert_eq!(r.hues(), vec![0, 240, 480, 720]);
}
