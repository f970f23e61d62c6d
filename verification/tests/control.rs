use rainbowctl::color::Color;
use rainbowctl::engine::ActivePattern;
use rainbowctl::engine::Pattern;
use rainbowctl::engine::Supervisor;
use rainbowctl::engine::parse_pattern;
use rainbowctl::equalizer::EqualizerState;
use rainbowctl::error::LedError;
use rainbowctl::strip::fill_frame;
use rainbowctl::strip::off_frame;

#[test]
fn registry_knows_every_pattern_name() {
    assert_eq!(parse_pattern("off"), Ok(Pattern::Off));
    assert_eq!(parse_pattern("solid"), Ok(Pattern::Solid));
    assert_eq!(parse_pattern("pulse"), Ok(Pattern::Pulse));
    assert_eq!(parse_pattern("rainbow"), Ok(Pattern::Rainbow));
    assert_eq!(parse_pattern("rainbow_loop"), Ok(Pattern::RainbowLoop));
    assert_eq!(parse_pattern("chase"), Ok(Pattern::Chase));
    assert_eq!(parse_pattern("chase_loop"), Ok(Pattern::ChaseLoop));
    assert_eq!(parse_pattern("equalizer"), Ok(Pattern::Equalizer));
}

#[test]
fn registry_rejects_unknown_names() {
    assert_eq!(parse_pattern("sparkle"), Err(LedError::UnknownPattern));
    assert_eq!(parse_pattern(""), Err(LedError::UnknownPattern));
    assert_eq!(parse_pattern("Solid"), Err(LedError::UnknownPattern));
}

#[test]
fn unknown_pattern_leaves_previous_running() {
    let red = Color::new(255, 0, 0);
    let mut sup = Supervisor::new(24, red);
    assert_eq!(sup.select_pattern("solid"), Ok(()));
    assert_eq!(sup.select_pattern("sparkle"), Err(LedError::UnknownPattern));
    match &sup.active {
        Some(ActivePattern::Solid(s)) => assert_eq!(s.color, red),
        _ => panic!("previous pattern was disturbed"),
    }
}

#[test]
fn switching_starts_the_new_pattern_fresh() {
    let red = Color::new(255, 0, 0);
    // two supervisors with different histories select the same pattern
    let mut sup1 = Supervisor::new(4, red);
    let mut sup2 = Supervisor::new(4, red);
    assert_eq!(sup1.select_pattern("pulse"), Ok(()));
    assert_eq!(sup2.select_pattern("equalizer"), Ok(()));
    assert_eq!(sup1.select_pattern("solid"), Ok(()));
    assert_eq!(sup2.select_pattern("solid"), Ok(()));
    let f1 = match &sup1.active {
        Some(ActivePattern::Solid(s)) => s.frame(),
        _ => panic!("solid not active"),
    };
    let f2 = match &sup2.active {
        Some(ActivePattern::Solid(s)) => s.frame(),
        _ => panic!("solid not active"),
    };
    // both render the same complete frame of the new pattern
    assert_eq!(f1, f2);
    assert_eq!(f1, vec![red; 4]);
}

#[test]
fn bus_update_reaches_running_pattern() {
    let red = Color::new(255, 0, 0);
    let green = Color::new(0, 255, 0);
    let mut sup = Supervisor::new(4, red);
    assert_eq!(sup.select_pattern("solid"), Ok(()));
    sup.set_color(green);
    match &sup.active {
        Some(ActivePattern::Solid(s)) => assert_eq!(s.frame(), vec![green; 4]),
        _ => panic!("solid not active"),
    }
}

#[test]
fn bus_update_leaves_rainbow_self_hued() {
    let mut sup = Supervisor::new(4, Color::new(255, 0, 0));
    assert_eq!(sup.select_pattern("rainbow"), Ok(()));
    sup.set_color(Color::new(1, 2, 3));
    match &sup.active {
        Some(ActivePattern::Rainbow(s)) => assert_eq!(s.pos, 0),
        _ => panic!("rainbow not active"),
    }
    assert_eq!(sup.color, Color::new(1, 2, 3));
}

#[test]
fn frames_fill_and_clear_the_whole_strip() {
    let c = Color::new(10, 20, 30);
    assert_eq!(fill_frame(c, 3), vec![c; 3]);
    assert_eq!(off_frame(3), vec![Color::new(0, 0, 0); 3]);
}

fn datagram(seq: u32, magnitudes: &[u8]) -> Vec<u8> {
    let mut buf = seq.to_le_bytes().to_vec();
    buf.extend_from_slice(magnitudes);
    buf
}

#[test]
fn equalizer_decodes_little_endian_sequence() {
    let mut eq = EqualizerState::new(2, Color::new(255, 255, 255));
    let buf = vec![0x78, 0x56, 0x34, 0x12, 7, 9];
    assert_eq!(eq.handle_datagram(&buf), Ok(()));
    assert_eq!(eq.last_seq, 0x1234_5678);
    assert_eq!(eq.magnitudes, vec![7, 9]);
}

#[test]
fn equalizer_rejects_short_datagram_as_malformed() {
    // a 20-byte datagram against 24 LEDs (expected size 28)
    let mut eq = EqualizerState::new(24, Color::new(255, 0, 0));
    let buf = vec![1u8; 20];
    assert_eq!(eq.handle_datagram(&buf), Err(LedError::MalformedFrame));
    // the stored frame is untouched
    assert_eq!(eq.last_seq, 0);
    assert_eq!(eq.magnitudes, vec![0u8; 24]);
}

#[test]
fn equalizer_keeps_only_fresh_sequences() {
    let white = Color::new(255, 255, 255);
    let mut eq = EqualizerState::new(4, white);
    let m5 = [10, 20, 30, 40];
    let m3 = [99, 99, 99, 99];
    let m5b = [88, 88, 88, 88];
    let m7 = [0, 128, 255, 64];
    assert_eq!(eq.handle_datagram(&datagram(5, &m5)), Ok(()));
    assert_eq!(eq.magnitudes, m5.to_vec());
    // the late frame 3 and the duplicate 5 are dropped without effect
    assert_eq!(eq.handle_datagram(&datagram(3, &m3)), Err(LedError::StaleFrame));
    assert_eq!(eq.magnitudes, m5.to_vec());
    assert_eq!(eq.handle_datagram(&datagram(5, &m5b)), Err(LedError::StaleFrame));
    assert_eq!(eq.magnitudes, m5.to_vec());
    assert_eq!(eq.handle_datagram(&datagram(7, &m7)), Ok(()));
    assert_eq!(eq.last_seq, 7);
    assert_eq!(eq.magnitudes, m7.to_vec());
    // the rendered output settles on color x magnitude / 255 per LED
    let f = eq.frame();
    assert_eq!(f, vec![
        Color::new(0, 0, 0),
        Color::new(128, 128, 128),
        Color::new(255, 255, 255),
        Color::new(64, 64, 64),
    ]);
}

#[test]
fn equalizer_renders_dark_before_any_frame() {
    let eq = EqualizerState::new(3, Color::new(200, 100, 50));
    assert_eq!(eq.frame(), vec![Color::new(0, 0, 0); 3]);
}
