use ascii_video::playback::{decode_key, Command, Key, PlaybackState};

#[test]
fn key_bindings() {
    assert_eq!(decode_key(Key::Char('q')), Command::Quit);
    assert_eq!(decode_key(Key::Char(' ')), Command::TogglePause);
    assert_eq!(decode_key(Key::Left), Command::SlowDown);
    assert_eq!(decode_key(Key::Right), Command::SpeedUp);
    assert_eq!(decode_key(Key::Char('x')), Command::Unrecognized);
    assert_eq!(decode_key(Key::Other), Command::Unrecognized);
}

#[test]
fn ten_left_presses_saturate_at_four() {
    let mut s = PlaybackState::new();
    for _ in 0..10 {
        assert!(!s.dispatch(decode_key(Key::Left)));
        assert!(s.speed_exp >= -2 && s.speed_exp <= 2);
    }
    assert_eq!(s.speed_exp, 2);
    assert_eq!(s.frame_delay_us(40_000), 160_000);
    assert_eq!(s.speed_label(), "0.25x");
}

#[test]
fn ten_right_presses_saturate_at_a_quarter() {
    let mut s = PlaybackState::new();
    for _ in 0..10 {
        s.dispatch(Command::SpeedUp);
    }
    assert_eq!(s.speed_exp, -2);
    assert_eq!(s.frame_delay_us(40_001), 10_000);
    assert_eq!(s.speed_label(), "4x");
}

#[test]
fn labels_and_delays_at_each_speed() {
    let mut s = PlaybackState::new();
    assert_eq!(s.speed_label(), "1x");
    assert_eq!(s.frame_delay_us(33_000), 33_000);
    s.dispatch(Command::SlowDown);
    assert_eq!(s.speed_label(), "0.5x");
    assert_eq!(s.frame_delay_us(33_000), 66_000);
    s.dispatch(Command::SpeedUp);
    s.dispatch(Command::SpeedUp);
    assert_eq!(s.speed_label(), "2x");
    assert_eq!(s.frame_delay_us(33_001), 16_500);
}

#[test]
fn space_toggles_pause_and_quit_reports() {
    let mut s = PlaybackState::new();
    assert!(!s.paused);
    assert!(!s.dispatch(Command::TogglePause));
    assert!(s.paused);
    assert!(!s.dispatch(Command::TogglePause));
    assert!(!s.paused);
    assert!(s.dispatch(Command::Quit));
    assert!(!s.dispatch(Command::Unrecognized));
    assert_eq!(s, PlaybackState::new());
}
