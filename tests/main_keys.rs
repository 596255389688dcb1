use tune_in::session::{key_frequency, AppState, Command, Controls};

#[test]
fn keys_play_scale_one_octave_up() {
    let mut c = Controls::new();
    assert_eq!(c.strength(), 185);
    assert_eq!(c.octave(), 1);
    assert_eq!(c.running_key('s'), Command::Toggle { freq: 523_260, strength: 185 });
    assert_eq!(c.running_key('j'), Command::Toggle { freq: 880_000, strength: 185 });
    assert_eq!(c.running_key('l'), Command::Toggle { freq: 1_046_520, strength: 185 });
}

#[test]
fn octave_bounds() {
    let mut c = Controls::new();
    for _ in 0..20 {
        c.running_key('N');
    }
    assert_eq!(c.octave(), 4);
    for _ in 0..20 {
        c.running_key('n');
    }
    assert_eq!(c.octave(), -6);
    assert_eq!(c.running_key('j'), Command::Toggle { freq: 6_875, strength: 185 });
    assert_eq!(c.running_key('s'), Command::Toggle { freq: 4_088, strength: 185 });
}

#[test]
fn strength_steps_and_bounds() {
    let mut c = Controls::new();
    c.running_key('v');
    assert_eq!(c.strength(), 180);
    for _ in 0..100 {
        c.running_key('V');
    }
    assert_eq!(c.strength(), 255);
    for _ in 0..100 {
        c.running_key('v');
    }
    assert_eq!(c.strength(), 0);
}

#[test]
fn other_keys() {
    let mut c = Controls::new();
    assert_eq!(c.running_key('q'), Command::Quit);
    assert_eq!(c.running_key('m'), Command::EnterManual);
    assert_eq!(c.running_key('p'), Command::EnterComConfig);
    assert_eq!(c.running_key('c'), Command::ClearAll);
    assert_eq!(c.running_key('r'), Command::ToggleRand);
    assert_eq!(c.running_key('z'), Command::Nothing);
    assert_ne!(AppState::Running, AppState::Manual);
}

#[test]
fn frequency_shift_rounds_to_nearest() {
    assert_eq!(key_frequency(261_630, 0), 261_630);
    assert_eq!(key_frequency(261_630, 2), 1_046_520);
    assert_eq!(key_frequency(261_630, -1), 130_815);
    // 261630 / 64 = 4087.97
    assert_eq!(key_frequency(261_630, -6), 4_088);
    // 293660 / 8 = 36707.5 rounds up
    assert_eq!(key_frequency(293_660, -3), 36_708);
}
