use pulu_grit::delay_line::{DelayLine, LINE_SIZE};
use pulu_grit::maximizer::MaximizerState;

fn run(line: &mut DelayLine<f32>, input: &[f32], delay: usize) -> Vec<f32> {
    input.iter().map(|&x| line.push_and_read(x, delay)).collect()
}

#[test]
fn new_line_is_silent_at_first_slot() {
    let mut line = DelayLine::new(0.0f32);
    assert_eq!(line.position(), 0);
    assert_eq!(LINE_SIZE, 16);
    let out = run(&mut line, &[0.25; 16], 15);
    assert_eq!(out[..15], [0.0; 15]);
    assert_eq!(out[15], 0.25);
}

#[test]
fn zero_delay_reads_the_sample_just_written() {
    let mut line = DelayLine::new(0.0f32);
    assert_eq!(run(&mut line, &[0.5, -0.3, 1.2], 0), vec![0.5, -0.3, 1.2]);
}

#[test]
fn short_delay_starts_with_silence() {
    let mut line = DelayLine::new(0.0f32);
    let out = run(&mut line, &[1.0, 2.0, 3.0, 4.0, 5.0, 6.0], 3);
    assert_eq!(out, vec![0.0, 0.0, 0.0, 1.0, 2.0, 3.0]);
}

#[test]
fn unit_step_through_lookahead() {
    // 1 ms at 48 kHz: 48 samples of envelope time, half of it as delay.
    let delay: usize = 24;
    let mut state = MaximizerState::new(0.0f32);
    state.reset(0.0);
    let out = run(&mut state.line, &[1.0; 64], delay);
    // The ring holds 16 samples, so a delay of 24 reads 8 steps back.
    assert_eq!(out[..8], [0.0; 8]);
    assert!(out[8..].iter().all(|&y| y == 1.0));
    // Within the ring's reach the first `delay` reads are silent.
    let mut state = MaximizerState::new(0.0f32);
    let out = run(&mut state.line, &[1.0; 64], 12);
    assert_eq!(out[..12], [0.0; 12]);
    assert!(out[12..].iter().all(|&y| y == 1.0));
}

#[test]
fn position_wraps_after_a_full_ring() {
    let mut line = DelayLine::new(0u8);
    for i in 0..LINE_SIZE {
        assert_eq!(line.position(), i);
        line.push_and_read(i as u8, 0);
    }
    assert_eq!(line.position(), 0);
    line.push_and_read(99, 0);
    assert_eq!(line.position(), 1);
}

#[test]
fn read_slot_is_true_modulo() {
    assert_eq!(DelayLine::<f32>::read_slot(0, 1), 15);
    assert_eq!(DelayLine::<f32>::read_slot(3, 19), 0);
    assert_eq!(DelayLine::<f32>::read_slot(5, 5), 5 - 5);
    assert_eq!(DelayLine::<f32>::read_slot(2, 16), 2);
    assert_eq!(DelayLine::<f32>::read_slot(15, usize::MAX), 0);
}

#[test]
fn long_delay_wraps_to_a_recent_sample() {
    let mut line = DelayLine::new(0i32);
    let input: Vec<i32> = (1..=20).collect();
    let out = run_i32(&mut line, &input, 18);
    // 18 steps wrap to 2 steps back.
    assert_eq!(out[..2], [0, 0]);
    assert_eq!(out[2..], input[..18]);
}

fn run_i32(line: &mut DelayLine<i32>, input: &[i32], delay: usize) -> Vec<i32> {
    input.iter().map(|&x| line.push_and_read(x, delay)).collect()
}

#[test]
fn reset_twice_equals_reset_once() {
    let mut once = MaximizerState::new(0.0f32);
    let mut twice = MaximizerState::new(0.0f32);
    run(&mut once.line, &[0.9, -0.4, 0.7, 0.1, 0.2], 2);
    run(&mut twice.line, &[0.3, 0.3], 1);
    once.envelope = 0.9;
    twice.envelope = 0.3;
    once.reset(0.0);
    twice.reset(0.0);
    twice.reset(0.0);
    assert_eq!(once.envelope, twice.envelope);
    assert_eq!(once.line.position(), 0);
    assert_eq!(twice.line.position(), 0);
    let probe = [0.5f32; 20];
    for d in [0usize, 1, 7, 15] {
        let mut a = MaximizerState::new(0.0f32);
        let mut b = MaximizerState::new(0.0f32);
        run(&mut a.line, &[0.8; 3], 0);
        run(&mut b.line, &[-0.6; 9], 0);
        a.reset(0.0);
        b.reset(0.0);
        b.reset(0.0);
        assert_eq!(run(&mut a.line, &probe, d), run(&mut b.line, &probe, d));
    }
    assert_eq!(run(&mut once.line, &probe, 15), run(&mut twice.line, &probe, 15));
}
