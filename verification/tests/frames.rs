use umbrella::frames::{clocks_equal, is_positive, DurationScan, FrameClock};

fn b(x: f32) -> u32 {
    x.to_bits()
}

/// Runs the frame clock over packet clocks and returns the frames drawn.
fn frames_for(clocks: &[f32]) -> Vec<f32> {
    let mut fc = FrameClock::new();
    let mut out = Vec::new();
    for &c in clocks {
        if let Some(f) = fc.on_packet(b(c)) {
            out.push(f32::from_bits(f));
        }
    }
    if let Some(f) = fc.finish() {
        out.push(f32::from_bits(f));
    }
    out
}

#[test]
fn float_comparisons_on_bits() {
    assert!(is_positive(b(1.5)));
    assert!(is_positive(b(f32::INFINITY)));
    assert!(is_positive(b(f32::from_bits(1))));
    assert!(!is_positive(b(0.0)));
    assert!(!is_positive(b(-0.0)));
    assert!(!is_positive(b(-3.0)));
    assert!(!is_positive(b(f32::NAN)));
    assert!(clocks_equal(b(0.0), b(-0.0)));
    assert!(clocks_equal(b(2.5), b(2.5)));
    assert!(!clocks_equal(b(2.5), b(2.25)));
    assert!(!clocks_equal(b(f32::NAN), b(f32::NAN)));
    for &(x, y) in &[(1.0f32, 1.0f32), (0.0, -0.0), (f32::NAN, 1.0), (3.0, 4.0), (-1.0, -1.0)] {
        assert_eq!(clocks_equal(b(x), b(y)), x == y);
        assert_eq!(is_positive(b(x)), x > 0.0);
    }
}

#[test]
fn frame_per_clock_change() {
    // The first clock only starts the frame clock; each change draws the
    // frame in progress; the last frame is drawn at the end.
    assert_eq!(frames_for(&[1.0, 1.0, 2.0, 2.0, 3.0]), vec![1.0, 2.0, 3.0]);
}

#[test]
fn no_frames_without_packets_or_positive_clocks() {
    assert!(frames_for(&[]).is_empty());
    assert!(frames_for(&[0.0, 0.0]).is_empty());
    assert!(frames_for(&[-1.0, -2.0]).is_empty());
}

#[test]
fn zero_clock_waits_for_next_packet() {
    // Clock falls back to zero: the frame clock takes the next packet's clock.
    assert_eq!(frames_for(&[5.0, 5.0, 0.0, 5.0]), vec![5.0, 5.0]);
}

#[test]
fn negative_first_clock_freezes_frame_clock() {
    // A negative first clock is kept: no later packet changes it.
    assert!(frames_for(&[-1.0, 2.0, 3.0]).is_empty());
}

#[test]
fn frames_are_a_subsequence_of_packet_clocks() {
    let clocks = [0.5f32, 0.5, 1.0, 3.0, 3.0, 3.0, 7.25, 8.0];
    let frames = frames_for(&clocks);
    assert_eq!(frames, vec![0.5, 1.0, 3.0, 7.25, 8.0]);
    let mut it = clocks.iter();
    for f in &frames {
        assert!(*f > 0.0);
        assert!(it.any(|c| c == f));
    }
}

#[test]
fn battle_duration_is_greatest_positive_clock() {
    let mut scan = DurationScan::new();
    assert_eq!(scan.battle_duration(), None);
    for c in [0.0f32, 3.5, f32::NAN, 1200.25, 7.0, -5.0] {
        scan.observe(b(c));
    }
    assert_eq!(scan.battle_duration().map(f32::from_bits), Some(1200.25));

    let mut scan = DurationScan::new();
    for c in [0.0f32, -0.0, -2.0, f32::NAN] {
        scan.observe(b(c));
    }
    assert_eq!(scan.battle_duration(), None);
}

#[test]
fn steady_clocks_get_one_frame_each() {
    let clocks = [0.0f32, 0.0, 0.5, 0.5, 0.5, 1.0, 2.25, 2.25, 3.0];
    assert_eq!(frames_for(&clocks), vec![0.5, 1.0, 2.25, 3.0]);
}
