use anchor_player::resampler::Resampler;

fn total_frames(in_rate: u32, out_rate: u32, channels: usize, frames: usize, chunk: usize) -> usize {
    let mut r = Resampler::new(in_rate, out_rate, channels);
    let mut total = 0;
    let mut fed = 0;
    while fed < frames {
        let n = chunk.min(frames - fed);
        let block: Vec<i16> = (0..n * channels).map(|i| (i % 100) as i16).collect();
        if let Some(out) = r.resample(&block) {
            assert_eq!(out.len() % channels, 0);
            total += out.len();
        }
        fed += n;
    }
    total += r.flush().len();
    total / channels
}

#[test]
fn upsampling_count_matches_ratio() {
    assert_eq!(total_frames(44100, 48000, 2, 4410, 1152), 4800);
}

#[test]
fn downsampling_count_matches_ratio() {
    assert_eq!(total_frames(48000, 44100, 2, 4800, 1024), 4410);
    assert_eq!(total_frames(96000, 8000, 1, 1000, 7), 84);
}

#[test]
fn count_within_one_frame_of_ratio() {
    for &(i, o, n) in &[(44100u32, 48000u32, 1000usize), (48000, 44100, 999), (22050, 48000, 17), (3, 7, 5)] {
        let got = total_frames(i, o, 1, n, 64) as f64;
        let exact = n as f64 * o as f64 / i as f64;
        assert!(got >= exact && got < exact + 1.0, "{} {} {} -> {}", i, o, n, got);
    }
}

#[test]
fn nothing_until_two_frames_are_in() {
    let mut r = Resampler::new(1, 2, 1);
    assert!(r.resample(&vec![100]).is_none());
    let out = r.resample(&vec![300]).unwrap();
    assert_eq!(out, vec![100, 200]);
    assert_eq!(r.flush(), vec![300, 300]);
    assert!(r.flush().is_empty());
}

#[test]
fn constant_signal_stays_constant() {
    let mut r = Resampler::new(44100, 48000, 2);
    let block: Vec<i16> = vec![-1234; 2 * 500];
    let out = r.resample(&block).unwrap();
    assert!(out.iter().all(|&s| s == -1234));
    assert!(r.flush().iter().all(|&s| s == -1234));
}

#[test]
fn extremes_do_not_overflow() {
    let mut r = Resampler::new(3, 4, 1);
    let out = r.resample(&vec![i16::MIN, i16::MAX, i16::MIN, i16::MAX]).unwrap();
    assert_eq!(out[0], i16::MIN);
    assert!(out.iter().all(|&s| s >= i16::MIN && s <= i16::MAX));
}
