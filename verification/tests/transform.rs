use led_speakers::transform::{AudioTransformer, TransformedAudio};
use rustfft::num_complex::Complex;
use rustfft::FftPlanner;

#[test]
fn test_cutoff_frequencies() {
    let total_bands = 3;
    let lower_cutoff = 50;
    let upper_cutoff = 10000;
    let rate = 48000;
    let fft_len = 3000;
    let (lower, upper) = AudioTransformer::cutoff_frequencies(
        total_bands,
        lower_cutoff,
        upper_cutoff,
        rate,
        fft_len,
    );
    assert_eq!(lower, vec![3, 23, 171]);
    assert_eq!(upper, vec![22, 170, 3000]);
}

#[test]
fn test_magnitudes() {
    let mut bands = vec![0, 0];
    let upper_cutoff_freq = vec![2, 4];
    let lower_cutoff_freq = vec![0, 3];
    let input = vec![1000, 1000, 1000, 1000, 1000];
    AudioTransformer::magnitudes(&mut bands, input, &lower_cutoff_freq, &upper_cutoff_freq);
    assert_eq!(bands, vec![223, 281]);

    let input = vec![1000, 1000, 0, 0, 0];
    AudioTransformer::magnitudes(&mut bands, input, &lower_cutoff_freq, &upper_cutoff_freq);
    assert_eq!(bands, vec![182, 0]);
}

#[test]
fn test_smooth() {
    let mut input = vec![1, 100, 1];
    AudioTransformer::smooth(&mut input, 2);
    assert_eq!(input, vec![50, 100, 50]);
}

#[test]
fn test_scale() {
    let mut bands = vec![100, 100, 1];
    let mut transformed_audio = TransformedAudio::new(bands.len(), 1);

    AudioTransformer::scale(&mut bands, &mut transformed_audio);
    assert_eq!(bands, vec![100, 100, 1]);
    assert_eq!(transformed_audio.band_max, vec![100]);

    AudioTransformer::scale(&mut bands, &mut transformed_audio);
    assert_eq!(bands, vec![100, 100, 1]);
    assert_eq!(transformed_audio.band_max, vec![100]);
}

#[test]
fn test_scale_complex() {
    let mut bands = vec![100, 100];
    let mut transformed_audio = TransformedAudio::new(bands.len(), 2);

    AudioTransformer::scale(&mut bands, &mut transformed_audio);
    assert_eq!(transformed_audio.band_max, vec![100, 0]);

    let mut bands = vec![50, 10];
    AudioTransformer::scale(&mut bands, &mut transformed_audio);
    assert_eq!(bands, vec![40, 8]);
    assert_eq!(transformed_audio.band_max, vec![50, 100]);
}

#[test]
fn test_falloff() {
    let mut bands = vec![100, 100, 1];
    let mut transformed_audio = TransformedAudio::new(bands.len(), 50);
    let decay = 10;

    AudioTransformer::falloff(&mut bands, &mut transformed_audio, decay);
    assert_eq!(bands, vec![100, 100, 1]);
    assert_eq!(transformed_audio.band_peaks, vec![100, 100, 1]);
    assert_eq!(transformed_audio.bands, vec![100, 100, 1]);
    assert_eq!(transformed_audio.falloff, vec![1, 1, 1]);

    let mut bands_2 = vec![90, 90, 1];
    AudioTransformer::falloff(&mut bands_2, &mut transformed_audio, decay);
    assert_eq!(bands_2, vec![90, 90, 1]);
    assert_eq!(transformed_audio.band_peaks, vec![100, 100, 1]);
    assert_eq!(transformed_audio.bands, vec![90, 90, 1]);
    assert_eq!(transformed_audio.falloff, vec![2, 2, 1]);
}

#[test]
fn falloff_counter_grows_per_non_rising_cycle() {
    let mut transformed = TransformedAudio::new(1, 4);
    let mut first = vec![80];
    AudioTransformer::falloff(&mut first, &mut transformed, 5);
    assert_eq!(transformed.falloff, vec![1]);
    let mut second = vec![70];
    AudioTransformer::falloff(&mut second, &mut transformed, 5);
    assert_eq!(second, vec![75]);
    assert_eq!(transformed.falloff, vec![2]);
    let mut third = vec![70];
    AudioTransformer::falloff(&mut third, &mut transformed, 5);
    assert_eq!(third, vec![70]);
    assert_eq!(transformed.falloff, vec![3]);
    let mut rising = vec![95];
    AudioTransformer::falloff(&mut rising, &mut transformed, 5);
    assert_eq!(rising, vec![95]);
    assert_eq!(transformed.band_peaks, vec![95]);
    assert_eq!(transformed.falloff, vec![1]);
}

#[test]
fn transformer_set_rate_partitions_whole_spectrum() {
    let mut transformer = AudioTransformer::new(
        String::from("sink"),
        3000,
        3,
        50,
        10000,
        2,
        10,
        30000,
    );
    transformer.set_rate(48000);
    assert_eq!(transformer.lower_idx, vec![3, 23, 171]);
    assert_eq!(transformer.upper_idx, vec![22, 170, 3000]);
}

#[test]
fn process_left_marks_loud_input() {
    let mut transformer = AudioTransformer::new(
        String::from("sink"),
        8,
        2,
        50,
        10000,
        2,
        10,
        30000,
    );
    transformer.set_rate(48000);
    // several cycles of the same spectrum: all energy in the high bins
    let mut last = Vec::new();
    for _ in 0..8 {
        let input = vec![0, 0, 0, 0, 2000, 2000, 2000, 2000];
        last = transformer.process_left(input);
    }
    assert_eq!(last.len(), 2);
    assert!(last[1] > last[0]);
}

#[test]
fn sine_wave_dominates_its_band() {
    // inject a synthetic sine byte stream and check that the band whose
    // bin range contains the sine frequency dominates the scaled output
    let fft_len: usize = 512;
    let rate: u64 = 48000;
    let total_bands: usize = 3;
    let bin: usize = 100;
    let freq = bin as f64 * rate as f64 / fft_len as f64;

    // interleaved stereo frames: right sample first, left sample second
    let mut bytes: Vec<u8> = Vec::new();
    for n in 0..fft_len {
        let t = n as f64 / rate as f64;
        let sample = (32000.0 * (2.0 * std::f64::consts::PI * freq * t).sin()) as i16;
        let le = sample.to_le_bytes();
        bytes.push(le[0]);
        bytes.push(le[1]);
        bytes.push(le[0]);
        bytes.push(le[1]);
    }

    let (left, _right) = led_speakers::samples::split_channels(&bytes);
    assert_eq!(left.len(), fft_len);

    let mut planner = FftPlanner::new();
    let fft = planner.plan_fft_forward(fft_len);
    let mut signal: Vec<Complex<f32>> = left
        .iter()
        .map(|s| Complex::new(*s as f32 / i16::MAX as f32, 0.0))
        .collect();
    fft.process(&mut signal);
    let magnitudes: Vec<u64> = signal
        .iter()
        .map(|c| (c.norm() * 1000.0) as u64)
        .collect();

    let mut transformer = AudioTransformer::new(
        String::from("sink"),
        fft_len,
        total_bands,
        50,
        10000,
        2,
        10,
        30000,
    );
    transformer.set_rate(rate);
    // the sine's bin falls into the last band
    assert!(transformer.lower_idx[2] <= bin && bin <= transformer.upper_idx[2]);

    let mut bands = Vec::new();
    // enough cycles for the loudness history to fill up
    for _ in 0..600 {
        bands = transformer.process_left(magnitudes.clone());
    }
    assert_eq!(bands.len(), total_bands);
    assert!(bands[2] > bands[0]);
    assert!(bands[2] > bands[1]);
}

#[test]
fn single_band_covers_the_whole_spectrum() {
    let (lower, upper) = AudioTransformer::cutoff_frequencies(1, 50, 10000, 48000, 3000);
    assert_eq!(lower, vec![1250]);
    assert_eq!(upper, vec![3000]);
}

#[test]
fn scale_survives_a_zero_history() {
    // an all-zero history must not divide by zero: the ceiling is floored at one
    let mut bands = vec![0, 0];
    let mut transformed = TransformedAudio::new(2, 3);
    AudioTransformer::scale(&mut bands, &mut transformed);
    assert_eq!(bands, vec![0, 0]);
}

#[test]
fn smooth_is_idempotent() {
    let mut once = vec![1, 100, 7, 0, 33];
    AudioTransformer::smooth(&mut once, 2);
    let mut twice = once.clone();
    AudioTransformer::smooth(&mut twice, 2);
    assert_eq!(twice, once);
    let mut flat = vec![9, 9, 9];
    AudioTransformer::smooth(&mut flat, 1);
    let mut flat_again = flat.clone();
    AudioTransformer::smooth(&mut flat_again, 1);
    assert_eq!(flat_again, flat);
}
