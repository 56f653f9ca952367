use music_separator::inference::{
    chunk_starts, interleave_stereo, remove_centre_padding, stem_format, stft_frame_starts, model_chunk_size, model_time_frames, pack_model_input,
    unpack_model_output, MODEL_HOP_LENGTH,
};

#[test]
fn interleave_stereo_produces_lr_pairs() {
    let left = vec![1.0_f32, 2.0];
    let right = vec![3.0_f32, 4.0];
    let out = interleave_stereo(&left, &right);
    assert_eq!(out, vec![1.0, 3.0, 2.0, 4.0]);
}

#[test]
fn interleave_stereo_stops_at_shorter_channel() {
    let out = interleave_stereo(&[1, 2, 3], &[7]);
    assert_eq!(out, vec![1, 7]);
    let empty: Vec<i32> = interleave_stereo(&[], &[5, 6]);
    assert!(empty.is_empty());
}

#[test]
fn model_dimensions_of_the_shipped_models() {
    assert_eq!(model_time_frames(8), 256);
    assert_eq!(model_chunk_size(8), 261120);
    assert_eq!(model_chunk_size(8), MODEL_HOP_LENGTH * (model_time_frames(8) - 1));
    assert_eq!(model_time_frames(0), 1);
    assert_eq!(model_chunk_size(1), 1024);
}

#[test]
fn chunk_starts_overlap_by_half() {
    assert_eq!(chunk_starts(10, 4), vec![0, 2, 4, 6]);
    assert_eq!(chunk_starts(3, 4), vec![0]);
    assert_eq!(chunk_starts(4, 4), vec![0]);
    assert_eq!(chunk_starts(5, 4), vec![0, 2]);
    assert!(chunk_starts(0, 4).is_empty());
    assert_eq!(chunk_starts(7, 5), vec![0, 2]);
}

#[test]
fn chunks_cover_every_sample() {
    for len in 0..60usize {
        for chunk in 2..9usize {
            let starts = chunk_starts(len, chunk);
            for p in 0..len {
                assert!(starts.iter().any(|&s| s <= p && p < s + chunk), "len {len} chunk {chunk} p {p}");
            }
            if let Some(&last) = starts.last() {
                assert!(last + chunk >= len);
            }
        }
    }
}

#[test]
fn pack_model_input_places_real_and_imaginary_parts() {
    // two frames of three bins; the model takes two bins and three frames
    let frames: Vec<Vec<[i32; 2]>> = vec![
        vec![[1, -1], [2, -2], [3, -3]],
        vec![[4, -4], [5, -5], [6, -6]],
    ];
    let t = pack_model_input(&frames, 2, 3, 0);
    assert_eq!(t.len(), 4 * 2 * 3);
    // channel 0: real parts, [f][t]
    assert_eq!(&t[0..6], &[1, 4, 0, 2, 5, 0]);
    // channel 1: imaginary parts
    assert_eq!(&t[6..12], &[-1, -4, 0, -2, -5, 0]);
    // channels 2 and 3 repeat 0 and 1
    assert_eq!(&t[12..18], &t[0..6]);
    assert_eq!(&t[18..24], &t[6..12]);
}

#[test]
fn unpack_model_output_rebuilds_frames() {
    // n_bins 2, n_time 3: real plane [f][t] then imaginary plane
    let flat: Vec<i32> = vec![10, 11, 12, 20, 21, 22, -10, -11, -12, -20, -21, -22];
    let frames = unpack_model_output(&flat, 2, 3, 4, 0);
    assert_eq!(frames.len(), 3);
    assert_eq!(frames[0], vec![[10, -10], [20, -20], [0, 0], [0, 0]]);
    assert_eq!(frames[2], vec![[12, -12], [22, -22], [0, 0], [0, 0]]);
    // a short output reads as zeros past its end
    let short = unpack_model_output(&flat[..7], 2, 3, 2, 0);
    assert_eq!(short[0], vec![[10, -10], [20, 0]]);
}

#[test]
fn stft_frames_of_a_signal() {
    // 1024 samples, fft 512 padded by 256 on each side: frames every 128
    let starts = stft_frame_starts(1024, 512, 128);
    assert_eq!(starts, (0..9).map(|i| i * 128).collect::<Vec<_>>());
    // a signal shorter than a frame still gets the centre-padded frame
    assert_eq!(stft_frame_starts(0, 4, 1), vec![0]);
    assert_eq!(stft_frame_starts(0, 5, 1), Vec::<usize>::new());
}

#[test]
fn one_chunk_fills_the_model_time_frames() {
    for t in 1..10usize {
        let n = stft_frame_starts(model_chunk_size(t), 7680, MODEL_HOP_LENGTH).len();
        assert_eq!(n, model_time_frames(t));
    }
}

#[test]
fn centre_padding_is_removed_to_the_signal_length() {
    let buf = [9, 9, 1, 2, 3, 9, 9];
    assert_eq!(remove_centre_padding(&buf, 2, 3, 0), vec![1, 2, 3]);
    // a buffer that ends early is completed with zeros
    assert_eq!(remove_centre_padding(&buf, 5, 4, 0), vec![9, 9, 0, 0]);
    assert!(remove_centre_padding(&buf, 7, 0, 0).is_empty());
}

#[test]
fn output_reader_uses_the_input_layout() {
    let frames: Vec<Vec<[i32; 2]>> = vec![
        vec![[1, -1], [2, -2], [3, -3]],
        vec![[4, -4], [5, -5], [6, -6]],
    ];
    let input = pack_model_input(&frames, 2, 3, 0);
    let back = unpack_model_output(&input, 2, 3, 4, 0);
    assert_eq!(back[0], vec![[1, -1], [2, -2], [0, 0], [0, 0]]);
    assert_eq!(back[1], vec![[4, -4], [5, -5], [0, 0], [0, 0]]);
    assert_eq!(back[2], vec![[0, 0], [0, 0], [0, 0], [0, 0]]);
}

#[test]
fn stem_format_follows_the_input() {
    let f = stem_format(48000, 2);
    assert!(f.resample && f.duplicate_to_stereo);
    assert_eq!((f.channels, f.sample_rate, f.bits_per_sample), (2, 48000, 32));
    let g = stem_format(44100, 1);
    assert!(!g.resample && !g.duplicate_to_stereo);
    assert_eq!((g.channels, g.sample_rate), (1, 44100));
}
