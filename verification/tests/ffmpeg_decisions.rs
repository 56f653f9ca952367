use music_separator::error::AppError;
use music_separator::ffmpeg::{
    decode_resampled, extract_audio, probe_audio, remux_command, remux_with_audio, AudioInfo,
    RemuxOutcome, StreamParams,
};

fn video() -> StreamParams {
    StreamParams { is_audio: false, sample_rate: 0, channels: 0 }
}

fn audio(sr: i32, ch: i32) -> StreamParams {
    StreamParams { is_audio: true, sample_rate: sr, channels: ch }
}

#[test]
fn probe_audio_missing_file_returns_error() {
    let result = probe_audio(Err("No such file or directory".to_string()));
    assert!(result.is_err());
}

#[test]
fn probe_audio_open_failure_is_probe_error() {
    let result = probe_audio(Err("Invalid data found".to_string()));
    assert!(matches!(result, Err(AppError::FfmpegProbe(m)) if m == "Invalid data found"));
}

#[test]
fn probe_audio_picks_first_audio_stream() {
    let r = probe_audio(Ok(vec![video(), audio(48000, 2), audio(44100, 1)])).unwrap();
    assert_eq!(r, Some(AudioInfo { sample_rate: 48000, channels: 2 }));
    let none = probe_audio(Ok(vec![video()])).unwrap();
    assert_eq!(none, None);
}

#[test]
fn extract_audio_reports_stream_or_error() {
    assert_eq!(
        extract_audio(Ok(Some(audio(22050, 1)))).unwrap(),
        AudioInfo { sample_rate: 22050, channels: 1 }
    );
    assert!(matches!(extract_audio(Ok(None)), Err(AppError::FfmpegExtract(m)) if m == "no audio stream"));
    assert!(matches!(extract_audio(Err("Permission denied".to_string())),
        Err(AppError::FfmpegExtract(m)) if m == "Permission denied"));
}

#[test]
fn decode_resampled_reads_little_endian_samples() {
    let bytes = [0x01, 0x00, 0xff, 0xff, 0x00, 0x80, 0xff, 0x7f, 0xaa];
    let s = decode_resampled(&bytes, 2, 2).unwrap();
    assert_eq!(s, vec![1, -1, i16::MIN, i16::MAX]);
    assert!(decode_resampled(&bytes, 0, 2).unwrap().is_empty());
}

#[test]
fn decode_resampled_refuses_short_frame() {
    let bytes = [0u8; 6];
    let err = decode_resampled(&bytes, 2, 2).unwrap_err();
    assert!(matches!(err, AppError::FfmpegExtract(m)
        if m == "resampler returned 6 bytes, expected at least 8"));
}

#[test]
fn remux_command_copies_video_and_encodes_aac() {
    let cmd = remux_command("in.mp4", "/tmp/v.wav", "out/in_no_music.mp4");
    let expected = [
        "ffmpeg", "-y", "-hide_banner", "-loglevel", "error", "-i", "in.mp4", "-i",
        "/tmp/v.wav", "-map", "0:v:0", "-map", "1:a:0", "-c:v", "copy", "-c:a", "aac", "-b:a",
        "192k", "-shortest", "out/in_no_music.mp4",
    ];
    assert_eq!(cmd, expected);
}

#[test]
fn remux_missing_input_returns_error() {
    let result = remux_with_audio(RemuxOutcome::Exited {
        success: false,
        code: Some(1),
        stderr: "/nonexistent/video.mp4: No such file or directory".to_string(),
    });
    assert!(result.is_err());
}

#[test]
fn remux_outcomes_map_to_results() {
    assert!(remux_with_audio(RemuxOutcome::Exited {
        success: true,
        code: Some(0),
        stderr: String::new()
    })
    .is_ok());
    let e = remux_with_audio(RemuxOutcome::Exited {
        success: false,
        code: Some(-22),
        stderr: "bad".to_string(),
    });
    assert!(matches!(e, Err(AppError::FfmpegRemux(m)) if m == "ffmpeg exited with code -22: bad"));
    let e = remux_with_audio(RemuxOutcome::Exited {
        success: false,
        code: None,
        stderr: "killed".to_string(),
    });
    assert!(matches!(e, Err(AppError::FfmpegRemux(m)) if m == "ffmpeg exited with code <signal>: killed"));
    let e = remux_with_audio(RemuxOutcome::SpawnFailed("not found".to_string()));
    assert!(matches!(e, Err(AppError::FfmpegRemux(m))
        if m == "could not spawn ffmpeg (is it on PATH?): not found"));
    let e = remux_with_audio(RemuxOutcome::InitFailed("init".to_string()));
    assert!(matches!(e, Err(AppError::FfmpegRemux(m)) if m == "init"));
}
