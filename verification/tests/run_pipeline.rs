use music_separator::error::AppError;
use music_separator::ffmpeg::AudioInfo;
use music_separator::model_data::ModelParams;
use music_separator::pipeline::{
    finish_step_message, format_elapsed, output_file_name, temp_file_names, Action, Event,
    Pipeline, RunInputs, Stage, TempPaths,
};

fn inputs() -> RunInputs {
    RunInputs {
        input_path: "clips/interview.mp4".to_string(),
        input_stem: "interview".to_string(),
        input_extension: "mp4".to_string(),
        model_path: "models/mdxnet/UVR-MDX-NET-Voc_FT.onnx".to_string(),
        model_dir: Some("models/mdxnet".to_string()),
        model_file_name: Some("UVR-MDX-NET-Voc_FT.onnx".to_string()),
        output_dir: "./output".to_string(),
    }
}

fn registry() -> Vec<ModelParams> {
    vec![ModelParams {
        compensate_bits: 1.021_f32.to_bits(),
        mdx_dim_f_set: 3072,
        mdx_dim_t_set: 8,
        mdx_n_fft_scale_set: 7680,
        primary_stem: "Vocals".to_string(),
        name: "UVR-MDX-NET-Voc_FT.onnx".to_string(),
    }]
}

fn info() -> AudioInfo {
    AudioInfo { sample_rate: 48000, channels: 2 }
}

/// Drive a run through validation up to the probe.
fn validated() -> Pipeline {
    let mut p = Pipeline::new(inputs());
    assert!(matches!(p.step(Event::Begin), Action::CheckExists(m) if m == "models/mdxnet/UVR-MDX-NET-Voc_FT.onnx"));
    assert!(matches!(p.step(Event::Exists(true)), Action::CheckExists(i) if i == "clips/interview.mp4"));
    assert!(matches!(p.step(Event::Exists(true)),
        Action::LoadModelData { dir, file_name } if dir == "models/mdxnet" && file_name == "model_data.json"));
    assert!(matches!(p.step(Event::ModelDataLoaded(Ok(registry()))), Action::CreateOutputDir(d) if d == "./output"));
    assert!(matches!(p.step(Event::OutputDirCreated(Ok(()))), Action::ProbeAudio(i) if i == "clips/interview.mp4"));
    p
}

fn temps() -> TempPaths {
    TempPaths { extracted: "/tmp/a_extracted.wav".to_string(), vocals: "/tmp/b_vocals.wav".to_string() }
}

#[test]
fn full_run_remuxes_and_cleans_up() {
    let mut p = validated();
    assert!(matches!(p.step(Event::Probed(Ok(Some(info())))), Action::AllocateTemps));
    assert!(matches!(p.step(Event::TempsAllocated(temps())),
        Action::ExtractAudio { input, wav } if input == "clips/interview.mp4" && wav == "/tmp/a_extracted.wav"));
    match p.step(Event::Extracted(Ok(info()))) {
        Action::SeparateVocals { params, wav, output } => {
            assert_eq!(params.name, "UVR-MDX-NET-Voc_FT.onnx");
            assert_eq!(wav, "/tmp/a_extracted.wav");
            assert_eq!(output, "/tmp/b_vocals.wav");
        }
        other => panic!("unexpected {other:?}"),
    }
    assert!(matches!(p.step(Event::Separated(Ok(()))),
        Action::Remux { video, audio, dir, file_name }
            if video == "clips/interview.mp4" && audio == "/tmp/b_vocals.wav"
               && dir == "./output" && file_name == "interview_no_music.mp4"));
    assert!(matches!(p.step(Event::Remuxed(Ok(()))),
        Action::RemoveTemps { extracted, vocals }
            if extracted == "/tmp/a_extracted.wav" && vocals == "/tmp/b_vocals.wav"));
    assert!(matches!(p.step(Event::TempsRemoved), Action::Finish(Ok(()))));
    assert_eq!(p.stage(), Stage::Done);
    assert!(matches!(p.step(Event::Begin), Action::Ignored));
}

#[test]
fn no_audio_track_copies_input_verbatim() {
    let mut p = validated();
    assert!(matches!(p.step(Event::Probed(Ok(None))),
        Action::CopyInput { from, dir, file_name }
            if from == "clips/interview.mp4" && dir == "./output" && file_name == "interview_no_music.mp4"));
    assert!(matches!(p.step(Event::Copied(Ok(()))), Action::Finish(Ok(()))));
}

#[test]
fn copy_failure_is_file_copy_error() {
    let mut p = validated();
    p.step(Event::Probed(Ok(None)));
    assert!(matches!(p.step(Event::Copied(Err("denied".to_string()))),
        Action::Finish(Err(AppError::FileCopy(m))) if m == "denied"));
}

#[test]
fn missing_model_fails_first() {
    let mut p = Pipeline::new(inputs());
    p.step(Event::Begin);
    assert!(matches!(p.step(Event::Exists(false)),
        Action::Finish(Err(AppError::ModelNotFound(m))) if m == "models/mdxnet/UVR-MDX-NET-Voc_FT.onnx"));
}

#[test]
fn missing_input_fails_after_model_check() {
    let mut p = Pipeline::new(inputs());
    p.step(Event::Begin);
    p.step(Event::Exists(true));
    assert!(matches!(p.step(Event::Exists(false)),
        Action::Finish(Err(AppError::InputVideoNotFound(i))) if i == "clips/interview.mp4"));
}

#[test]
fn model_missing_from_registry_fails() {
    let mut p = Pipeline::new(inputs());
    p.step(Event::Begin);
    p.step(Event::Exists(true));
    p.step(Event::Exists(true));
    assert!(matches!(p.step(Event::ModelDataLoaded(Ok(Vec::new()))),
        Action::Finish(Err(AppError::ModelNotInRegistry(n))) if n == "UVR-MDX-NET-Voc_FT.onnx"));
}

#[test]
fn model_data_beside_bare_model_name_is_looked_up_in_dot() {
    let mut i = inputs();
    i.model_dir = None;
    let mut p = Pipeline::new(i);
    p.step(Event::Begin);
    p.step(Event::Exists(true));
    assert!(matches!(p.step(Event::Exists(true)),
        Action::LoadModelData { dir, .. } if dir == "."));
}

#[test]
fn model_data_error_is_reported_as_is() {
    let mut p = Pipeline::new(inputs());
    p.step(Event::Begin);
    p.step(Event::Exists(true));
    p.step(Event::Exists(true));
    let e = AppError::ModelDataNotFound("models/mdxnet/model_data.json".to_string());
    assert!(matches!(p.step(Event::ModelDataLoaded(Err(e))),
        Action::Finish(Err(AppError::ModelDataNotFound(m))) if m == "models/mdxnet/model_data.json"));
}

#[test]
fn output_dir_failure_is_reported() {
    let mut p = Pipeline::new(inputs());
    p.step(Event::Begin);
    p.step(Event::Exists(true));
    p.step(Event::Exists(true));
    p.step(Event::ModelDataLoaded(Ok(registry())));
    assert!(matches!(p.step(Event::OutputDirCreated(Err("read-only".to_string()))),
        Action::Finish(Err(AppError::OutputDirCreate(m))) if m == "read-only"));
}

#[test]
fn extraction_failure_removes_temps_then_reports() {
    let mut p = validated();
    p.step(Event::Probed(Ok(Some(info()))));
    p.step(Event::TempsAllocated(temps()));
    let e = AppError::FfmpegExtract("no audio stream".to_string());
    assert!(matches!(p.step(Event::Extracted(Err(e))), Action::RemoveTemps { .. }));
    assert_eq!(p.stage(), Stage::CleaningUp);
    assert!(matches!(p.step(Event::TempsRemoved),
        Action::Finish(Err(AppError::FfmpegExtract(m))) if m == "no audio stream"));
}

#[test]
fn inference_and_remux_failures_remove_temps() {
    let mut p = validated();
    p.step(Event::Probed(Ok(Some(info()))));
    p.step(Event::TempsAllocated(temps()));
    p.step(Event::Extracted(Ok(info())));
    assert!(matches!(p.step(Event::Separated(Err(AppError::OnnxLoad("bad".to_string())))),
        Action::RemoveTemps { .. }));
    assert!(matches!(p.step(Event::TempsRemoved), Action::Finish(Err(AppError::OnnxLoad(_)))));

    let mut q = validated();
    q.step(Event::Probed(Ok(Some(info()))));
    q.step(Event::TempsAllocated(temps()));
    q.step(Event::Extracted(Ok(info())));
    q.step(Event::Separated(Ok(())));
    assert!(matches!(q.step(Event::Remuxed(Err(AppError::FfmpegRemux("x".to_string())))),
        Action::RemoveTemps { .. }));
    assert!(matches!(q.step(Event::TempsRemoved), Action::Finish(Err(AppError::FfmpegRemux(_)))));
}

#[test]
fn probe_failure_reports_without_temps() {
    let mut p = validated();
    assert!(matches!(p.step(Event::Probed(Err(AppError::FfmpegProbe("x".to_string())))),
        Action::Finish(Err(AppError::FfmpegProbe(_)))));
}

#[test]
fn events_out_of_order_are_ignored() {
    let mut p = Pipeline::new(inputs());
    assert!(matches!(p.step(Event::TempsRemoved), Action::Ignored));
    assert!(matches!(p.step(Event::Exists(true)), Action::Ignored));
    assert_eq!(p.stage(), Stage::Start);
}

#[test]
fn output_names_follow_the_naming_table() {
    assert_eq!(output_file_name("interview", "mp4"), "interview_no_music.mp4");
    assert_eq!(output_file_name("clip", "mkv"), "clip_no_music.mkv");
    assert_eq!(output_file_name("recording", "mov"), "recording_no_music.mov");
    assert_eq!(output_file_name("session", "avi"), "session_no_music.avi");
    assert_eq!(output_file_name("raw", ""), "raw_no_music");
}

#[test]
fn elapsed_times_are_formatted() {
    assert_eq!(format_elapsed(0, 5), "0.005s");
    assert_eq!(format_elapsed(59, 999), "59.999s");
    assert_eq!(format_elapsed(60, 0), "1m 0.000s");
    assert_eq!(format_elapsed(125, 42), "2m 5.042s");
    assert_eq!(format_elapsed(3600, 100), "60m 0.100s");
}

#[test]
fn finished_step_line() {
    assert_eq!(
        finish_step_message("[1/5] Validating inputs...", 1, 20),
        "[1/5] Validating inputs... \u{2713} (1.020s)"
    );
}

#[test]
fn temp_names_are_built_from_the_drawn_ids() {
    let (a, b) = temp_file_names("0f0e-1", "77aa-2");
    assert_eq!(a, "0f0e-1_extracted.wav");
    assert_eq!(b, "77aa-2_vocals.wav");
}

#[test]
fn temp_names_from_fresh_uuids_are_distinct() {
    let x = uuid::Uuid::new_v4().to_string();
    let y = uuid::Uuid::new_v4().to_string();
    let (a, b) = temp_file_names(&x, &y);
    assert_ne!(a, b);
    assert_eq!(a, format!("{x}_extracted.wav"));
    assert_eq!(b, format!("{y}_vocals.wav"));
    assert!(!a.contains('/') && !b.contains('/'));
    // even the same id gives two names
    let (c, d) = temp_file_names(&x, &x);
    assert_ne!(c, d);
}
