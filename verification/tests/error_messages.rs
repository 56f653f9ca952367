use music_separator::error::AppError;

#[test]
fn every_variant_formats_to_non_empty_string() {
    let errors: Vec<AppError> = vec![
        AppError::ConfigNotFound,
        AppError::ConfigParse("x".to_string()),
        AppError::ModelNotFound("x".to_string()),
        AppError::ModelDataNotFound("x".to_string()),
        AppError::ModelDataParse("x".to_string()),
        AppError::ModelNotInRegistry("x".to_string()),
        AppError::InputVideoNotFound("x".to_string()),
        AppError::OutputDirCreate("x".to_string()),
        AppError::FfmpegProbe("x".to_string()),
        AppError::FfmpegExtract("x".to_string()),
        AppError::FfmpegRemux("x".to_string()),
        AppError::OnnxLoad("x".to_string()),
        AppError::OnnxInference("x".to_string()),
        AppError::AudioRead("x".to_string()),
        AppError::AudioWrite("x".to_string()),
        AppError::FileCopy("x".to_string()),
    ];

    assert_eq!(errors.len(), 16);

    for err in &errors {
        assert!(!err.message().is_empty());
    }
}

#[test]
fn messages_match_the_error_reference() {
    assert_eq!(
        AppError::ConfigNotFound.message(),
        "config.json not found in current working directory"
    );
    assert_eq!(
        AppError::ConfigParse("expected value".to_string()).message(),
        "failed to parse config.json: expected value"
    );
    assert_eq!(
        AppError::ModelNotFound("models/x.onnx".to_string()).message(),
        "model file not found: models/x.onnx"
    );
    assert_eq!(
        AppError::ModelNotInRegistry("a.onnx".to_string()).message(),
        "model not listed in model_data.json: a.onnx"
    );
    assert_eq!(
        AppError::InputVideoNotFound("/v.mp4".to_string()).message(),
        "input video file not found: /v.mp4"
    );
    assert_eq!(
        AppError::FileCopy("denied".to_string()).message(),
        "failed to copy file: denied"
    );
}
