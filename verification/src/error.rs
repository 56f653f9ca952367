//! The one error type of the tool, with the message that the command line
//! prints for each variant.

use vstd::prelude::*;

verus! {

/// Everything that can stop a run. Paths are carried as the text of the path.
#[derive(Debug)]
pub enum AppError {
    /// `config.json` is not in the working directory.
    ConfigNotFound,
    /// `config.json` could not be read or parsed.
    ConfigParse(String),
    /// The model file named by the configuration does not exist (path).
    ModelNotFound(String),
    /// `model_data.json` is missing beside the model (path).
    ModelDataNotFound(String),
    /// `model_data.json` could not be read or parsed.
    ModelDataParse(String),
    /// The model's file name has no entry in `model_data.json`.
    ModelNotInRegistry(String),
    /// The input video does not exist (path).
    InputVideoNotFound(String),
    /// The output directory could not be created.
    OutputDirCreate(String),
    /// FFmpeg could not open or probe the input.
    FfmpegProbe(String),
    /// Demuxing, decoding or resampling the audio failed.
    FfmpegExtract(String),
    /// Muxing the new audio track into the video failed.
    FfmpegRemux(String),
    /// ONNX Runtime could not load the model.
    OnnxLoad(String),
    /// A forward pass of the model failed.
    OnnxInference(String),
    /// The extracted WAV could not be read.
    AudioRead(String),
    /// The separated WAV could not be written.
    AudioWrite(String),
    /// Copying the input to the output directory failed.
    FileCopy(String),
}

/// The mathematical content of an [`AppError`]: the variant and its text.
pub enum AppErrorView {
    ConfigNotFound,
    ConfigParse(Seq<char>),
    ModelNotFound(Seq<char>),
    ModelDataNotFound(Seq<char>),
    ModelDataParse(Seq<char>),
    ModelNotInRegistry(Seq<char>),
    InputVideoNotFound(Seq<char>),
    OutputDirCreate(Seq<char>),
    FfmpegProbe(Seq<char>),
    FfmpegExtract(Seq<char>),
    FfmpegRemux(Seq<char>),
    OnnxLoad(Seq<char>),
    OnnxInference(Seq<char>),
    AudioRead(Seq<char>),
    AudioWrite(Seq<char>),
    FileCopy(Seq<char>),
}

impl View for AppError {
    type V = AppErrorView;

    open spec fn view(&self) -> AppErrorView {
        match self {
            AppError::ConfigNotFound => AppErrorView::ConfigNotFound,
            AppError::ConfigParse(s) => AppErrorView::ConfigParse(s@),
            AppError::ModelNotFound(s) => AppErrorView::ModelNotFound(s@),
            AppError::ModelDataNotFound(s) => AppErrorView::ModelDataNotFound(s@),
            AppError::ModelDataParse(s) => AppErrorView::ModelDataParse(s@),
            AppError::ModelNotInRegistry(s) => AppErrorView::ModelNotInRegistry(s@),
            AppError::InputVideoNotFound(s) => AppErrorView::InputVideoNotFound(s@),
            AppError::OutputDirCreate(s) => AppErrorView::OutputDirCreate(s@),
            AppError::FfmpegProbe(s) => AppErrorView::FfmpegProbe(s@),
            AppError::FfmpegExtract(s) => AppErrorView::FfmpegExtract(s@),
            AppError::FfmpegRemux(s) => AppErrorView::FfmpegRemux(s@),
            AppError::OnnxLoad(s) => AppErrorView::OnnxLoad(s@),
            AppError::OnnxInference(s) => AppErrorView::OnnxInference(s@),
            AppError::AudioRead(s) => AppErrorView::AudioRead(s@),
            AppError::AudioWrite(s) => AppErrorView::AudioWrite(s@),
            AppError::FileCopy(s) => AppErrorView::FileCopy(s@),
        }
    }
}

/// The human-readable line for an error: a fixed description of the variant,
/// followed by its text where it carries one.
pub open spec fn error_message(e: AppErrorView) -> Seq<char> {
    match e {
        AppErrorView::ConfigNotFound => "config.json not found in current working directory"@,
        AppErrorView::ConfigParse(s) => "failed to parse config.json: "@ + s,
        AppErrorView::ModelNotFound(s) => "model file not found: "@ + s,
        AppErrorView::ModelDataNotFound(s) => "model_data.json not found at: "@ + s,
        AppErrorView::ModelDataParse(s) => "failed to parse model_data.json: "@ + s,
        AppErrorView::ModelNotInRegistry(s) => "model not listed in model_data.json: "@ + s,
        AppErrorView::InputVideoNotFound(s) => "input video file not found: "@ + s,
        AppErrorView::OutputDirCreate(s) => "failed to create output directory: "@ + s,
        AppErrorView::FfmpegProbe(s) => "ffmpeg probe failed: "@ + s,
        AppErrorView::FfmpegExtract(s) => "ffmpeg audio extraction failed: "@ + s,
        AppErrorView::FfmpegRemux(s) => "ffmpeg remux failed: "@ + s,
        AppErrorView::OnnxLoad(s) => "failed to load ONNX model: "@ + s,
        AppErrorView::OnnxInference(s) => "ONNX inference failed: "@ + s,
        AppErrorView::AudioRead(s) => "failed to read WAV audio: "@ + s,
        AppErrorView::AudioWrite(s) => "failed to write WAV audio: "@ + s,
        AppErrorView::FileCopy(s) => "failed to copy file: "@ + s,
    }
}

impl AppError {
    /// The message printed for this error (what `Display` shows).
    pub fn message(&self) -> (m: String)
        ensures
            m@ == error_message(self@),
            m@.len() > 0,
    {
        match self {
            AppError::ConfigNotFound => {
                proof {
                    reveal_strlit("config.json not found in current working directory");
                }
                String::from_str("config.json not found in current working directory")
            },
            AppError::ConfigParse(s) => {
                proof {
                    reveal_strlit("failed to parse config.json: ");
                }
                let mut m = String::from_str("failed to parse config.json: ");
                m.append(s.as_str());
                m
            },
            AppError::ModelNotFound(s) => {
                proof {
                    reveal_strlit("model file not found: ");
                }
                let mut m = String::from_str("model file not found: ");
                m.append(s.as_str());
                m
            },
            AppError::ModelDataNotFound(s) => {
                proof {
                    reveal_strlit("model_data.json not found at: ");
                }
                let mut m = String::from_str("model_data.json not found at: ");
                m.append(s.as_str());
                m
            },
            AppError::ModelDataParse(s) => {
                proof {
                    reveal_strlit("failed to parse model_data.json: ");
                }
                let mut m = String::from_str("failed to parse model_data.json: ");
                m.append(s.as_str());
                m
            },
            AppError::ModelNotInRegistry(s) => {
                proof {
                    reveal_strlit("model not listed in model_data.json: ");
                }
                let mut m = String::from_str("model not listed in model_data.json: ");
                m.append(s.as_str());
                m
            },
            AppError::InputVideoNotFound(s) => {
                proof {
                    reveal_strlit("input video file not found: ");
                }
                let mut m = String::from_str("input video file not found: ");
                m.append(s.as_str());
                m
            },
            AppError::OutputDirCreate(s) => {
                proof {
                    reveal_strlit("failed to create output directory: ");
                }
                let mut m = String::from_str("failed to create output directory: ");
                m.append(s.as_str());
                m
            },
            AppError::FfmpegProbe(s) => {
                proof {
                    reveal_strlit("ffmpeg probe failed: ");
                }
                let mut m = String::from_str("ffmpeg probe failed: ");
                m.append(s.as_str());
                m
            },
            AppError::FfmpegExtract(s) => {
                proof {
                    reveal_strlit("ffmpeg audio extraction failed: ");
                }
                let mut m = String::from_str("ffmpeg audio extraction failed: ");
                m.append(s.as_str());
                m
            },
            AppError::FfmpegRemux(s) => {
                proof {
                    reveal_strlit("ffmpeg remux failed: ");
                }
                let mut m = String::from_str("ffmpeg remux failed: ");
                m.append(s.as_str());
                m
            },
            AppError::OnnxLoad(s) => {
                proof {
                    reveal_strlit("failed to load ONNX model: ");
                }
                let mut m = String::from_str("failed to load ONNX model: ");
                m.append(s.as_str());
                m
            },
            AppError::OnnxInference(s) => {
                proof {
                    reveal_strlit("ONNX inference failed: ");
                }
                let mut m = String::from_str("ONNX inference failed: ");
                m.append(s.as_str());
                m
            },
            AppError::AudioRead(s) => {
                proof {
                    reveal_strlit("failed to read WAV audio: ");
                }
                let mut m = String::from_str("failed to read WAV audio: ");
                m.append(s.as_str());
                m
            },
            AppError::AudioWrite(s) => {
                proof {
                    reveal_strlit("failed to write WAV audio: ");
                }
                let mut m = String::from_str("failed to write WAV audio: ");
                m.append(s.as_str());
                m
            },
            AppError::FileCopy(s) => {
                proof {
                    reveal_strlit("failed to copy file: ");
                }
                let mut m = String::from_str("failed to copy file: ");
                m.append(s.as_str());
                m
            },
        }
    }
}

} // verus!
