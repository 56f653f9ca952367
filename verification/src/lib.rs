//! Verified core of the music-separator command line tool: the pipeline's
//! decisions, the data layout around the model, the audio byte decoding and
//! every message the tool prints.

pub mod text;
pub mod error;
pub mod config;
pub mod model_data;
pub mod ffmpeg;
pub mod pipeline;
pub mod inference;
pub mod logging;
