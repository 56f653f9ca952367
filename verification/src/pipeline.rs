//! The run of the tool as a state machine: validate the inputs, probe the
//! audio, extract it, separate the vocals, remux them into the video, and
//! clean up the temporary files. [`Pipeline::step`] takes what the last
//! outside operation reported and says what to do next; the caller performs
//! each [`Action`] (file checks, FFmpeg, ONNX Runtime) and reports back an
//! [`Event`].

use vstd::prelude::*;
use crate::error::{AppError, AppErrorView};
use crate::ffmpeg::AudioInfo;
use crate::model_data::{ModelParams, first_named, find_by_name, lemma_first_named_is_first_match};
use crate::text::{decimal, decimal_string, zero_pad, zero_padded_decimal_string};

verus! {

/// Where a run stands: the outside operation it waits for.
#[derive(Debug, Clone, Copy, PartialEq, Eq, Structural)]
pub enum Stage {
    Start,
    CheckingModel,
    CheckingInput,
    LoadingModelData,
    CreatingOutputDir,
    Probing,
    Copying,
    AllocatingTemps,
    Extracting,
    Separating,
    Remuxing,
    CleaningUp,
    Done,
}

/// What a run is given: the input video, the configured model and output
/// directory, and the parts of those paths that the run names files by
/// (each as the standard library's path functions give it).
#[derive(Debug)]
pub struct RunInputs {
    /// The input video.
    pub input_path: String,
    /// `file_stem` of the input video (empty when it has none).
    pub input_stem: String,
    /// `extension` of the input video (empty when it has none).
    pub input_extension: String,
    /// The configured model file.
    pub model_path: String,
    /// `parent` of the model path.
    pub model_dir: Option<String>,
    /// `file_name` of the model path, when it has one that is valid UTF-8.
    pub model_file_name: Option<String>,
    /// The configured output directory.
    pub output_dir: String,
}

/// The text of the [`RunInputs`].
pub struct RunInputsModel {
    pub input_path: Seq<char>,
    pub input_stem: Seq<char>,
    pub input_extension: Seq<char>,
    pub model_path: Seq<char>,
    pub model_dir: Option<Seq<char>>,
    pub model_file_name: Option<Seq<char>>,
    pub output_dir: Seq<char>,
}

/// An optional text by its view.
pub open spec fn opt_text(o: Option<String>) -> Option<Seq<char>> {
    match o {
        Some(s) => Some(s@),
        None => None,
    }
}

impl View for RunInputs {
    type V = RunInputsModel;

    open spec fn view(&self) -> RunInputsModel {
        RunInputsModel {
            input_path: self.input_path@,
            input_stem: self.input_stem@,
            input_extension: self.input_extension@,
            model_path: self.model_path@,
            model_dir: opt_text(self.model_dir),
            model_file_name: opt_text(self.model_file_name),
            output_dir: self.output_dir@,
        }
    }
}

/// The two temporary WAV files of a run: the extracted audio and the
/// separated vocals.
#[derive(Debug)]
pub struct TempPaths {
    pub extracted: String,
    pub vocals: String,
}

impl View for TempPaths {
    type V = (Seq<char>, Seq<char>);

    open spec fn view(&self) -> (Seq<char>, Seq<char>) {
        (self.extracted@, self.vocals@)
    }
}

/// What the outside operation asked for came to.
pub enum Event {
    /// Start the run.
    Begin,
    /// Whether the path asked about exists.
    Exists(bool),
    /// The entries of `model_data.json`, or why they could not be read.
    ModelDataLoaded(Result<Vec<ModelParams>, AppError>),
    /// Creating the output directory succeeded, or failed with this text.
    OutputDirCreated(Result<(), String>),
    /// The input's audio stream, if it has one, or why probing failed.
    Probed(Result<Option<AudioInfo>, AppError>),
    /// Copying the input succeeded, or failed with this text.
    Copied(Result<(), String>),
    /// The paths chosen for the temporary files.
    TempsAllocated(TempPaths),
    /// Extracting the audio to the first temporary file.
    Extracted(Result<AudioInfo, AppError>),
    /// Loading the model and separating the vocals into the second one.
    Separated(Result<(), AppError>),
    /// Remuxing the vocals into the output video.
    Remuxed(Result<(), AppError>),
    /// The temporary files were removed (or removal was attempted).
    TempsRemoved,
}

/// An [`Event`] with its texts and errors by their views.
pub enum EventModel {
    Begin,
    Exists(bool),
    ModelDataLoaded(Result<Seq<ModelParams>, AppErrorView>),
    OutputDirCreated(Result<(), Seq<char>>),
    Probed(Result<Option<AudioInfo>, AppErrorView>),
    Copied(Result<(), Seq<char>>),
    TempsAllocated((Seq<char>, Seq<char>)),
    Extracted(Result<AudioInfo, AppErrorView>),
    Separated(Result<(), AppErrorView>),
    Remuxed(Result<(), AppErrorView>),
    TempsRemoved,
}

/// An error result by its view.
pub open spec fn result_view<T>(r: Result<T, AppError>) -> Result<T, AppErrorView> {
    match r {
        Ok(v) => Ok(v),
        Err(e) => Err(e@),
    }
}

/// A result whose error is text, by its view.
pub open spec fn text_result_view(r: Result<(), String>) -> Result<(), Seq<char>> {
    match r {
        Ok(v) => Ok(v),
        Err(e) => Err(e@),
    }
}

impl View for Event {
    type V = EventModel;

    open spec fn view(&self) -> EventModel {
        match self {
            Event::Begin => EventModel::Begin,
            Event::Exists(b) => EventModel::Exists(*b),
            Event::ModelDataLoaded(r) => EventModel::ModelDataLoaded(
                match r {
                    Ok(v) => Ok(v@),
                    Err(e) => Err(e@),
                },
            ),
            Event::OutputDirCreated(r) => EventModel::OutputDirCreated(text_result_view(*r)),
            Event::Probed(r) => EventModel::Probed(result_view(*r)),
            Event::Copied(r) => EventModel::Copied(text_result_view(*r)),
            Event::TempsAllocated(t) => EventModel::TempsAllocated(t@),
            Event::Extracted(r) => EventModel::Extracted(result_view(*r)),
            Event::Separated(r) => EventModel::Separated(result_view(*r)),
            Event::Remuxed(r) => EventModel::Remuxed(result_view(*r)),
            Event::TempsRemoved => EventModel::TempsRemoved,
        }
    }
}

/// The next outside operation of a run.
#[derive(Debug)]
pub enum Action {
    /// Report whether this path exists.
    CheckExists(String),
    /// Load the model registry `file_name` in `dir`.
    LoadModelData { dir: String, file_name: String },
    /// Create this directory and its parents.
    CreateOutputDir(String),
    /// Probe this video for an audio stream.
    ProbeAudio(String),
    /// Copy `from` to `file_name` in `dir`.
    CopyInput { from: String, dir: String, file_name: String },
    /// Choose the two temporary file paths.
    AllocateTemps,
    /// Extract the audio of `input` to the WAV file `wav`.
    ExtractAudio { input: String, wav: String },
    /// Load the model and separate the vocals of `wav` into `output`.
    SeparateVocals { params: ModelParams, wav: String, output: String },
    /// Mux the video of `video` with the audio of `audio` into `file_name` in `dir`.
    Remux { video: String, audio: String, dir: String, file_name: String },
    /// Remove both temporary files (a failure to remove is only a warning).
    RemoveTemps { extracted: String, vocals: String },
    /// The run is over, with this result.
    Finish(Result<(), AppError>),
    /// The event did not fit the stage; nothing changed.
    Ignored,
}

/// An [`Action`] with its texts and result by their views.
pub enum ActionModel {
    CheckExists(Seq<char>),
    LoadModelData { dir: Seq<char>, file_name: Seq<char> },
    CreateOutputDir(Seq<char>),
    ProbeAudio(Seq<char>),
    CopyInput { from: Seq<char>, dir: Seq<char>, file_name: Seq<char> },
    AllocateTemps,
    ExtractAudio { input: Seq<char>, wav: Seq<char> },
    SeparateVocals { params: ModelParams, wav: Seq<char>, output: Seq<char> },
    Remux { video: Seq<char>, audio: Seq<char>, dir: Seq<char>, file_name: Seq<char> },
    RemoveTemps { extracted: Seq<char>, vocals: Seq<char> },
    Finish(Result<(), AppErrorView>),
    Ignored,
}

impl View for Action {
    type V = ActionModel;

    open spec fn view(&self) -> ActionModel {
        match self {
            Action::CheckExists(p) => ActionModel::CheckExists(p@),
            Action::LoadModelData { dir, file_name } => ActionModel::LoadModelData {
                dir: dir@,
                file_name: file_name@,
            },
            Action::CreateOutputDir(d) => ActionModel::CreateOutputDir(d@),
            Action::ProbeAudio(p) => ActionModel::ProbeAudio(p@),
            Action::CopyInput { from, dir, file_name } => ActionModel::CopyInput {
                from: from@,
                dir: dir@,
                file_name: file_name@,
            },
            Action::AllocateTemps => ActionModel::AllocateTemps,
            Action::ExtractAudio { input, wav } => ActionModel::ExtractAudio {
                input: input@,
                wav: wav@,
            },
            Action::SeparateVocals { params, wav, output } => ActionModel::SeparateVocals {
                params: *params,
                wav: wav@,
                output: output@,
            },
            Action::Remux { video, audio, dir, file_name } => ActionModel::Remux {
                video: video@,
                audio: audio@,
                dir: dir@,
                file_name: file_name@,
            },
            Action::RemoveTemps { extracted, vocals } => ActionModel::RemoveTemps {
                extracted: extracted@,
                vocals: vocals@,
            },
            Action::Finish(r) => ActionModel::Finish(result_view(*r)),
            Action::Ignored => ActionModel::Ignored,
        }
    }
}

/// The state of a run: its stage, its inputs, the model entry once found,
/// the temporary files once chosen, and the result held back while the
/// temporary files are removed.
pub struct PipelineModel {
    pub stage: Stage,
    pub inputs: RunInputsModel,
    pub params: Option<ModelParams>,
    pub temps: Option<(Seq<char>, Seq<char>)>,
    pub pending: Option<Result<(), AppErrorView>>,
}

/// Name of the output file for an input with this stem and extension:
/// `{stem}_no_music.{extension}`, or `{stem}_no_music` without extension.
pub open spec fn output_name(stem: Seq<char>, extension: Seq<char>) -> Seq<char> {
    if extension.len() == 0 {
        stem + "_no_music"@
    } else {
        stem + "_no_music."@ + extension
    }
}

/// The file name under which the result for an input with this stem and
/// extension is written.
pub fn output_file_name(stem: &str, extension: &str) -> (name: String)
    ensures
        name@ == output_name(stem@, extension@),
{
    let mut name = String::from_str(stem);
    if extension.is_empty() {
        name.append("_no_music");
    } else {
        name.append("_no_music.");
        name.append(extension);
    }
    name
}

/// An elapsed time as the progress display shows it: `S.mmms` below a
/// minute, `Mm S.mmms` from a minute on (`mmm`: milliseconds, zero-padded to
/// three digits).
pub open spec fn elapsed_text(secs: nat, millis: nat) -> Seq<char> {
    let frac = "."@ + zero_pad(decimal(millis), 3) + "s"@;
    if secs < 60 {
        decimal(secs) + frac
    } else {
        decimal(secs / 60) + "m "@ + decimal(secs % 60) + frac
    }
}

/// An elapsed time of `secs` whole seconds and `millis` milliseconds, as
/// the progress display shows it.
pub fn format_elapsed(secs: u64, millis: u32) -> (text: String)
    ensures
        text@ == elapsed_text(secs as nat, millis as nat),
{
    let mut text = if secs < 60 {
        decimal_string(secs)
    } else {
        let mut t = decimal_string(secs / 60);
        t.append("m ");
        let rem = decimal_string(secs % 60);
        t.append(rem.as_str());
        t
    };
    text.append(".");
    let ms = zero_padded_decimal_string(millis as u64, 3);
    text.append(ms.as_str());
    text.append("s");
    text
}

/// The line a finished step's spinner ends with: its message, a check mark
/// and the time the step took.
pub fn finish_step_message(msg: &str, secs: u64, millis: u32) -> (line: String)
    ensures
        line@ == msg@ + " \u{2713} ("@ + elapsed_text(secs as nat, millis as nat) + ")"@,
{
    let mut line = String::from_str(msg);
    line.append(" \u{2713} (");
    let elapsed = format_elapsed(secs, millis);
    line.append(elapsed.as_str());
    line.append(")");
    line
}

/// Whether `s` holds neither of the path separators `/` and `\\`.
pub open spec fn has_no_separator(s: Seq<char>) -> bool {
    forall|i: int| 0 <= i < s.len() ==> #[trigger] s[i] != '/' && s[i] != '\\'
}

/// File names for a run's two temporary WAV files, from the ids drawn for
/// them (fresh random UUIDs): `{extracted_id}_extracted.wav` and
/// `{vocals_id}_vocals.wav`. Ids of the same length (as UUID texts are)
/// always give two different names, and ids without a path separator give
/// names without one.
pub fn temp_file_names(extracted_id: &str, vocals_id: &str) -> (names: (String, String))
    ensures
        names.0@ == extracted_id@ + "_extracted.wav"@,
        names.1@ == vocals_id@ + "_vocals.wav"@,
        extracted_id@.len() == vocals_id@.len() ==> names.0@ != names.1@,
        has_no_separator(extracted_id@) ==> has_no_separator(names.0@),
        has_no_separator(vocals_id@) ==> has_no_separator(names.1@),
{
    let mut extracted = String::from_str(extracted_id);
    extracted.append("_extracted.wav");
    let mut vocals = String::from_str(vocals_id);
    vocals.append("_vocals.wav");
    proof {
        reveal_strlit("_extracted.wav");
        reveal_strlit("_vocals.wav");
        let n = extracted_id@.len() as int;
        if n == vocals_id@.len() {
            assert(extracted@[n + 1] != vocals@[n + 1]);
        }
        if has_no_separator(extracted_id@) {
            assert forall|i: int| 0 <= i < extracted@.len() implies #[trigger] extracted@[i] != '/'
                && extracted@[i] != '\\' by {
                if i < n {
                    assert(extracted@[i] == extracted_id@[i]);
                }
            }
        }
        let m = vocals_id@.len() as int;
        if has_no_separator(vocals_id@) {
            assert forall|i: int| 0 <= i < vocals@.len() implies #[trigger] vocals@[i] != '/'
                && vocals@[i] != '\\' by {
                if i < m {
                    assert(vocals@[i] == vocals_id@[i]);
                }
            }
        }
    }
    (extracted, vocals)
}

/// The directory in which `model_data.json` is looked for: the model's
/// parent directory, or `.` when the model path has none.
pub open spec fn model_data_dir(inputs: RunInputsModel) -> Seq<char> {
    match inputs.model_dir {
        Some(d) => d,
        None => "."@,
    }
}

/// A run that has not started.
pub open spec fn start(inputs: RunInputsModel) -> PipelineModel {
    PipelineModel { stage: Stage::Start, inputs, params: None, temps: None, pending: None }
}

/// `s` moved to `stage`.
pub open spec fn at(s: PipelineModel, stage: Stage) -> PipelineModel {
    PipelineModel { stage, ..s }
}

/// End the run with `outcome`.
pub open spec fn finish(s: PipelineModel, outcome: Result<(), AppErrorView>) -> (
    PipelineModel,
    ActionModel,
) {
    (at(s, Stage::Done), ActionModel::Finish(outcome))
}

/// End the run with `outcome`, removing the temporary files first when
/// there are any.
pub open spec fn finish_after_cleanup(s: PipelineModel, outcome: Result<(), AppErrorView>) -> (
    PipelineModel,
    ActionModel,
) {
    match s.temps {
        Some(t) => (
            PipelineModel { stage: Stage::CleaningUp, pending: Some(outcome), ..s },
            ActionModel::RemoveTemps { extracted: t.0, vocals: t.1 },
        ),
        None => finish(s, outcome),
    }
}

/// The output file name of the run.
pub open spec fn run_output_name(s: PipelineModel) -> Seq<char> {
    output_name(s.inputs.input_stem, s.inputs.input_extension)
}

/// What a run in state `s` does on event `e`: its next state and action.
pub open spec fn next(s: PipelineModel, e: EventModel) -> (PipelineModel, ActionModel) {
    let ignored = (s, ActionModel::Ignored);
    match e {
        EventModel::Begin => if s.stage == Stage::Start {
            (at(s, Stage::CheckingModel), ActionModel::CheckExists(s.inputs.model_path))
        } else {
            ignored
        },
        EventModel::Exists(found) => if s.stage == Stage::CheckingModel {
            if found {
                (at(s, Stage::CheckingInput), ActionModel::CheckExists(s.inputs.input_path))
            } else {
                finish(s, Err(AppErrorView::ModelNotFound(s.inputs.model_path)))
            }
        } else if s.stage == Stage::CheckingInput {
            if found {
                (
                    at(s, Stage::LoadingModelData),
                    ActionModel::LoadModelData {
                        dir: model_data_dir(s.inputs),
                        file_name: "model_data.json"@,
                    },
                )
            } else {
                finish(s, Err(AppErrorView::InputVideoNotFound(s.inputs.input_path)))
            }
        } else {
            ignored
        },
        EventModel::ModelDataLoaded(r) => if s.stage == Stage::LoadingModelData {
            match r {
                Err(e) => finish(s, Err(e)),
                Ok(list) => match s.inputs.model_file_name {
                    None => finish(s, Err(AppErrorView::ModelNotFound(s.inputs.model_path))),
                    Some(name) => match first_named(list, name) {
                        None => finish(s, Err(AppErrorView::ModelNotInRegistry(name))),
                        Some(p) => (
                            PipelineModel { stage: Stage::CreatingOutputDir, params: Some(p), ..s },
                            ActionModel::CreateOutputDir(s.inputs.output_dir),
                        ),
                    },
                },
            }
        } else {
            ignored
        },
        EventModel::OutputDirCreated(r) => if s.stage == Stage::CreatingOutputDir {
            match r {
                Err(m) => finish(s, Err(AppErrorView::OutputDirCreate(m))),
                Ok(()) => (at(s, Stage::Probing), ActionModel::ProbeAudio(s.inputs.input_path)),
            }
        } else {
            ignored
        },
        EventModel::Probed(r) => if s.stage == Stage::Probing {
            match r {
                Err(e) => finish(s, Err(e)),
                Ok(None) => (
                    at(s, Stage::Copying),
                    ActionModel::CopyInput {
                        from: s.inputs.input_path,
                        dir: s.inputs.output_dir,
                        file_name: run_output_name(s),
                    },
                ),
                Ok(Some(_)) => (at(s, Stage::AllocatingTemps), ActionModel::AllocateTemps),
            }
        } else {
            ignored
        },
        EventModel::Copied(r) => if s.stage == Stage::Copying {
            match r {
                Err(m) => finish(s, Err(AppErrorView::FileCopy(m))),
                Ok(()) => finish(s, Ok(())),
            }
        } else {
            ignored
        },
        EventModel::TempsAllocated(t) => if s.stage == Stage::AllocatingTemps {
            (
                PipelineModel { stage: Stage::Extracting, temps: Some(t), ..s },
                ActionModel::ExtractAudio { input: s.inputs.input_path, wav: t.0 },
            )
        } else {
            ignored
        },
        EventModel::Extracted(r) => if s.stage == Stage::Extracting {
            match r {
                Err(e) => finish_after_cleanup(s, Err(e)),
                Ok(_) => match (s.params, s.temps) {
                    (Some(p), Some(t)) => (
                        at(s, Stage::Separating),
                        ActionModel::SeparateVocals { params: p, wav: t.0, output: t.1 },
                    ),
                    _ => ignored,
                },
            }
        } else {
            ignored
        },
        EventModel::Separated(r) => if s.stage == Stage::Separating {
            match r {
                Err(e) => finish_after_cleanup(s, Err(e)),
                Ok(()) => match s.temps {
                    Some(t) => (
                        at(s, Stage::Remuxing),
                        ActionModel::Remux {
                            video: s.inputs.input_path,
                            audio: t.1,
                            dir: s.inputs.output_dir,
                            file_name: run_output_name(s),
                        },
                    ),
                    None => ignored,
                },
            }
        } else {
            ignored
        },
        EventModel::Remuxed(r) => if s.stage == Stage::Remuxing {
            finish_after_cleanup(s, r)
        } else {
            ignored
        },
        EventModel::TempsRemoved => if s.stage == Stage::CleaningUp {
            match s.pending {
                Some(outcome) => finish(PipelineModel { pending: None, ..s }, outcome),
                None => ignored,
            }
        } else {
            ignored
        },
    }
}

/// A run of the tool.
pub struct Pipeline {
    stage: Stage,
    inputs: RunInputs,
    params: Option<ModelParams>,
    temps: Option<TempPaths>,
    pending: Option<Result<(), AppError>>,
}

/// Optional temporary paths by their views.
pub open spec fn opt_temps(t: Option<TempPaths>) -> Option<(Seq<char>, Seq<char>)> {
    match t {
        Some(t) => Some(t@),
        None => None,
    }
}

/// An optional result by its view.
pub open spec fn opt_outcome(o: Option<Result<(), AppError>>) -> Option<Result<(), AppErrorView>> {
    match o {
        Some(r) => Some(result_view(r)),
        None => None,
    }
}

impl View for Pipeline {
    type V = PipelineModel;

    closed spec fn view(&self) -> PipelineModel {
        PipelineModel {
            stage: self.stage,
            inputs: self.inputs@,
            params: self.params,
            temps: opt_temps(self.temps),
            pending: opt_outcome(self.pending),
        }
    }
}

impl Pipeline {
    /// A run over `inputs` that has not started; [`Event::Begin`] starts it.
    pub fn new(inputs: RunInputs) -> (p: Pipeline)
        ensures
            p@ == start(inputs@),
    {
        Pipeline { stage: Stage::Start, inputs, params: None, temps: None, pending: None }
    }

    /// The stage the run is in.
    pub fn stage(&self) -> (s: Stage)
        ensures
            s == self@.stage,
    {
        self.stage
    }

    fn finish(&mut self, outcome: Result<(), AppError>) -> (a: Action)
        ensures
            (final(self)@, a@) == finish(old(self)@, result_view(outcome)),
    {
        self.stage = Stage::Done;
        Action::Finish(outcome)
    }

    fn finish_after_cleanup(&mut self, outcome: Result<(), AppError>) -> (a: Action)
        ensures
            (final(self)@, a@) == finish_after_cleanup(old(self)@, result_view(outcome)),
    {
        let removal = match &self.temps {
            Some(t) => Some(
                Action::RemoveTemps { extracted: t.extracted.clone(), vocals: t.vocals.clone() },
            ),
            None => None,
        };
        match removal {
            Some(a) => {
                self.stage = Stage::CleaningUp;
                self.pending = Some(outcome);
                a
            },
            None => self.finish(outcome),
        }
    }

    fn output_name(&self) -> (name: String)
        ensures
            name@ == run_output_name(self@),
    {
        output_file_name(self.inputs.input_stem.as_str(), self.inputs.input_extension.as_str())
    }

    /// Advance the run by what the last outside operation reported.
    pub fn step(&mut self, event: Event) -> (action: Action)
        ensures
            (final(self)@, action@) == next(old(self)@, event@),
    {
        let stage = self.stage;
        match event {
            Event::Begin => {
                if stage == Stage::Start {
                    self.stage = Stage::CheckingModel;
                    Action::CheckExists(self.inputs.model_path.clone())
                } else {
                    Action::Ignored
                }
            },
            Event::Exists(found) => {
                if stage == Stage::CheckingModel {
                    if found {
                        self.stage = Stage::CheckingInput;
                        Action::CheckExists(self.inputs.input_path.clone())
                    } else {
                        let p = self.inputs.model_path.clone();
                        self.finish(Err(AppError::ModelNotFound(p)))
                    }
                } else if stage == Stage::CheckingInput {
                    if found {
                        let dir = match &self.inputs.model_dir {
                            Some(d) => d.clone(),
                            None => String::from_str("."),
                        };
                        self.stage = Stage::LoadingModelData;
                        Action::LoadModelData { dir, file_name: String::from_str("model_data.json") }
                    } else {
                        let p = self.inputs.input_path.clone();
                        self.finish(Err(AppError::InputVideoNotFound(p)))
                    }
                } else {
                    Action::Ignored
                }
            },
            Event::ModelDataLoaded(loaded) => {
                if stage == Stage::LoadingModelData {
                    match loaded {
                        Err(e) => self.finish(Err(e)),
                        Ok(list) => {
                            let found: Result<ModelParams, AppError> = match &self.inputs.model_file_name {
                                None => Err(AppError::ModelNotFound(self.inputs.model_path.clone())),
                                Some(name) => match find_by_name(list.as_slice(), name.as_str()) {
                                    Ok(p) => Ok(p.clone()),
                                    Err(e) => Err(e),
                                },
                            };
                            match found {
                                Ok(p) => {
                                    self.params = Some(p);
                                    self.stage = Stage::CreatingOutputDir;
                                    Action::CreateOutputDir(self.inputs.output_dir.clone())
                                },
                                Err(e) => self.finish(Err(e)),
                            }
                        },
                    }
                } else {
                    Action::Ignored
                }
            },
            Event::OutputDirCreated(r) => {
                if stage == Stage::CreatingOutputDir {
                    match r {
                        Err(m) => self.finish(Err(AppError::OutputDirCreate(m))),
                        Ok(()) => {
                            self.stage = Stage::Probing;
                            Action::ProbeAudio(self.inputs.input_path.clone())
                        },
                    }
                } else {
                    Action::Ignored
                }
            },
            Event::Probed(r) => {
                if stage == Stage::Probing {
                    match r {
                        Err(e) => self.finish(Err(e)),
                        Ok(None) => {
                            let file_name = self.output_name();
                            self.stage = Stage::Copying;
                            Action::CopyInput {
                                from: self.inputs.input_path.clone(),
                                dir: self.inputs.output_dir.clone(),
                                file_name,
                            }
                        },
                        Ok(Some(_)) => {
                            self.stage = Stage::AllocatingTemps;
                            Action::AllocateTemps
                        },
                    }
                } else {
                    Action::Ignored
                }
            },
            Event::Copied(r) => {
                if stage == Stage::Copying {
                    match r {
                        Err(m) => self.finish(Err(AppError::FileCopy(m))),
                        Ok(()) => self.finish(Ok(())),
                    }
                } else {
                    Action::Ignored
                }
            },
            Event::TempsAllocated(t) => {
                if stage == Stage::AllocatingTemps {
                    let a = Action::ExtractAudio {
                        input: self.inputs.input_path.clone(),
                        wav: t.extracted.clone(),
                    };
                    self.temps = Some(t);
                    self.stage = Stage::Extracting;
                    a
                } else {
                    Action::Ignored
                }
            },
            Event::Extracted(r) => {
                if stage == Stage::Extracting {
                    match r {
                        Err(e) => self.finish_after_cleanup(Err(e)),
                        Ok(_) => {
                            let next_action = match (&self.params, &self.temps) {
                                (Some(p), Some(t)) => Some(
                                    Action::SeparateVocals {
                                        params: p.clone(),
                                        wav: t.extracted.clone(),
                                        output: t.vocals.clone(),
                                    },
                                ),
                                _ => None,
                            };
                            match next_action {
                                Some(a) => {
                                    self.stage = Stage::Separating;
                                    a
                                },
                                None => Action::Ignored,
                            }
                        },
                    }
                } else {
                    Action::Ignored
                }
            },
            Event::Separated(r) => {
                if stage == Stage::Separating {
                    match r {
                        Err(e) => self.finish_after_cleanup(Err(e)),
                        Ok(()) => {
                            let audio = match &self.temps {
                                Some(t) => Some(t.vocals.clone()),
                                None => None,
                            };
                            match audio {
                                Some(audio) => {
                                    let file_name = self.output_name();
                                    self.stage = Stage::Remuxing;
                                    Action::Remux {
                                        video: self.inputs.input_path.clone(),
                                        audio,
                                        dir: self.inputs.output_dir.clone(),
                                        file_name,
                                    }
                                },
                                None => Action::Ignored,
                            }
                        },
                    }
                } else {
                    Action::Ignored
                }
            },
            Event::Remuxed(r) => {
                if stage == Stage::Remuxing {
                    self.finish_after_cleanup(r)
                } else {
                    Action::Ignored
                }
            },
            Event::TempsRemoved => {
                if stage == Stage::CleaningUp {
                    match self.pending.take() {
                        Some(outcome) => self.finish(outcome),
                        None => Action::Ignored,
                    }
                } else {
                    Action::Ignored
                }
            },
        }
    }
}

/// The stages in which no temporary file has been chosen yet.
pub open spec fn before_temps(stage: Stage) -> bool {
    stage == Stage::Start || stage == Stage::CheckingModel || stage == Stage::CheckingInput
        || stage == Stage::LoadingModelData || stage == Stage::CreatingOutputDir || stage
        == Stage::Probing || stage == Stage::Copying || stage == Stage::AllocatingTemps
}

/// The stages in which the temporary files exist (or may).
pub open spec fn with_temps(stage: Stage) -> bool {
    stage == Stage::Extracting || stage == Stage::Separating || stage == Stage::Remuxing || stage
        == Stage::CleaningUp
}

/// The stages after the model's entry was found.
pub open spec fn with_model(stage: Stage) -> bool {
    stage == Stage::CreatingOutputDir || stage == Stage::Probing || stage == Stage::Copying
        || stage == Stage::AllocatingTemps || stage == Stage::Extracting || stage
        == Stage::Separating || stage == Stage::Remuxing
}

/// The invariant of a run: temporary files exactly in the stages that use
/// them, the model entry from the lookup on, and a held-back result exactly
/// while cleaning up.
pub open spec fn wf(s: PipelineModel) -> bool {
    &&& before_temps(s.stage) ==> s.temps is None
    &&& with_temps(s.stage) ==> s.temps is Some
    &&& with_model(s.stage) ==> s.params is Some
    &&& (s.stage == Stage::CleaningUp) <==> s.pending is Some
}

/// The states and actions of a run in state `s` that is given `events` in order.
pub open spec fn replay(s: PipelineModel, events: Seq<EventModel>) -> (PipelineModel, Seq<ActionModel>)
    decreases events.len(),
{
    if events.len() == 0 {
        (s, Seq::empty())
    } else {
        let (p, acts) = replay(s, events.drop_last());
        let (q, a) = next(p, events.last());
        (q, acts.push(a))
    }
}

/// A run starts in a state that satisfies the invariant.
pub proof fn lemma_start_wf(inputs: RunInputsModel)
    ensures
        wf(start(inputs)),
{
}

/// Every step keeps the invariant, never changes the inputs, and never
/// changes the temporary files once they are chosen.
pub proof fn lemma_step_keeps_wf(s: PipelineModel, e: EventModel)
    requires
        wf(s),
    ensures
        wf(next(s, e).0),
        next(s, e).0.inputs == s.inputs,
        s.temps is Some ==> next(s, e).0.temps == s.temps,
{
}

/// A finished run stays finished and ignores whatever it is told.
pub proof fn lemma_done_is_final(s: PipelineModel, e: EventModel)
    requires
        s.stage == Stage::Done,
    ensures
        next(s, e) == (s, ActionModel::Ignored),
{
}

/// A step that leaves the run cleaning up or finished while temporary files
/// exist either was already there, or is the step that asks for those
/// files' removal.
pub proof fn lemma_cleanup_step(s: PipelineModel, e: EventModel)
    requires
        wf(s),
        next(s, e).0.temps is Some,
        next(s, e).0.stage == Stage::CleaningUp || next(s, e).0.stage == Stage::Done,
    ensures
        ((s.stage == Stage::CleaningUp || s.stage == Stage::Done) && s.temps == next(s, e).0.temps)
            || next(s, e).1 == (ActionModel::RemoveTemps {
            extracted: next(s, e).0.temps.unwrap().0,
            vocals: next(s, e).0.temps.unwrap().1,
        }),
{
}

/// Temporary files are always removed: whatever the outside operations
/// report, a run that has finished after choosing its temporary files has
/// asked for exactly those files' removal.
pub proof fn lemma_temps_removed_before_finish(inputs: RunInputsModel, events: Seq<EventModel>)
    ensures
        wf(replay(start(inputs), events).0),
        ({
            let (last, acts) = replay(start(inputs), events);
            (last.stage == Stage::CleaningUp || last.stage == Stage::Done) && last.temps is Some
                ==> acts.contains(
                ActionModel::RemoveTemps { extracted: last.temps.unwrap().0, vocals: last.temps.unwrap().1 },
            )
        }),
    decreases events.len(),
{
    if events.len() > 0 {
        lemma_temps_removed_before_finish(inputs, events.drop_last());
        let (p, acts) = replay(start(inputs), events.drop_last());
        let (q, a) = next(p, events.last());
        lemma_step_keeps_wf(p, events.last());
        if (q.stage == Stage::CleaningUp || q.stage == Stage::Done) && q.temps is Some {
            lemma_cleanup_step(p, events.last());
            let r = ActionModel::RemoveTemps { extracted: q.temps.unwrap().0, vocals: q.temps.unwrap().1 };
            if a == r {
                assert(acts.push(a)[acts.len() as int] == r);
            } else {
                let j = choose|j: int| 0 <= j < acts.len() && acts[j] == r;
                assert(acts.push(a)[j] == r);
            }
        }
    } else {
        lemma_start_wf(inputs);
    }
}

/// The run keeps the registry entry of the configured model: once the
/// registry is read, the parameters kept are an entry of it that carries the
/// model's file name, the first such entry, and the run goes on to create
/// the output directory; when no entry carries that name, the run ends with
/// `ModelNotInRegistry(name)`.
pub proof fn lemma_registry_lookup(s: PipelineModel, name: Seq<char>, list: Seq<ModelParams>)
    requires
        s.stage == Stage::LoadingModelData,
        s.inputs.model_file_name == Some(name),
    ensures
        ({
            let (s1, a) = next(s, EventModel::ModelDataLoaded(Ok(list)));
            &&& (forall|j: int| 0 <= j < list.len() ==> #[trigger] list[j].name@ != name) ==> {
                &&& a == ActionModel::Finish(Err(AppErrorView::ModelNotInRegistry(name)))
                &&& s1.stage == Stage::Done
            }
            &&& (exists|j: int| 0 <= j < list.len() && #[trigger] list[j].name@ == name) ==> {
                &&& s1.params matches Some(p) && p.name@ == name && exists|i: int|
                    0 <= i < list.len() && list[i] == p && (forall|j: int|
                        0 <= j < i ==> #[trigger] list[j].name@ != name)
                &&& a == ActionModel::CreateOutputDir(s.inputs.output_dir)
                &&& s1.stage == Stage::CreatingOutputDir
            }
        }),
{
    lemma_first_named_is_first_match(list, name);
}

/// Whether an action creates or changes files.
pub open spec fn writes_files(a: ActionModel) -> bool {
    match a {
        ActionModel::CreateOutputDir(_) | ActionModel::CopyInput { .. } | ActionModel::ExtractAudio {
            ..
        } | ActionModel::SeparateVocals { .. } | ActionModel::Remux { .. } => true,
        _ => false,
    }
}

/// Nothing is written before validation is over: a run asks for an action
/// that creates or changes files only once the model file and the input
/// were found to exist and the model was found in the registry.
pub proof fn lemma_no_writes_before_validation(s: PipelineModel, e: EventModel)
    requires
        wf(s),
        writes_files(next(s, e).1),
    ensures
        next(s, e).0.params is Some,
        s.stage != Stage::Start && s.stage != Stage::CheckingModel && s.stage
            != Stage::CheckingInput,
{
}

/// A failure of extraction, separation or remuxing is reported as it is,
/// after the temporary files are removed.
pub proof fn lemma_failure_reported_after_cleanup(s: PipelineModel, err: AppErrorView)
    requires
        wf(s),
        s.stage == Stage::Extracting || s.stage == Stage::Separating || s.stage == Stage::Remuxing,
    ensures
        ({
            let e = if s.stage == Stage::Extracting {
                EventModel::Extracted(Err(err))
            } else if s.stage == Stage::Separating {
                EventModel::Separated(Err(err))
            } else {
                EventModel::Remuxed(Err(err))
            };
            let (s1, a1) = next(s, e);
            let (s2, a2) = next(s1, EventModel::TempsRemoved);
            &&& a1 == (ActionModel::RemoveTemps { extracted: s.temps.unwrap().0, vocals: s.temps.unwrap().1 })
            &&& a2 == ActionModel::Finish(Err(err))
            &&& s2.stage == Stage::Done
        }),
{
}

/// An input without an audio track is copied unchanged to
/// `{stem}_no_music.{extension}` in the output directory, no temporary file
/// is made, and the run succeeds once the copy does.
pub proof fn lemma_no_audio_copies_input(s: PipelineModel)
    requires
        wf(s),
        s.stage == Stage::Probing,
    ensures
        ({
            let (s1, a1) = next(s, EventModel::Probed(Ok(None)));
            let (s2, a2) = next(s1, EventModel::Copied(Ok(())));
            &&& a1 == (ActionModel::CopyInput {
                from: s.inputs.input_path,
                dir: s.inputs.output_dir,
                file_name: output_name(s.inputs.input_stem, s.inputs.input_extension),
            })
            &&& a2 == ActionModel::Finish(Ok(()))
            &&& s2.stage == Stage::Done
            &&& s2.temps is None
        }),
{
}

/// A successful remux writes the same file name that a copy would have, and
/// the run succeeds after the temporary files are removed.
pub proof fn lemma_success_after_remux(s: PipelineModel)
    requires
        wf(s),
        s.stage == Stage::Separating,
    ensures
        ({
            let (s1, a1) = next(s, EventModel::Separated(Ok(())));
            let (s2, a2) = next(s1, EventModel::Remuxed(Ok(())));
            let (s3, a3) = next(s2, EventModel::TempsRemoved);
            &&& a1 == (ActionModel::Remux {
                video: s.inputs.input_path,
                audio: s.temps.unwrap().1,
                dir: s.inputs.output_dir,
                file_name: output_name(s.inputs.input_stem, s.inputs.input_extension),
            })
            &&& a2 == (ActionModel::RemoveTemps { extracted: s.temps.unwrap().0, vocals: s.temps.unwrap().1 })
            &&& a3 == ActionModel::Finish(Ok(()))
        }),
{
}

} // verus!
