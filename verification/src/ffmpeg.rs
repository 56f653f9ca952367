//! The decisions around FFmpeg: which stream is the audio track, what the
//! extracted audio is, how resampled frames become 16-bit samples, the
//! command line that remuxes the video, and what each failure reports.
//! Opening files, decoding and spawning the `ffmpeg` program are the
//! caller's work; they hand over what FFmpeg reported.

use vstd::prelude::*;
use crate::error::{AppError, AppErrorView};
use crate::text::{decimal, decimal_string, signed_decimal, signed_decimal_string};

verus! {

/// Sample rate and channel count of an audio stream.
#[derive(Debug, Clone, Copy, PartialEq, Eq, Structural)]
pub struct AudioInfo {
    pub sample_rate: u32,
    pub channels: u16,
}

/// What the demuxer reports of one stream of the input: whether its medium
/// is audio, and the raw `sample_rate` and channel-count fields of its codec
/// parameters (C `int`s).
#[derive(Debug, Clone, Copy)]
pub struct StreamParams {
    pub is_audio: bool,
    pub sample_rate: i32,
    pub channels: i32,
}

/// The audio description read from a stream's codec parameters: the raw
/// fields converted with Rust's `as` (two's-complement truncation).
pub open spec fn audio_info_of(s: StreamParams) -> AudioInfo {
    AudioInfo { sample_rate: s.sample_rate as u32, channels: s.channels as u16 }
}

/// The first audio stream of `streams`, in stream order.
pub open spec fn first_audio(streams: Seq<StreamParams>) -> Option<AudioInfo>
    decreases streams.len(),
{
    if streams.len() == 0 {
        None
    } else if streams[0].is_audio {
        Some(audio_info_of(streams[0]))
    } else {
        first_audio(streams.drop_first())
    }
}

/// The description of a stream keeps the stream's own sample rate and
/// channel count, whatever they are.
pub proof fn lemma_audio_info_keeps_stream_fields(s: StreamParams)
    ensures
        audio_info_of(s).sample_rate == s.sample_rate as u32,
        audio_info_of(s).channels == s.channels as u16,
{
}

/// Which stream comes first among the audio streams: `first_audio` is
/// `None` exactly when no stream is audio; otherwise it describes the audio
/// stream of least index, with that stream's sample rate and channel count.
pub proof fn lemma_first_audio_is_first_audio_stream(streams: Seq<StreamParams>)
    ensures
        first_audio(streams) is None <==> (forall|j: int|
            0 <= j < streams.len() ==> !#[trigger] streams[j].is_audio),
        first_audio(streams) matches Some(info) ==> exists|i: int|
            0 <= i < streams.len() && streams[i].is_audio && (forall|j: int|
                0 <= j < i ==> !#[trigger] streams[j].is_audio) && info.sample_rate
                == streams[i].sample_rate as u32 && info.channels == streams[i].channels as u16,
    decreases streams.len(),
{
    if streams.len() > 0 {
        if streams[0].is_audio {
            lemma_audio_info_keeps_stream_fields(streams[0]);
            assert(forall|j: int| 0 <= j < 0 ==> !#[trigger] streams[j].is_audio);
        } else {
            let rest = streams.drop_first();
            lemma_first_audio_is_first_audio_stream(rest);
            if first_audio(rest) is Some {
                let info = first_audio(rest)->0;
                let i = choose|i: int|
                    0 <= i < rest.len() && rest[i].is_audio && (forall|j: int|
                        0 <= j < i ==> !#[trigger] rest[j].is_audio) && info.sample_rate
                        == rest[i].sample_rate as u32 && info.channels == rest[i].channels as u16;
                assert(streams[i + 1] == rest[i]);
                assert forall|j: int| 0 <= j < i + 1 implies !#[trigger] streams[j].is_audio by {
                    if j > 0 {
                        assert(streams[j] == rest[j - 1]);
                    }
                }
            } else {
                assert forall|j: int| 0 <= j < streams.len() implies !#[trigger] streams[j].is_audio by {
                    if j > 0 {
                        assert(streams[j] == rest[j - 1]);
                    }
                }
            }
        }
    }
}

fn info_of(s: &StreamParams) -> (info: AudioInfo)
    ensures
        info == audio_info_of(*s),
        info.sample_rate == s.sample_rate as u32,
        info.channels == s.channels as u16,
{
    AudioInfo { sample_rate: s.sample_rate as u32, channels: s.channels as u16 }
}

fn first_audio_of(streams: &Vec<StreamParams>) -> (res: Option<AudioInfo>)
    ensures
        res == first_audio(streams@),
        res is None <==> (forall|j: int| 0 <= j < streams@.len() ==> !#[trigger] streams@[j].is_audio),
        res matches Some(info) ==> exists|i: int|
            0 <= i < streams@.len() && streams@[i].is_audio && (forall|j: int|
                0 <= j < i ==> !#[trigger] streams@[j].is_audio) && info.sample_rate
                == streams@[i].sample_rate as u32 && info.channels == streams@[i].channels as u16,
{
    let mut i: usize = 0;
    assert(streams@.subrange(0, streams@.len() as int) =~= streams@);
    while i < streams.len()
        invariant
            i <= streams@.len(),
            first_audio(streams@) == first_audio(streams@.subrange(i as int, streams@.len() as int)),
        decreases streams@.len() - i,
    {
        assert(streams@.subrange(i as int, streams@.len() as int).drop_first()
            =~= streams@.subrange(i + 1, streams@.len() as int));
        if streams[i].is_audio {
            proof {
                lemma_first_audio_is_first_audio_stream(streams@);
            }
            return Some(info_of(&streams[i]));
        }
        i = i + 1;
    }
    proof {
        lemma_first_audio_is_first_audio_stream(streams@);
    }
    None
}

/// Probe result of an input: `opened` is what opening it gave, the list of
/// its streams or FFmpeg's error text. An open failure is `FfmpegProbe`;
/// otherwise the first audio stream's description, or `None` when the input
/// has no audio stream.
pub fn probe_audio(opened: Result<Vec<StreamParams>, String>) -> (res: Result<
    Option<AudioInfo>,
    AppError,
>)
    ensures
        match opened {
            Err(msg) => res matches Err(e) && e@ == AppErrorView::FfmpegProbe(msg@),
            Ok(streams) => res == Ok::<Option<AudioInfo>, AppError>(first_audio(streams@)),
        },
        opened matches Ok(streams) ==> (res matches Ok(found) && {
            &&& found is None <==> (forall|j: int|
                0 <= j < streams@.len() ==> !#[trigger] streams@[j].is_audio)
            &&& found matches Some(info) ==> exists|i: int|
                0 <= i < streams@.len() && streams@[i].is_audio && (forall|j: int|
                    0 <= j < i ==> !#[trigger] streams@[j].is_audio) && info.sample_rate
                    == streams@[i].sample_rate as u32 && info.channels
                    == streams@[i].channels as u16
        }),
{
    match opened {
        Err(msg) => Err(AppError::FfmpegProbe(msg)),
        Ok(streams) => Ok(first_audio_of(&streams)),
    }
}

/// Description of the audio that extraction writes, given what opening the
/// input gave: FFmpeg's error text, or the stream FFmpeg ranks best among
/// the audio streams (`None` when there is none). An open failure or a
/// missing audio stream is `FfmpegExtract`; otherwise the WAV keeps the
/// stream's sample rate and channel count.
pub fn extract_audio(best_audio_stream: Result<Option<StreamParams>, String>) -> (res: Result<
    AudioInfo,
    AppError,
>)
    ensures
        match best_audio_stream {
            Err(msg) => res matches Err(e) && e@ == AppErrorView::FfmpegExtract(msg@),
            Ok(None) => res matches Err(e) && e@ == AppErrorView::FfmpegExtract("no audio stream"@),
            Ok(Some(s)) => res == Ok::<AudioInfo, AppError>(audio_info_of(s)),
        },
        best_audio_stream matches Ok(Some(s)) ==> (res matches Ok(info) && info.sample_rate
            == s.sample_rate as u32 && info.channels == s.channels as u16),
{
    match best_audio_stream {
        Err(msg) => Err(AppError::FfmpegExtract(msg)),
        Ok(None) => Err(AppError::FfmpegExtract(String::from_str("no audio stream"))),
        Ok(Some(s)) => Ok(info_of(&s)),
    }
}

/// A signed 16-bit sample stored little-endian as the bytes `lo`, `hi`.
pub open spec fn le_i16(lo: u8, hi: u8) -> int {
    let u: int = lo as int + 256 * hi as int;
    if u >= 32768 {
        u - 65536
    } else {
        u
    }
}

/// The first `n` little-endian 16-bit samples of `bytes`.
pub open spec fn le_i16_samples(bytes: Seq<u8>, n: nat) -> Seq<i16> {
    Seq::new(n, |k: int| le_i16(bytes[2 * k], bytes[2 * k + 1]) as i16)
}

/// The complaint about a frame shorter than its sample count says.
pub open spec fn short_frame_message(got: nat, needed: nat) -> Seq<char> {
    "resampler returned "@ + decimal(got) + " bytes, expected at least "@ + decimal(needed)
}

/// A sample read from the bytes `lo`, `hi` is what `i16::from_le_bytes`
/// gives: it lies in the signed 16-bit range and differs from
/// `lo + 256 * hi` by a multiple of 65536, so it is that sum itself whenever
/// `hi` is below 128.
pub proof fn lemma_le_i16_is_from_le_bytes(lo: u8, hi: u8)
    ensures
        -32768 <= le_i16(lo, hi) <= 32767,
        (le_i16(lo, hi) - (lo + 256 * hi)) % 65536 == 0,
        hi < 128 ==> le_i16(lo, hi) == lo + 256 * hi,
{
}

fn sample_from_le(lo: u8, hi: u8) -> (s: i16)
    ensures
        s as int == le_i16(lo, hi),
        (s - (lo + 256 * hi)) % 65536 == 0,
        hi < 128 ==> s == lo + 256 * hi,
{
    proof {
        lemma_le_i16_is_from_le_bytes(lo, hi);
    }
    let u: u16 = (hi as u16) * 256 + (lo as u16);
    let s: i16 = u as i16;
    assert(s == (if u >= 32768 { u - 65536 } else { u as int })) by (bit_vector)
        requires
            s == u as i16,
    ;
    s
}

/// The samples of one resampled frame (packed signed 16-bit, little-endian):
/// `frame_samples` samples per channel, `channels` channels, so
/// `frame_samples * channels` samples in the first bytes of `bytes`. A frame
/// with fewer bytes than that is refused with `FfmpegExtract`.
pub fn decode_resampled(bytes: &[u8], frame_samples: usize, channels: u16) -> (res: Result<
    Vec<i16>,
    AppError,
>)
    requires
        2 * frame_samples * channels <= usize::MAX,
    ensures
        ({
            let n: nat = (frame_samples * channels) as nat;
            if bytes@.len() < 2 * n {
                res matches Err(e) && e@ == AppErrorView::FfmpegExtract(
                    short_frame_message(bytes@.len(), 2 * n),
                )
            } else {
                res matches Ok(v) && v@ == le_i16_samples(bytes@, n) && forall|k: int|
                    0 <= k < n ==> ((#[trigger] v@[k] - (bytes@[2 * k] + 256 * bytes@[2 * k + 1]))
                        % 65536 == 0 && (bytes@[2 * k + 1] < 128 ==> v@[k] == bytes@[2 * k] + 256
                        * bytes@[2 * k + 1]))
            }
        }),
{
    assert(2 * ((frame_samples as int) * (channels as int)) == 2 * frame_samples * channels)
        by (nonlinear_arith);
    let n: usize = frame_samples * (channels as usize);
    let needed: usize = n * 2;
    if bytes.len() < needed {
        let mut m = String::from_str("resampler returned ");
        let got_text = decimal_string(bytes.len() as u64);
        m.append(got_text.as_str());
        m.append(" bytes, expected at least ");
        let needed_text = decimal_string(needed as u64);
        m.append(needed_text.as_str());
        return Err(AppError::FfmpegExtract(m));
    }
    let mut out: Vec<i16> = Vec::new();
    let mut k: usize = 0;
    while k < n
        invariant
            n * 2 <= bytes@.len(),
            needed == n * 2,
            k <= n,
            out@ =~= le_i16_samples(bytes@, k as nat),
            forall|j: int|
                0 <= j < k ==> ((#[trigger] out@[j] - (bytes@[2 * j] + 256 * bytes@[2 * j + 1]))
                    % 65536 == 0 && (bytes@[2 * j + 1] < 128 ==> out@[j] == bytes@[2 * j] + 256
                    * bytes@[2 * j + 1])),
        decreases n - k,
    {
        let s: i16 = sample_from_le(bytes[2 * k], bytes[2 * k + 1]);
        out.push(s);
        k = k + 1;
    }
    Ok(out)
}

/// The `ffmpeg` command line (program first) that muxes the first video
/// stream of `video_path` with the first audio stream of `vocals_wav` into
/// `output_path`: the video is copied, the audio encoded to AAC at 192 kb/s,
/// and the output ends with the shorter input.
pub open spec fn remux_command_line(video: Seq<char>, audio: Seq<char>, output: Seq<char>) -> Seq<
    Seq<char>,
> {
    seq![
        "ffmpeg"@,
        "-y"@,
        "-hide_banner"@,
        "-loglevel"@,
        "error"@,
        "-i"@,
        video,
        "-i"@,
        audio,
        "-map"@,
        "0:v:0"@,
        "-map"@,
        "1:a:0"@,
        "-c:v"@,
        "copy"@,
        "-c:a"@,
        "aac"@,
        "-b:a"@,
        "192k"@,
        "-shortest"@,
        output,
    ]
}

fn push_arg(args: &mut Vec<String>, a: &str)
    ensures
        final(args)@.len() == old(args)@.len() + 1,
        forall|i: int| 0 <= i < old(args)@.len() ==> final(args)@[i] == old(args)@[i],
        final(args)@[old(args)@.len() as int]@ == a@,
{
    args.push(String::from_str(a));
}

/// The command line of [`remux_command_line`]: element 0 is the program.
pub fn remux_command(video_path: &str, vocals_wav: &str, output_path: &str) -> (cmd: Vec<String>)
    ensures
        cmd@.map_values(|s: String| s@) == remux_command_line(video_path@, vocals_wav@, output_path@),
{
    let mut cmd: Vec<String> = Vec::new();
    push_arg(&mut cmd, "ffmpeg");
    push_arg(&mut cmd, "-y");
    push_arg(&mut cmd, "-hide_banner");
    push_arg(&mut cmd, "-loglevel");
    push_arg(&mut cmd, "error");
    push_arg(&mut cmd, "-i");
    push_arg(&mut cmd, video_path);
    push_arg(&mut cmd, "-i");
    push_arg(&mut cmd, vocals_wav);
    push_arg(&mut cmd, "-map");
    push_arg(&mut cmd, "0:v:0");
    push_arg(&mut cmd, "-map");
    push_arg(&mut cmd, "1:a:0");
    push_arg(&mut cmd, "-c:v");
    push_arg(&mut cmd, "copy");
    push_arg(&mut cmd, "-c:a");
    push_arg(&mut cmd, "aac");
    push_arg(&mut cmd, "-b:a");
    push_arg(&mut cmd, "192k");
    push_arg(&mut cmd, "-shortest");
    push_arg(&mut cmd, output_path);
    assert(cmd@.map_values(|s: String| s@) =~= remux_command_line(
        video_path@,
        vocals_wav@,
        output_path@,
    ));
    cmd
}

/// What became of remuxing: FFmpeg's initialisation failed, the `ffmpeg`
/// program could not be started, or it ran and exited (`code` is `None`
/// when a signal ended it; `stderr` is its standard error as text, trimmed).
pub enum RemuxOutcome {
    InitFailed(String),
    SpawnFailed(String),
    Exited { success: bool, code: Option<i32>, stderr: String },
}

/// The exit code as the failure message shows it.
pub open spec fn exit_code_text(code: Option<i32>) -> Seq<char> {
    match code {
        Some(c) => signed_decimal(c as int),
        None => "<signal>"@,
    }
}

/// The result that a remux outcome gives.
pub open spec fn remux_result(
    init_failed: Option<Seq<char>>,
    spawn_failed: Option<Seq<char>>,
    success: bool,
    code: Option<i32>,
    stderr: Seq<char>,
) -> Result<(), AppErrorView> {
    if init_failed is Some {
        Err(AppErrorView::FfmpegRemux(init_failed->0))
    } else if spawn_failed is Some {
        Err(
            AppErrorView::FfmpegRemux(
                "could not spawn ffmpeg (is it on PATH?): "@ + spawn_failed->0,
            ),
        )
    } else if success {
        Ok(())
    } else {
        Err(
            AppErrorView::FfmpegRemux(
                "ffmpeg exited with code "@ + exit_code_text(code) + ": "@ + stderr,
            ),
        )
    }
}

/// The view of a remux outcome as the arguments of [`remux_result`].
pub open spec fn remux_outcome_result(o: RemuxOutcome) -> Result<(), AppErrorView> {
    match o {
        RemuxOutcome::InitFailed(e) => remux_result(Some(e@), None, false, None, Seq::empty()),
        RemuxOutcome::SpawnFailed(e) => remux_result(None, Some(e@), false, None, Seq::empty()),
        RemuxOutcome::Exited { success, code, stderr } => remux_result(
            None,
            None,
            success,
            code,
            stderr@,
        ),
    }
}

/// The result of remuxing the separated audio into the video, given what
/// running `ffmpeg` with [`remux_command`] came to: success only when the
/// program exited successfully; every failure is `FfmpegRemux`.
pub fn remux_with_audio(outcome: RemuxOutcome) -> (res: Result<(), AppError>)
    ensures
        match res {
            Ok(()) => remux_outcome_result(outcome) == Ok::<(), AppErrorView>(()),
            Err(e) => remux_outcome_result(outcome) == Err::<(), AppErrorView>(e@),
        },
{
    match outcome {
        RemuxOutcome::InitFailed(e) => Err(AppError::FfmpegRemux(e)),
        RemuxOutcome::SpawnFailed(e) => {
            let mut m = String::from_str("could not spawn ffmpeg (is it on PATH?): ");
            m.append(e.as_str());
            Err(AppError::FfmpegRemux(m))
        },
        RemuxOutcome::Exited { success, code, stderr } => {
            if success {
                Ok(())
            } else {
                let mut m = String::from_str("ffmpeg exited with code ");
                match code {
                    Some(c) => {
                        let t = signed_decimal_string(c as i64);
                        m.append(t.as_str());
                    },
                    None => {
                        m.append("<signal>");
                    },
                }
                m.append(": ");
                m.append(stderr.as_str());
                Err(AppError::FfmpegRemux(m))
            }
        },
    }
}

} // verus!
