//! The integer side of vocal separation: the model's dimensions, how the
//! audio is cut into overlapping chunks, where each value of the model's
//! input and output tensors lives, and the interleaving of the stereo
//! output. The arithmetic on samples (STFT, resampling, gains) is floating
//! point and is done by the caller; these functions move values only.

use vstd::prelude::*;
use vstd::arithmetic::power2::pow2;
use vstd::bits::{lemma_usize_pow2_no_overflow, lemma_usize_shl_is_mul};

verus! {

/// Hop length of the model's STFT, in samples.
pub const MODEL_HOP_LENGTH: usize = 1024;

/// Number of time frames the model takes: `2^mdx_dim_t_set` (the registry
/// stores the exponent).
pub fn model_time_frames(mdx_dim_t_set: usize) -> (n: usize)
    requires
        mdx_dim_t_set < usize::BITS,
    ensures
        n == pow2(mdx_dim_t_set as nat),
{
    proof {
        lemma_usize_pow2_no_overflow(mdx_dim_t_set as nat);
        lemma_usize_shl_is_mul(1, mdx_dim_t_set);
    }
    1usize << mdx_dim_t_set
}

/// Samples per inference chunk, fixed by the model: one hop per time frame
/// after the first, `1024 * (2^mdx_dim_t_set - 1)`.
pub fn model_chunk_size(mdx_dim_t_set: usize) -> (n: usize)
    requires
        mdx_dim_t_set < usize::BITS,
        MODEL_HOP_LENGTH * pow2(mdx_dim_t_set as nat) <= usize::MAX,
    ensures
        n == MODEL_HOP_LENGTH * (pow2(mdx_dim_t_set as nat) - 1),
{
    let frames: usize = model_time_frames(mdx_dim_t_set);
    proof {
        vstd::arithmetic::power2::lemma_pow2_pos(mdx_dim_t_set as nat);
    }
    assert(MODEL_HOP_LENGTH * (frames - 1) <= MODEL_HOP_LENGTH * frames) by (nonlinear_arith)
        requires
            frames >= 1,
    ;
    MODEL_HOP_LENGTH * (frames - 1)
}

/// Sample rate the model works at, in Hz.
pub const MODEL_SAMPLE_RATE: u32 = 44100;

/// How the audio is taken to the model and the separated stem brought back
/// to the input's format.
#[derive(Debug, Clone, Copy, PartialEq, Eq, Structural)]
pub struct StemFormat {
    /// Resample to [`MODEL_SAMPLE_RATE`] before inference, and back after.
    pub resample: bool,
    /// Write the mono stem to both channels (the input is stereo).
    pub duplicate_to_stereo: bool,
    /// Channels of the written WAV: those of the input.
    pub channels: u16,
    /// Sample rate of the written WAV: that of the input.
    pub sample_rate: u32,
    /// Bits per (floating-point) sample of the written WAV.
    pub bits_per_sample: u16,
}

/// The format decisions for an input WAV of this rate and channel count.
pub fn stem_format(input_rate: u32, input_channels: u16) -> (f: StemFormat)
    ensures
        f == (StemFormat {
            resample: input_rate != MODEL_SAMPLE_RATE,
            duplicate_to_stereo: input_channels == 2,
            channels: input_channels,
            sample_rate: input_rate,
            bits_per_sample: 32,
        }),
{
    StemFormat {
        resample: input_rate != MODEL_SAMPLE_RATE,
        duplicate_to_stereo: input_channels == 2,
        channels: input_channels,
        sample_rate: input_rate,
        bits_per_sample: 32,
    }
}

/// Distance between the starts of consecutive chunks: half a chunk.
pub open spec fn chunk_hop(chunk_size: nat) -> nat {
    chunk_size / 2
}

/// `starts` are the chunk starts of a signal of `len` samples cut in chunks
/// of `chunk_size`: a chunk every half chunk from sample 0, up to and
/// including the first chunk that reaches the end of the signal; no chunk
/// for an empty signal.
pub open spec fn are_chunk_starts(starts: Seq<usize>, len: nat, chunk_size: nat) -> bool {
    &&& forall|i: int| 0 <= i < starts.len() ==> #[trigger] starts[i] == i * chunk_hop(chunk_size)
    &&& (starts.len() == 0 <==> len == 0)
    &&& forall|i: int| 0 <= i < starts.len() - 1 ==> #[trigger] starts[i] + chunk_size < len
    &&& starts.len() > 0 ==> starts[starts.len() - 1] + chunk_size >= len
}

/// Where the chunks of a signal of `len` samples start, for chunks of
/// `chunk_size` samples overlapping by half (the last chunk is zero-padded
/// by the caller where it runs past the end). The same positions place the
/// processed chunks back when they are overlap-added.
pub fn chunk_starts(len: usize, chunk_size: usize) -> (starts: Vec<usize>)
    requires
        chunk_size >= 2,
        len + chunk_size <= usize::MAX,
    ensures
        are_chunk_starts(starts@, len as nat, chunk_size as nat),
{
    let hop: usize = chunk_size / 2;
    let mut starts: Vec<usize> = Vec::new();
    let mut start: usize = 0;
    assert(starts@.len() * hop == 0) by (nonlinear_arith)
        requires
            starts@.len() == 0,
    ;
    while start < len
        invariant_except_break
            hop == chunk_hop(chunk_size as nat),
            hop >= 1,
            len + chunk_size <= usize::MAX,
            start == starts@.len() * hop,
            forall|i: int| 0 <= i < starts@.len() ==> #[trigger] starts@[i] == i * hop,
            forall|i: int| 0 <= i < starts@.len() ==> #[trigger] starts@[i] + chunk_size < len,
            starts@.len() > 0 ==> start == starts@[starts@.len() - 1] + hop,
        ensures
            are_chunk_starts(starts@, len as nat, chunk_size as nat),
        decreases len - start,
    {
        starts.push(start);
        assert(starts@[starts@.len() - 1] == start);
        if start + chunk_size >= len {
            break;
        }
        start = start + hop;
        assert(start == starts@.len() * hop) by (nonlinear_arith)
            requires
                start == (starts@.len() - 1) * hop + hop,
        ;
    }
    starts
}

proof fn lemma_chunks_cover_from(starts: Seq<usize>, len: nat, chunk_size: nat, p: nat, k: int)
    requires
        chunk_size >= 2,
        are_chunk_starts(starts, len, chunk_size),
        p < len,
        0 <= k < starts.len(),
        starts[k] <= p,
    ensures
        exists|i: int| 0 <= i < starts.len() && #[trigger] starts[i] <= p < starts[i] + chunk_size,
    decreases starts.len() - k,
{
    let hop: nat = chunk_hop(chunk_size);
    if k < starts.len() - 1 && starts[k] + chunk_size <= p {
        assert(starts[k + 1] == (k + 1) * hop);
        assert(starts[k] == k * hop);
        assert((k + 1) * hop == k * hop + hop) by (nonlinear_arith);
        lemma_chunks_cover_from(starts, len, chunk_size, p, k + 1);
    } else {
        assert(starts[k] <= p < starts[k] + chunk_size);
    }
}

/// Every sample of the signal lies in some chunk, so the overlap-add weight
/// of every output sample is positive.
pub proof fn lemma_chunks_cover(starts: Seq<usize>, len: nat, chunk_size: nat, p: nat)
    requires
        chunk_size >= 2,
        are_chunk_starts(starts, len, chunk_size),
        p < len,
    ensures
        exists|i: int| 0 <= i < starts.len() && #[trigger] starts[i] <= p < starts[i] + chunk_size,
{
    assert(starts[0] == 0 * chunk_hop(chunk_size));
    lemma_chunks_cover_from(starts, len, chunk_size, p, 0);
}

/// `starts` are the frame positions of a centre-padded STFT: frames of
/// `fft_size` samples every `hop` samples from position 0 of the signal
/// padded with `fft_size / 2` zeros on each side, as many as fit.
pub open spec fn are_frame_starts(starts: Seq<usize>, signal_len: nat, fft_size: nat, hop: nat) -> bool {
    let padded: nat = signal_len + 2 * (fft_size / 2);
    &&& forall|i: int| 0 <= i < starts.len() ==> #[trigger] starts[i] == i * hop
    &&& forall|i: int| 0 <= i < starts.len() ==> #[trigger] starts[i] + fft_size <= padded
    &&& starts.len() * hop + fft_size > padded
}

/// Positions (in the padded signal) of the frames of the STFT of a signal
/// of `signal_len` samples: centre padding of `fft_size / 2` on each side,
/// a frame every `hop` samples while a whole frame fits.
pub fn stft_frame_starts(signal_len: usize, fft_size: usize, hop: usize) -> (starts: Vec<usize>)
    requires
        hop >= 1,
        signal_len + 2 * (fft_size / 2) + hop <= usize::MAX,
    ensures
        are_frame_starts(starts@, signal_len as nat, fft_size as nat, hop as nat),
{
    let pad: usize = fft_size / 2;
    let padded: usize = pad + signal_len + pad;
    let mut starts: Vec<usize> = Vec::new();
    let mut pos: usize = 0;
    assert(starts@.len() * hop == 0) by (nonlinear_arith)
        requires
            starts@.len() == 0,
    ;
    while fft_size <= padded && pos <= padded - fft_size
        invariant
            padded == signal_len + 2 * (fft_size / 2),
            padded + hop <= usize::MAX,
            hop >= 1,
            pos == starts@.len() * hop,
            pos <= padded + hop,
            forall|i: int| 0 <= i < starts@.len() ==> #[trigger] starts@[i] == i * hop,
            forall|i: int| 0 <= i < starts@.len() ==> #[trigger] starts@[i] + fft_size <= padded,
        decreases padded + hop - pos,
    {
        starts.push(pos);
        pos = pos + hop;
        assert(pos == starts@.len() * hop) by (nonlinear_arith)
            requires
                pos == (starts@.len() - 1) * hop + hop,
        ;
    }
    starts
}

proof fn lemma_count_between(n: int, m: int, hop: int)
    requires
        hop >= 1,
        n >= 0,
        m >= 0,
        (n - 1) * hop <= m * hop,
        m * hop < n * hop,
    ensures
        n == m + 1,
{
    if n > m + 1 {
        assert((m + 1) * hop <= (n - 1) * hop) by (nonlinear_arith)
            requires
                m + 1 <= n - 1,
                hop >= 1,
        ;
        assert((m + 1) * hop == m * hop + hop) by (nonlinear_arith);
    }
    if n < m + 1 {
        assert(n * hop <= m * hop) by (nonlinear_arith)
            requires
                n <= m,
                hop >= 1,
        ;
    }
}

/// One chunk fills the model exactly: the STFT (hop 1024, even FFT size) of
/// a chunk of [`model_chunk_size`] samples has exactly
/// [`model_time_frames`] frames.
pub proof fn lemma_chunk_stft_has_model_frames(
    starts: Seq<usize>,
    mdx_dim_t_set: nat,
    fft_size: nat,
)
    requires
        fft_size % 2 == 0,
        are_frame_starts(
            starts,
            (MODEL_HOP_LENGTH * (pow2(mdx_dim_t_set) - 1)) as nat,
            fft_size,
            MODEL_HOP_LENGTH as nat,
        ),
    ensures
        starts.len() == pow2(mdx_dim_t_set),
{
    vstd::arithmetic::power2::lemma_pow2_pos(mdx_dim_t_set);
    let hop: int = MODEL_HOP_LENGTH as int;
    let m: int = pow2(mdx_dim_t_set) - 1;
    let n: int = starts.len() as int;
    let len: int = hop * m;
    // the last frame fits: (n - 1) * hop + fft <= len + fft; one more would not
    if n > 0 {
        assert(starts[n - 1] == (n - 1) * hop);
    } else {
        assert((n - 1) * hop <= m * hop) by (nonlinear_arith)
            requires
                n == 0,
                m >= 0,
                hop >= 1,
        ;
    }
    assert(n * hop + fft_size > len + fft_size);
    assert(len == m * hop) by (nonlinear_arith)
        requires
            len == hop * m,
    ;
    lemma_count_between(n, m, hop);
}

/// The `length` samples of an overlap-add buffer that follow its `pad`
/// samples of centre padding; samples the buffer does not reach are `zero`.
/// The result always has exactly `length` samples.
pub fn remove_centre_padding<T: Copy>(buf: &[T], pad: usize, length: usize, zero: T) -> (out: Vec<T>)
    requires
        pad <= buf@.len(),
    ensures
        out@.len() == length,
        forall|i: int| 0 <= i < length ==> #[trigger] out@[i] == element_or(buf@, pad + i, zero),
{
    let mut out: Vec<T> = Vec::new();
    let mut i: usize = 0;
    while i < length
        invariant
            pad <= buf@.len(),
            i <= length,
            out@.len() == i,
            forall|j: int| 0 <= j < i ==> #[trigger] out@[j] == element_or(buf@, pad + j, zero),
        decreases length - i,
    {
        let v = if i < buf.len() - pad {
            buf[pad + i]
        } else {
            zero
        };
        out.push(v);
        i = i + 1;
    }
    out
}

/// `left` and `right` interleaved as stereo frames `[L0, R0, L1, R1, ...]`,
/// as long as the shorter channel.
pub fn interleave_stereo<T: Copy>(left: &[T], right: &[T]) -> (out: Vec<T>)
    ensures
        out@.len() == 2 * (if left@.len() <= right@.len() { left@.len() } else { right@.len() }),
        forall|i: int|
            0 <= i < out@.len() / 2 ==> out@[2 * i] == left@[i] && out@[2 * i + 1] == right@[i],
{
    let n: usize = if left.len() <= right.len() {
        left.len()
    } else {
        right.len()
    };
    let mut out: Vec<T> = Vec::new();
    let mut i: usize = 0;
    while i < n
        invariant
            n <= left@.len(),
            n <= right@.len(),
            i <= n,
            out@.len() == 2 * i,
            forall|j: int| 0 <= j < i ==> out@[2 * j] == left@[j] && out@[2 * j + 1] == right@[j],
        decreases n - i,
    {
        out.push(left[i]);
        out.push(right[i]);
        i = i + 1;
    }
    out
}

/// Part `part` (0: real, 1: imaginary) of STFT bin `f` of frame `t`, or
/// `zero` where the STFT has no such frame or bin.
pub open spec fn bin_part<T>(frames: Seq<Vec<[T; 2]>>, t: int, f: int, part: int, zero: T) -> T {
    if 0 <= t < frames.len() && 0 <= f < frames[t]@.len() {
        frames[t]@[f][part]
    } else {
        zero
    }
}

/// Position of channel `c`, frequency bin `f`, time frame `t` in a
/// row-major tensor of shape `[1, channels, n_bins, n_time]`.
pub open spec fn tensor_index(c: int, f: int, t: int, n_bins: int, n_time: int) -> int {
    (c * n_bins + f) * n_time + t
}

/// The element at `i` of `flat`, or `zero` past its end.
pub open spec fn element_or<T>(flat: Seq<T>, i: int, zero: T) -> T {
    if 0 <= i < flat.len() {
        flat[i]
    } else {
        zero
    }
}

proof fn lemma_row_order(c1: int, f1: int, c2: int, f2: int, n_bins: int)
    requires
        0 <= f1 < n_bins,
        0 <= f2,
        c1 < c2 || (c1 == c2 && f1 < f2),
    ensures
        c1 * n_bins + f1 < c2 * n_bins + f2,
{
    if c1 < c2 {
        assert(c1 * n_bins + n_bins <= c2 * n_bins) by (nonlinear_arith)
            requires
                c1 < c2,
                n_bins > 0,
        ;
    }
}

proof fn lemma_index_order(r1: int, t1: int, r2: int, t2: int, n_time: int)
    requires
        0 <= t1 < n_time,
        0 <= t2,
        r1 < r2 || (r1 == r2 && t1 < t2),
    ensures
        r1 * n_time + t1 < r2 * n_time + t2,
{
    if r1 < r2 {
        assert(r1 * n_time + n_time <= r2 * n_time) by (nonlinear_arith)
            requires
                r1 < r2,
                n_time > 0,
        ;
    }
}

/// Entries of `input` for channels below `c`, for channel `c` bins below
/// `f`, and for bin `f` of channel `c` frames below `t`, hold their values.
spec fn packed_before<T>(
    input: Seq<T>,
    frames: Seq<Vec<[T; 2]>>,
    n_bins: int,
    n_time: int,
    zero: T,
    c: int,
    f: int,
    t: int,
) -> bool {
    forall|c2: int, f2: int, t2: int|
        0 <= c2 < 4 && 0 <= f2 < n_bins && 0 <= t2 < n_time && (c2 < c || (c2 == c && f2 < f) || (
        c2 == c && f2 == f && t2 < t)) ==> #[trigger] input[tensor_index(c2, f2, t2, n_bins, n_time)]
            == bin_part(frames, t2, f2, c2 % 2, zero)
}

/// `input` is the model's input tensor `[1, 4, n_bins, n_time]` (row-major)
/// for the STFT `frames` of one chunk: channels 0 and 2 hold the real
/// parts, channels 1 and 3 the imaginary parts of the first `n_bins` bins of
/// the first `n_time` frames; positions without such a frame or bin hold
/// `zero`.
pub open spec fn is_model_input<T>(input: Seq<T>, frames: Seq<Vec<[T; 2]>>, n_bins: int, n_time: int, zero: T) -> bool {
    &&& input.len() == 4 * n_bins * n_time
    &&& forall|c: int, f: int, t: int|
        0 <= c < 4 && 0 <= f < n_bins && 0 <= t < n_time ==> #[trigger] input[tensor_index(
            c,
            f,
            t,
            n_bins,
            n_time,
        )] == bin_part(frames, t, f, c % 2, zero)
}

/// `frames` are the `n_time` one-sided STFT frames of `n_bins_full` bins
/// read back from the model's output tensor `flat` `[1, 2, n_bins, n_time]`
/// (row-major, channel 0 real, channel 1 imaginary): the first `n_bins` bins
/// come from the tensor (`zero` past its end), the higher bins are `zero`.
pub open spec fn is_output_frames<T>(
    frames: Seq<Vec<[T; 2]>>,
    flat: Seq<T>,
    n_bins: int,
    n_time: int,
    n_bins_full: int,
    zero: T,
) -> bool {
    &&& frames.len() == n_time
    &&& forall|t: int| 0 <= t < n_time ==> #[trigger] frames[t]@.len() == n_bins_full
    &&& forall|t: int, f: int|
        0 <= t < n_time && 0 <= f < n_bins_full ==> {
            &&& #[trigger] frames[t]@[f][0] == (if f < n_bins {
                element_or(flat, tensor_index(0, f, t, n_bins, n_time), zero)
            } else {
                zero
            })
            &&& frames[t]@[f][1] == (if f < n_bins {
                element_or(flat, tensor_index(1, f, t, n_bins, n_time), zero)
            } else {
                zero
            })
        }
}

/// Bin `f` of frame `t` of `out` is bin `f` of frame `t` of `frames` below
/// `n_bins`, and zero from there on.
pub open spec fn reads_back<T>(out: Seq<Vec<[T; 2]>>, frames: Seq<Vec<[T; 2]>>, t: int, f: int, n_bins: nat, zero: T) -> bool {
    &&& out[t]@[f][0] == (if f < n_bins {
        bin_part(frames, t, f, 0, zero)
    } else {
        zero
    })
    &&& out[t]@[f][1] == (if f < n_bins {
        bin_part(frames, t, f, 1, zero)
    } else {
        zero
    })
}

/// The output tensor is read with the layout the input tensor is written
/// with: if the model handed back its first two input channels unchanged,
/// reading its output would give back the first `n_bins` bins of the first
/// `n_time` STFT frames of the chunk (zero above `n_bins`).
pub proof fn lemma_layouts_agree<T>(
    frames: Seq<Vec<[T; 2]>>,
    input: Seq<T>,
    out: Seq<Vec<[T; 2]>>,
    n_bins: nat,
    n_time: nat,
    n_bins_full: nat,
    zero: T,
)
    requires
        is_model_input(input, frames, n_bins as int, n_time as int, zero),
        is_output_frames(out, input, n_bins as int, n_time as int, n_bins_full as int, zero),
    ensures
        forall|t: int, f: int|
            0 <= t < n_time && 0 <= f < n_bins_full ==> #[trigger] reads_back(out, frames, t, f, n_bins, zero),
{
    let nb: int = n_bins as int;
    let nt: int = n_time as int;
    assert forall|t: int, f: int| 0 <= t < n_time && 0 <= f < n_bins_full implies #[trigger] reads_back(out, frames, t, f, n_bins, zero) by {
        assert(out[t]@[f][0] == (if f < n_bins {
            element_or(input, tensor_index(0, f, t, nb, nt), zero)
        } else {
            zero
        }));
        assert(out[t]@[f][1] == (if f < n_bins {
            element_or(input, tensor_index(1, f, t, nb, nt), zero)
        } else {
            zero
        }));
        if f < n_bins {
            assert forall|c: int| 0 <= c < 2 implies 0 <= #[trigger] tensor_index(c, f, t, nb, nt)
                < input.len() by {
                lemma_row_order(c, f, 4, 0, nb);
                lemma_index_order(c * nb + f, t, 4 * nb, 0, nt);
                assert(0 <= c * nb + f) by (nonlinear_arith)
                    requires
                        0 <= c,
                        0 <= f,
                        0 <= nb,
                ;
                assert(0 <= (c * nb + f) * nt) by (nonlinear_arith)
                    requires
                        0 <= c * nb + f,
                        0 <= nt,
                ;
                assert((4 * nb) * nt == 4 * nb * nt) by (nonlinear_arith);
            }
            assert(0 <= tensor_index(0, f, t, nb, nt) < input.len());
            assert(0 <= tensor_index(1, f, t, nb, nt) < input.len());
            assert(input[tensor_index(0, f, t, nb, nt)] == bin_part(frames, t, f, 0int % 2, zero));
            assert(input[tensor_index(1, f, t, nb, nt)] == bin_part(frames, t, f, 1int % 2, zero));
        }
    }
}

/// The model's input tensor `[1, 4, n_bins, n_time]` (row-major) for one
/// chunk's STFT `frames`: channels 0 and 2 hold the real parts, channels 1
/// and 3 the imaginary parts of the first `n_bins` bins of the first
/// `n_time` frames; positions without such a frame or bin hold `zero`.
pub fn pack_model_input<T: Copy>(frames: &Vec<Vec<[T; 2]>>, n_bins: usize, n_time: usize, zero: T) -> (input: Vec<T>)
    requires
        4 * n_bins * n_time <= usize::MAX,
    ensures
        is_model_input(input@, frames@, n_bins as int, n_time as int, zero),
{
    let ghost nb = n_bins as int;
    let ghost nt = n_time as int;
    let mut input: Vec<T> = Vec::new();
    let mut c: usize = 0;
    assert(0 * nb * nt == 0) by (nonlinear_arith);
    while c < 4
        invariant
            nb == n_bins,
            nt == n_time,
            c <= 4,
            input@.len() == c * nb * nt,
            packed_before(input@, frames@, nb, nt, zero, c as int, 0, 0),
        decreases 4 - c,
    {
        let mut f: usize = 0;
        assert((c * nb + 0) * nt == c * nb * nt) by (nonlinear_arith);
        while f < n_bins
            invariant
                nb == n_bins,
                nt == n_time,
                c < 4,
                f <= n_bins,
                input@.len() == (c * nb + f) * nt,
                packed_before(input@, frames@, nb, nt, zero, c as int, f as int, 0),
            decreases n_bins - f,
        {
            let mut t: usize = 0;
            while t < n_time
                invariant
                    nb == n_bins,
                    nt == n_time,
                    c < 4,
                    f < n_bins,
                    t <= n_time,
                    input@.len() == (c * nb + f) * nt + t,
                    packed_before(input@, frames@, nb, nt, zero, c as int, f as int, t as int),
                decreases n_time - t,
            {
                let v = if t < frames.len() && f < frames[t].len() {
                    frames[t][f][c % 2]
                } else {
                    zero
                };
                let ghost before = input@;
                input.push(v);
                proof {
                    assert forall|c2: int, f2: int, t2: int|
                        0 <= c2 < 4 && 0 <= f2 < nb && 0 <= t2 < nt && (c2 < c || (c2 == c && f2
                            < f) || (c2 == c && f2 == f && t2 < t + 1)) implies #[trigger] input@[tensor_index(
                        c2,
                        f2,
                        t2,
                        nb,
                        nt,
                    )] == bin_part(frames@, t2, f2, c2 % 2, zero) by {
                        if c2 == c && f2 == f && t2 == t {
                            assert(tensor_index(c2, f2, t2, nb, nt) == before.len());
                        } else {
                            if !(c2 == c && f2 == f) {
                                lemma_row_order(c2, f2, c as int, f as int, nb);
                            }
                            lemma_index_order(c2 * nb + f2, t2, c * nb + f, t as int, nt);
                            assert(before[tensor_index(c2, f2, t2, nb, nt)] == bin_part(
                                frames@,
                                t2,
                                f2,
                                c2 % 2,
                                zero,
                            ));
                        }
                    }
                }
                t = t + 1;
            }
            assert((c * nb + f) * nt + nt == (c * nb + (f + 1)) * nt) by (nonlinear_arith);
            f = f + 1;
        }
        assert((c * nb + nb) * nt == (c + 1) * nb * nt) by (nonlinear_arith);
        c = c + 1;
    }
    input
}

/// Bin `f` of frame `t` read back from the model's output tensor.
fn output_bin<T: Copy>(
    flat: &[T],
    n_bins: usize,
    n_time: usize,
    plane: usize,
    f: usize,
    t: usize,
    zero: T,
) -> (cell: [T; 2])
    requires
        plane == n_bins * n_time,
        2 * plane <= usize::MAX,
        t < n_time,
    ensures
        cell[0] == (if f < n_bins {
            element_or(flat@, tensor_index(0, f as int, t as int, n_bins as int, n_time as int), zero)
        } else {
            zero
        }),
        cell[1] == (if f < n_bins {
            element_or(flat@, tensor_index(1, f as int, t as int, n_bins as int, n_time as int), zero)
        } else {
            zero
        }),
{
    if f < n_bins {
        assert(f * n_time + t < n_bins * n_time) by (nonlinear_arith)
            requires
                f < n_bins,
                t < n_time,
        ;
        let re_at: usize = f * n_time + t;
        let im_at: usize = plane + re_at;
        assert(re_at == tensor_index(0, f as int, t as int, n_bins as int, n_time as int))
            by (nonlinear_arith)
            requires
                re_at == f * n_time + t,
        ;
        assert(im_at == tensor_index(1, f as int, t as int, n_bins as int, n_time as int))
            by (nonlinear_arith)
            requires
                im_at == n_bins * n_time + f * n_time + t,
        ;
        let re = if re_at < flat.len() {
            flat[re_at]
        } else {
            zero
        };
        let im = if im_at < flat.len() {
            flat[im_at]
        } else {
            zero
        };
        [re, im]
    } else {
        [zero, zero]
    }
}

/// The one-sided STFT frames (`n_time` frames of `n_bins_full` bins) rebuilt
/// from the model's output tensor `[1, 2, n_bins, n_time]` (row-major,
/// channel 0 real, channel 1 imaginary): the first `n_bins` bins come from
/// the tensor (`zero` past its end), the higher bins are `zero`.
pub fn unpack_model_output<T: Copy>(
    flat: &[T],
    n_bins: usize,
    n_time: usize,
    n_bins_full: usize,
    zero: T,
) -> (frames: Vec<Vec<[T; 2]>>)
    requires
        n_bins <= n_bins_full,
        2 * n_bins * n_time <= usize::MAX,
    ensures
        is_output_frames(frames@, flat@, n_bins as int, n_time as int, n_bins_full as int, zero),
{
    let ghost nb = n_bins as int;
    let ghost nt = n_time as int;
    assert(n_bins * n_time <= 2 * n_bins * n_time) by (nonlinear_arith);
    let plane: usize = n_bins * n_time;
    assert(2 * plane <= usize::MAX) by (nonlinear_arith)
        requires
            plane == n_bins * n_time,
            2 * n_bins * n_time <= usize::MAX,
    ;
    let mut frames: Vec<Vec<[T; 2]>> = Vec::new();
    let mut t: usize = 0;
    while t < n_time
        invariant
            nb == n_bins,
            nt == n_time,
            plane == nb * nt,
            2 * plane <= usize::MAX,
            n_bins <= n_bins_full,
            t <= n_time,
            frames@.len() == t,
            forall|t2: int| 0 <= t2 < t ==> #[trigger] frames@[t2]@.len() == n_bins_full,
            forall|t2: int, f: int|
                0 <= t2 < t && 0 <= f < n_bins_full ==> {
                    &&& #[trigger] frames@[t2]@[f][0] == (if f < n_bins {
                        element_or(flat@, tensor_index(0, f, t2, nb, nt), zero)
                    } else {
                        zero
                    })
                    &&& frames@[t2]@[f][1] == (if f < n_bins {
                        element_or(flat@, tensor_index(1, f, t2, nb, nt), zero)
                    } else {
                        zero
                    })
                },
        decreases n_time - t,
    {
        let mut row: Vec<[T; 2]> = Vec::new();
        let mut f: usize = 0;
        while f < n_bins_full
            invariant
                nb == n_bins,
                nt == n_time,
                plane == nb * nt,
                2 * plane <= usize::MAX,
                t < n_time,
                f <= n_bins_full,
                row@.len() == f,
                forall|f2: int|
                    0 <= f2 < f ==> {
                        &&& #[trigger] row@[f2][0] == (if f2 < n_bins {
                            element_or(flat@, tensor_index(0, f2, t as int, nb, nt), zero)
                        } else {
                            zero
                        })
                        &&& row@[f2][1] == (if f2 < n_bins {
                            element_or(flat@, tensor_index(1, f2, t as int, nb, nt), zero)
                        } else {
                            zero
                        })
                    },
            decreases n_bins_full - f,
        {
            let cell = output_bin(flat, n_bins, n_time, plane, f, t, zero);
            let ghost before = row@;
            row.push(cell);
            proof {
                assert forall|f2: int| 0 <= f2 < f + 1 implies {
                    &&& #[trigger] row@[f2][0] == (if f2 < n_bins {
                        element_or(flat@, tensor_index(0, f2, t as int, nb, nt), zero)
                    } else {
                        zero
                    })
                    &&& row@[f2][1] == (if f2 < n_bins {
                        element_or(flat@, tensor_index(1, f2, t as int, nb, nt), zero)
                    } else {
                        zero
                    })
                } by {
                    if f2 < f {
                        assert(row@[f2] == before[f2]);
                    }
                }
            }
            f = f + 1;
        }
        let ghost done = frames@;
        frames.push(row);
        proof {
            assert(frames@[t as int] == row);
            assert forall|t2: int, f2: int|
                0 <= t2 < t + 1 && 0 <= f2 < n_bins_full implies {
                    &&& #[trigger] frames@[t2]@[f2][0] == (if f2 < n_bins {
                        element_or(flat@, tensor_index(0, f2, t2, nb, nt), zero)
                    } else {
                        zero
                    })
                    &&& frames@[t2]@[f2][1] == (if f2 < n_bins {
                        element_or(flat@, tensor_index(1, f2, t2, nb, nt), zero)
                    } else {
                        zero
                    })
                } by {
                if t2 < t {
                    assert(frames@[t2] == done[t2]);
                } else {
                    assert(row@[f2][0] == frames@[t2]@[f2][0]);
                }
            }
        }
        t = t + 1;
    }
    frames
}

} // verus!
