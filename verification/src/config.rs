//! The configuration the tool runs with (read from `config.json` by the
//! command line front end).

use vstd::prelude::*;

verus! {

/// Where inference runs.
#[derive(Debug, Clone, Copy, PartialEq, Eq, Structural)]
pub enum ExecutionProvider {
    Cpu,
    Cuda,
}

/// The run configuration. Paths are held as their text.
#[derive(Debug)]
pub struct Config {
    pub model_path: String,
    pub output_dir: String,
    pub execution_provider: ExecutionProvider,
    /// Optional ORT/CUDA tuning. Any field left `None` keeps the ORT default.
    pub tuning: Tuning,
}

/// Session-level tuning knobs. `None` keeps ONNX Runtime's own default. The
/// nested `cuda` block only applies to the CUDA execution provider.
#[derive(Debug)]
pub struct Tuning {
    /// Threads used to parallelise execution within a single op.
    pub intra_threads: Option<usize>,
    /// Threads used for executing independent ops concurrently.
    pub inter_threads: Option<usize>,
    /// Enable parallel-op execution mode.
    pub parallel_execution: Option<bool>,
    /// Toggle predictive memory-pattern optimisation.
    pub memory_pattern: Option<bool>,
    pub cuda: CudaTuning,
}

/// Tuning of the CUDA execution provider.
#[derive(Debug)]
pub struct CudaTuning {
    /// CUDA device index.
    pub device_id: Option<i32>,
    /// Cap of the CUDA memory arena, in MiB.
    pub gpu_mem_limit_mb: Option<usize>,
    /// How the CUDA arena grows when more memory is needed.
    pub arena_extend_strategy: Option<ArenaExtendStrategyOpt>,
    /// cuDNN convolution algorithm search mode.
    pub cudnn_conv_algo_search: Option<ConvAlgorithmSearchOpt>,
    /// Allow exhaustive cuDNN search to use unbounded workspace.
    pub cudnn_conv_use_max_workspace: Option<bool>,
    /// Enable TensorFloat-32 on Ampere+ Tensor cores.
    pub tf32: Option<bool>,
    /// Prefer NHWC layout for ops that support it.
    pub prefer_nhwc: Option<bool>,
}

/// How the CUDA arena grows.
#[derive(Debug, Clone, Copy, PartialEq, Eq, Structural)]
pub enum ArenaExtendStrategyOpt {
    NextPowerOfTwo,
    SameAsRequested,
}

/// cuDNN convolution algorithm search mode.
#[derive(Debug, Clone, Copy, PartialEq, Eq, Structural)]
pub enum ConvAlgorithmSearchOpt {
    Exhaustive,
    Heuristic,
    Default,
}

impl Default for CudaTuning {
    /// Every CUDA knob left at the runtime's default.
    fn default() -> (t: Self)
        ensures
            t.device_id is None,
            t.gpu_mem_limit_mb is None,
            t.arena_extend_strategy is None,
            t.cudnn_conv_algo_search is None,
            t.cudnn_conv_use_max_workspace is None,
            t.tf32 is None,
            t.prefer_nhwc is None,
    {
        CudaTuning {
            device_id: None,
            gpu_mem_limit_mb: None,
            arena_extend_strategy: None,
            cudnn_conv_algo_search: None,
            cudnn_conv_use_max_workspace: None,
            tf32: None,
            prefer_nhwc: None,
        }
    }
}

impl Default for Tuning {
    /// Every knob left at the runtime's default (an omitted `tuning` block).
    fn default() -> (t: Self)
        ensures
            t.intra_threads is None,
            t.inter_threads is None,
            t.parallel_execution is None,
            t.memory_pattern is None,
            t.cuda.device_id is None,
            t.cuda.gpu_mem_limit_mb is None,
            t.cuda.arena_extend_strategy is None,
            t.cuda.cudnn_conv_algo_search is None,
            t.cuda.cudnn_conv_use_max_workspace is None,
            t.cuda.tf32 is None,
            t.cuda.prefer_nhwc is None,
    {
        Tuning {
            intra_threads: None,
            inter_threads: None,
            parallel_execution: None,
            memory_pattern: None,
            cuda: CudaTuning::default(),
        }
    }
}

} // verus!
