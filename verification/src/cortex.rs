//! The inference engine's stand-in for targets on which the runtime is not available.

use vstd::prelude::*;
use vstd::string::StringExecFns;

verus! {

/// Where the model is loaded from and how many features it takes.
#[derive(Debug, PartialEq, Eq)]
pub struct CortexConfig {
    pub model_path: String,
    pub input_width: usize,
}

/// Why the inference engine cannot be used.
#[derive(Clone, Copy, Debug, PartialEq, Eq, Structural)]
pub enum CortexError {
    /// The engine cannot be built on this target.
    Unavailable,
}

/// The message of an engine error.
pub open spec fn cortex_error_text(e: CortexError) -> Seq<char> {
    match e {
        CortexError::Unavailable => "tesser-cortex is unavailable on musl targets; build with glibc or disable Cortex-based strategies"@,
    }
}

impl CortexError {
    /// The message of the error.
    pub fn message(&self) -> (r: String)
        ensures
            r@ == cortex_error_text(*self),
    {
        match self {
            CortexError::Unavailable => String::from_str(
                "tesser-cortex is unavailable on musl targets; build with glibc or disable Cortex-based strategies",
            ),
        }
    }
}

/// Placeholder engine for targets without an inference runtime.
#[derive(Debug)]
pub struct CortexEngine;

impl CortexEngine {
    /// Always fails: there is no runtime to build the engine on.
    pub fn new(config: CortexConfig) -> (r: Result<CortexEngine, CortexError>)
        ensures
            r == Err::<CortexEngine, CortexError>(CortexError::Unavailable),
    {
        Err(CortexError::Unavailable)
    }
}

} // verus!
