//! The error taxonomy of the orchestration core.

use vstd::prelude::*;

verus! {

/// Why an upscale operation or a context construction failed.
#[derive(Clone, Copy, Debug, PartialEq, Eq, Structural)]
pub enum Waifu2xError {
    /// The device index is outside `[-1, deviceCount())`.
    InvalidDevice,
    /// The requested net scale factor is not a supported power of two.
    UnsupportedScale,
    /// A channel count outside 1..=4 reached reconstruction.
    UnsupportedChannelCount,
    /// The model weight or parameter assets could not be loaded.
    AssetLoadFailed,
    /// The engine reported a non-success status for an inference pass.
    EngineFailure,
}

impl Waifu2xError {
    /// A short human-readable description of the failure.
    pub fn message(&self) -> (r: &'static str)
        ensures
            r@.len() > 0,
    {
        let r = match self {
            Waifu2xError::InvalidDevice => "invalid gpu device",
            Waifu2xError::UnsupportedScale => "unexpected scale number",
            Waifu2xError::UnsupportedChannelCount => "unexpected channel",
            Waifu2xError::AssetLoadFailed => "model assets could not be loaded",
            Waifu2xError::EngineFailure => "inference pass failed",
        };
        proof {
            reveal_strlit("invalid gpu device");
            reveal_strlit("unexpected scale number");
            reveal_strlit("unexpected channel");
            reveal_strlit("model assets could not be loaded");
            reveal_strlit("inference pass failed");
        }
        r
    }
}

} // verus!
