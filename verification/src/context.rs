//! Inference-context construction: validation, parameter derivation, and
//! the process-wide device-subsystem lifecycle.
//!
//! The engine binds one context to a device index, thread count, tile size
//! and pre-padding, all fixed at construction. Construction must first
//! initialize the process-wide device subsystem and must wind it back if
//! validation fails, so that a failed construction leaves the subsystem
//! exactly as it found it.

use vstd::prelude::*;

use crate::errors::Waifu2xError;
use crate::params::ModelType;
use crate::params::model_paths;
use crate::params::prepadding;
use crate::params::resolve_tile_size;
use crate::params::spec_model_path;
use crate::params::spec_param_path;
use crate::params::spec_prepadding;
use crate::params::spec_resolved_tile_size;
use crate::scaler::valid_scale;

verus! {

/// A device index is either -1 (CPU-only mode) or the index of one of the
/// available accelerator devices.
pub open spec fn valid_device(index: int, count: int) -> bool {
    -1 <= index < count
}

/// The immutable settings one inference context is constructed with,
/// derived once and never changed afterwards.
pub struct Config {
    pub device_index: i32,
    pub noise: i32,
    pub scale: u32,
    pub model: ModelType,
    pub tile_size: u32,
    pub prepadding: u32,
    pub tta_mode: bool,
    pub num_threads: i32,
    pub model_path: String,
    pub param_path: String,
}

impl Config {
    /// The derived fields agree with the derivation rules for the chosen
    /// fields, and the chosen fields are valid.
    pub open spec fn wf(self, models_path: Seq<char>) -> bool {
        &&& valid_scale(self.scale as int)
        &&& self.prepadding == spec_prepadding(self.model, self.noise as int, self.scale as int)
        &&& self.model_path@ == spec_model_path(
            models_path,
            self.model,
            self.noise as int,
            self.scale as int,
        )
        &&& self.param_path@ == spec_param_path(
            models_path,
            self.model,
            self.noise as int,
            self.scale as int,
        )
    }
}

/// Model of the process-wide accelerator subsystem: a reference count of
/// live inference contexts. The real subsystem is initialized when the
/// count leaves zero and torn down when it returns to zero.
pub struct DeviceSubsystem {
    pub live_contexts: u32,
}

impl DeviceSubsystem {
    /// The subsystem holds process-wide driver state exactly while at
    /// least one context is live.
    pub open spec fn initialized(self) -> bool {
        self.live_contexts > 0
    }

    pub fn new() -> (s: Self)
        ensures
            s.live_contexts == 0,
            !s.initialized(),
    {
        DeviceSubsystem { live_contexts: 0 }
    }

    /// One more context now holds the subsystem.
    pub fn acquire(&mut self)
        requires
            old(self).live_contexts < u32::MAX,
        ensures
            final(self).live_contexts == old(self).live_contexts + 1,
            final(self).initialized(),
    {
        self.live_contexts = self.live_contexts + 1;
    }

    /// One context released the subsystem; the last release tears the
    /// process-wide state down.
    pub fn release(&mut self)
        requires
            old(self).live_contexts > 0,
        ensures
            final(self).live_contexts == old(self).live_contexts - 1,
    {
        self.live_contexts = self.live_contexts - 1;
    }
}

/// Lifecycle of one engine context handle: constructed, then loaded with
/// model weights exactly once, then torn down exactly once; inference
/// passes may run only between load and teardown.
#[derive(Clone, Copy, Debug, PartialEq, Eq, Structural)]
pub enum ContextPhase {
    Constructed,
    Loaded,
    TornDown,
}

/// Tracks one context handle's lifecycle, so that the ordering rules of
/// the engine boundary — load exactly once after construction and before
/// any inference pass, teardown exactly once, nothing after teardown —
/// hold by construction for any caller that threads this state through
/// its foreign calls.
pub struct ContextLifecycle {
    pub phase: ContextPhase,
}

impl ContextLifecycle {
    /// A freshly constructed handle: not yet loaded, not yet usable for
    /// inference.
    pub fn new() -> (s: Self)
        ensures
            s.phase == ContextPhase::Constructed,
    {
        ContextLifecycle { phase: ContextPhase::Constructed }
    }

    /// Inference passes are allowed exactly while the handle is loaded.
    pub open spec fn can_process(self) -> bool {
        self.phase == ContextPhase::Loaded
    }

    /// Records the one load call: only a freshly constructed handle can be
    /// loaded, so a second load is impossible.
    pub fn mark_loaded(&mut self)
        requires
            old(self).phase == ContextPhase::Constructed,
        ensures
            final(self).phase == ContextPhase::Loaded,
            final(self).can_process(),
    {
        self.phase = ContextPhase::Loaded;
    }

    /// Records the one teardown call: possible from any live state, never
    /// twice, and the handle is unusable afterwards.
    pub fn mark_torn_down(&mut self)
        requires
            old(self).phase != ContextPhase::TornDown,
        ensures
            final(self).phase == ContextPhase::TornDown,
            !final(self).can_process(),
    {
        self.phase = ContextPhase::TornDown;
    }
}

/// Derives the full construction configuration. The device index is
/// validated against the queried device count and the scale factor against
/// the supported powers of two; on success every derived field is pinned
/// by the derivation rules. `budget` is the queried memory budget of the
/// selected device; it is read only when the tile size is auto-selected
/// for a real device.
pub fn derive_config(
    model: ModelType,
    noise: i32,
    scale: u32,
    tile_size: u32,
    device_index: i32,
    device_count: i32,
    budget: u32,
    tta_mode: bool,
    num_threads: i32,
    models_path: &str,
) -> (r: Result<Config, Waifu2xError>)
    ensures
        (r is Ok) <==> (valid_device(device_index as int, device_count as int) && valid_scale(
            scale as int,
        )),
        !valid_device(device_index as int, device_count as int) ==> r == Result::<
            Config,
            Waifu2xError,
        >::Err(Waifu2xError::InvalidDevice),
        (valid_device(device_index as int, device_count as int) && !valid_scale(scale as int))
            ==> r == Result::<Config, Waifu2xError>::Err(Waifu2xError::UnsupportedScale),
        r is Ok ==> {
            let cfg = r.unwrap();
            &&& cfg.device_index == device_index
            &&& cfg.noise == noise
            &&& cfg.scale == scale
            &&& cfg.model == model
            &&& cfg.tta_mode == tta_mode
            &&& cfg.num_threads == num_threads
            &&& cfg.tile_size == spec_resolved_tile_size(
                tile_size as int,
                device_index as int,
                model,
                budget as int,
            )
            &&& cfg.wf(models_path@)
        },
{
    if device_index < -1 || device_index >= device_count {
        return Err(Waifu2xError::InvalidDevice);
    }
    if !(scale == 1 || scale == 2 || scale == 4 || scale == 8 || scale == 16 || scale == 32) {
        return Err(Waifu2xError::UnsupportedScale);
    }
    let pre = prepadding(model, noise, scale);
    let tile = resolve_tile_size(tile_size, device_index, model, budget);
    let (model_path, param_path) = model_paths(models_path, model, noise, scale);
    Ok(
        Config {
            device_index,
            noise,
            scale,
            model,
            tile_size: tile,
            prepadding: pre,
            tta_mode,
            num_threads,
            model_path,
            param_path,
        },
    )
}

/// One construction attempt against the process-wide subsystem: the
/// subsystem is acquired first (the engine initializes it before the
/// device count can be queried), and a failed validation winds it back, so
/// a failed construction leaves the subsystem exactly as it was before the
/// call.
pub fn try_construct(
    subsystem: &mut DeviceSubsystem,
    model: ModelType,
    noise: i32,
    scale: u32,
    tile_size: u32,
    device_index: i32,
    device_count: i32,
    budget: u32,
    tta_mode: bool,
    num_threads: i32,
    models_path: &str,
) -> (r: Result<Config, Waifu2xError>)
    requires
        old(subsystem).live_contexts < u32::MAX,
    ensures
        (r is Ok) <==> (valid_device(device_index as int, device_count as int) && valid_scale(
            scale as int,
        )),
        r is Ok ==> final(subsystem).live_contexts == old(subsystem).live_contexts + 1,
        r is Err ==> *final(subsystem) == *old(subsystem),
        r is Ok ==> {
            let cfg = r.unwrap();
            &&& cfg.device_index == device_index
            &&& cfg.noise == noise
            &&& cfg.scale == scale
            &&& cfg.model == model
            &&& cfg.tta_mode == tta_mode
            &&& cfg.num_threads == num_threads
            &&& cfg.tile_size == spec_resolved_tile_size(
                tile_size as int,
                device_index as int,
                model,
                budget as int,
            )
            &&& cfg.wf(models_path@)
        },
        !valid_device(device_index as int, device_count as int) ==> r == Result::<
            Config,
            Waifu2xError,
        >::Err(Waifu2xError::InvalidDevice),
{
    subsystem.acquire();
    match derive_config(
        model,
        noise,
        scale,
        tile_size,
        device_index,
        device_count,
        budget,
        tta_mode,
        num_threads,
        models_path,
    ) {
        Ok(cfg) => Ok(cfg),
        Err(e) => {
            subsystem.release();
            Err(e)
        },
    }
}

} // verus!
