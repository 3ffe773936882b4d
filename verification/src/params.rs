//! Parameter derivation: pre-padding, tile-size selection, and model
//! asset paths.
//!
//! All three are derived deterministically from the model family, the
//! denoise level, the requested net scale factor, and (for the tile size)
//! the queried device memory budget. They are fixed at construction time of
//! an inference context and never change afterwards.

use vstd::prelude::*;
use vstd::string::StringExecFns;

use crate::decimal::push_decimal;
use crate::decimal::spec_decimal;

verus! {

/// The model families the inference engine ships weights for.
#[derive(Clone, Copy, Debug, PartialEq, Eq, Structural)]
pub enum ModelType {
    Cunet,
    Upconv7AnimeStyleArtRgb,
    Upconv7Photo,
}

/// Pre-padding applied around each tile before inference, per model family.
///
/// The CUNet family needs 28 pixels in the denoise-only mode (denoising
/// enabled at scale 1) and 18 otherwise; both Upconv7 families always
/// need 7.
pub open spec fn spec_prepadding(model: ModelType, noise: int, scale: int) -> int {
    match model {
        ModelType::Cunet => if noise == -1 {
            18
        } else if scale == 1 {
            28
        } else {
            18
        },
        ModelType::Upconv7AnimeStyleArtRgb => 7,
        ModelType::Upconv7Photo => 7,
    }
}

pub fn prepadding(model: ModelType, noise: i32, scale: u32) -> (p: u32)
    ensures
        p == spec_prepadding(model, noise as int, scale as int),
{
    match model {
        ModelType::Cunet => {
            if noise == -1 {
                18
            } else if scale == 1 {
                28
            } else {
                18
            }
        },
        ModelType::Upconv7AnimeStyleArtRgb => 7,
        ModelType::Upconv7Photo => 7,
    }
}

/// Tile size selected automatically from the device memory budget: a step
/// function with model-family-specific thresholds.
pub open spec fn spec_auto_tile_size(model: ModelType, budget: int) -> int {
    match model {
        ModelType::Cunet => if budget > 2600 {
            400
        } else if budget > 740 {
            200
        } else if budget > 250 {
            100
        } else {
            32
        },
        ModelType::Upconv7AnimeStyleArtRgb | ModelType::Upconv7Photo => if budget > 1900 {
            400
        } else if budget > 550 {
            200
        } else if budget > 190 {
            100
        } else {
            32
        },
    }
}

pub fn auto_tile_size(model: ModelType, budget: u32) -> (t: u32)
    ensures
        t == spec_auto_tile_size(model, budget as int),
{
    match model {
        ModelType::Cunet => {
            if budget > 2600 {
                400
            } else if budget > 740 {
                200
            } else if budget > 250 {
                100
            } else {
                32
            }
        },
        ModelType::Upconv7AnimeStyleArtRgb | ModelType::Upconv7Photo => {
            if budget > 1900 {
                400
            } else if budget > 550 {
                200
            } else if budget > 190 {
                100
            } else {
                32
            }
        },
    }
}

/// The tile size an inference context is constructed with: an explicit
/// non-zero caller choice wins; otherwise CPU mode (device index -1) always
/// uses 400, and a real device uses the budget-driven step function.
pub open spec fn spec_resolved_tile_size(
    explicit: int,
    device_index: int,
    model: ModelType,
    budget: int,
) -> int {
    if explicit != 0 {
        explicit
    } else if device_index == -1 {
        400
    } else {
        spec_auto_tile_size(model, budget)
    }
}

/// Resolves the tile size for one construction. `budget` is the queried
/// memory budget of the device; it is read only when no explicit tile size
/// was supplied and a real device (index >= 0) is selected.
pub fn resolve_tile_size(explicit: u32, device_index: i32, model: ModelType, budget: u32) -> (t:
    u32)
    ensures
        t == spec_resolved_tile_size(explicit as int, device_index as int, model, budget as int),
{
    if explicit != 0 {
        explicit
    } else if device_index == -1 {
        400
    } else {
        auto_tile_size(model, budget)
    }
}

/// The fixed subdirectory of the models root that holds one family's
/// weight files.
pub open spec fn spec_model_dir(model: ModelType) -> Seq<char> {
    match model {
        ModelType::Cunet => "models-cunet"@,
        ModelType::Upconv7AnimeStyleArtRgb => "models-upconv_7_anime_style_art_rgb"@,
        ModelType::Upconv7Photo => "models-upconv_7_photo"@,
    }
}

pub fn model_dir(model: ModelType) -> (r: &'static str)
    ensures
        r@ == spec_model_dir(model),
{
    match model {
        ModelType::Cunet => "models-cunet",
        ModelType::Upconv7AnimeStyleArtRgb => "models-upconv_7_anime_style_art_rgb",
        ModelType::Upconv7Photo => "models-upconv_7_photo",
    }
}

/// The file-name stem shared by one (denoise, scale) combination's weight
/// and parameter files: denoise disabled selects the pure 2x model, scale 1
/// the denoise-only model, and anything else the combined model.
pub open spec fn spec_file_stem(noise: int, scale: int) -> Seq<char> {
    if noise == -1 {
        "scale2.0x_model"@
    } else if scale == 1 {
        "noise"@ + spec_decimal(noise) + "_model"@
    } else {
        "noise"@ + spec_decimal(noise) + "_scale2.0x_model"@
    }
}

/// The path of one model asset below the models root, up to the extension.
pub open spec fn spec_asset_stem_path(
    models_path: Seq<char>,
    model: ModelType,
    noise: int,
    scale: int,
) -> Seq<char> {
    models_path + "/"@ + spec_model_dir(model) + "/"@ + spec_file_stem(noise, scale)
}

/// The full path of the weight file for one configuration.
pub open spec fn spec_model_path(
    models_path: Seq<char>,
    model: ModelType,
    noise: int,
    scale: int,
) -> Seq<char> {
    spec_asset_stem_path(models_path, model, noise, scale) + ".bin"@
}

/// The full path of the parameter file for one configuration.
pub open spec fn spec_param_path(
    models_path: Seq<char>,
    model: ModelType,
    noise: int,
    scale: int,
) -> Seq<char> {
    spec_asset_stem_path(models_path, model, noise, scale) + ".param"@
}

/// Derives the weight-file and parameter-file paths for one configuration:
/// the two files share a stem and differ only in extension.
pub fn model_paths(models_path: &str, model: ModelType, noise: i32, scale: u32) -> (r: (
    String,
    String,
))
    ensures
        r.0@ == spec_model_path(models_path@, model, noise as int, scale as int),
        r.1@ == spec_param_path(models_path@, model, noise as int, scale as int),
{
    let mut stem = String::new();
    stem.append(models_path);
    stem.append("/");
    stem.append(model_dir(model));
    stem.append("/");
    if noise == -1 {
        stem.append("scale2.0x_model");
    } else if scale == 1 {
        stem.append("noise");
        push_decimal(&mut stem, noise);
        stem.append("_model");
    } else {
        stem.append("noise");
        push_decimal(&mut stem, noise);
        stem.append("_scale2.0x_model");
    }
    proof {
        assert(stem@ =~= spec_asset_stem_path(
            models_path@,
            model,
            noise as int,
            scale as int,
        ));
    }
    let mut weights = stem.clone();
    weights.append(".bin");
    let mut parameters = stem;
    parameters.append(".param");
    (weights, parameters)
}

/// Auto tile-size selection never shrinks when the budget grows: for every
/// model family it is a monotonically non-decreasing step function of the
/// queried budget.
pub proof fn lemma_auto_tile_size_monotonic(model: ModelType, b1: int, b2: int)
    requires
        b1 <= b2,
    ensures
        spec_auto_tile_size(model, b1) <= spec_auto_tile_size(model, b2),
{
}

} // verus!
