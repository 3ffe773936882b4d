use waifu2x::context::ContextLifecycle;
use waifu2x::context::ContextPhase;
use waifu2x::context::DeviceSubsystem;
use waifu2x::context::derive_config;
use waifu2x::context::try_construct;
use waifu2x::errors::Waifu2xError;
use waifu2x::params::ModelType;

#[test]
fn invalid_device_fails_and_leaves_subsystem_untouched() {
    let mut subsystem = DeviceSubsystem::new();
    // deviceIndex == deviceCount() is out of range.
    let result = try_construct(
        &mut subsystem,
        ModelType::Cunet,
        -1,
        2,
        0,
        1,
        1,
        0,
        false,
        1,
        "models",
    );
    assert!(matches!(result, Err(Waifu2xError::InvalidDevice)));
    assert_eq!(subsystem.live_contexts, 0);

    let result = try_construct(
        &mut subsystem,
        ModelType::Cunet,
        -1,
        2,
        0,
        -2,
        1,
        0,
        false,
        1,
        "models",
    );
    assert!(matches!(result, Err(Waifu2xError::InvalidDevice)));
    assert_eq!(subsystem.live_contexts, 0);
}

#[test]
fn successful_construction_holds_the_subsystem() {
    let mut subsystem = DeviceSubsystem::new();
    let config = try_construct(
        &mut subsystem,
        ModelType::Cunet,
        1,
        2,
        0,
        0,
        1,
        800,
        false,
        4,
        "models",
    )
    .unwrap();
    assert_eq!(subsystem.live_contexts, 1);
    assert_eq!(config.prepadding, 18);
    assert_eq!(config.tile_size, 200);
    assert_eq!(config.model_path.as_str(), "models/models-cunet/noise1_scale2.0x_model.bin");
    assert_eq!(config.param_path.as_str(), "models/models-cunet/noise1_scale2.0x_model.param");

    subsystem.release();
    assert_eq!(subsystem.live_contexts, 0);
}

#[test]
fn cpu_mode_is_a_valid_device() {
    let config = derive_config(
        ModelType::Upconv7Photo,
        -1,
        2,
        0,
        -1,
        0,
        0,
        false,
        1,
        "models",
    )
    .unwrap();
    assert_eq!(config.tile_size, 400);
    assert_eq!(config.prepadding, 7);
}

#[test]
fn unsupported_scale_is_rejected() {
    let result = derive_config(
        ModelType::Cunet,
        -1,
        3,
        0,
        -1,
        0,
        0,
        false,
        1,
        "models",
    );
    assert!(matches!(result, Err(Waifu2xError::UnsupportedScale)));
    let result = derive_config(
        ModelType::Cunet,
        -1,
        64,
        0,
        -1,
        0,
        0,
        false,
        1,
        "models",
    );
    assert!(matches!(result, Err(Waifu2xError::UnsupportedScale)));
}

#[test]
fn error_messages_name_the_failure() {
    assert_eq!(Waifu2xError::InvalidDevice.message(), "invalid gpu device");
    assert_eq!(Waifu2xError::UnsupportedScale.message(), "unexpected scale number");
    assert_eq!(Waifu2xError::UnsupportedChannelCount.message(), "unexpected channel");
    assert!(!Waifu2xError::AssetLoadFailed.message().is_empty());
    assert!(!Waifu2xError::EngineFailure.message().is_empty());
}

#[test]
fn context_lifecycle_orders_load_and_teardown() {
    let mut lifecycle = ContextLifecycle::new();
    assert_eq!(lifecycle.phase, ContextPhase::Constructed);
    lifecycle.mark_loaded();
    assert_eq!(lifecycle.phase, ContextPhase::Loaded);
    lifecycle.mark_torn_down();
    assert_eq!(lifecycle.phase, ContextPhase::TornDown);
}
