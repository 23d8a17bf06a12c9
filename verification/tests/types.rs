use upscale_shim::types::{
    FfxApiResource, FfxApiResourceDescription, FfxFsr3UpscalerDispatchFlags,
    FfxFsr3UpscalerInitializationFlagBits, FfxFsr3UpscalerQualityMode, FfxResourceFlags,
    FfxResourceType, FfxSurfaceFormat,
};

#[test]
fn quality_mode_wire_codes() {
    assert_eq!(FfxFsr3UpscalerQualityMode::NativeAA.code(), 0);
    assert_eq!(FfxFsr3UpscalerQualityMode::Quality.code(), 1);
    assert_eq!(FfxFsr3UpscalerQualityMode::Balanced.code(), 2);
    assert_eq!(FfxFsr3UpscalerQualityMode::Performance.code(), 3);
    assert_eq!(FfxFsr3UpscalerQualityMode::UltraPerformance.code(), 4);
}

#[test]
fn surface_format_wire_codes_span_the_table() {
    assert_eq!(FfxSurfaceFormat::Unknown.code(), 0);
    assert_eq!(FfxSurfaceFormat::R8G8B8A8Unorm.code(), 10);
    assert_eq!(FfxSurfaceFormat::R32Float.code(), 28);
    assert_eq!(FfxSurfaceFormat::R32Typeless.code(), 37);
}

#[test]
fn resource_enums_carry_their_wire_bits() {
    assert_eq!(FfxResourceType::Texture2D.code(), 2);
    assert_eq!(FfxResourceFlags::NoFlags.bits(), 0);
    assert_eq!(FfxResourceFlags::Aliasable.bits(), 1);
    assert_eq!(FfxResourceFlags::Undefined.bits(), 2);
    assert_eq!(FfxFsr3UpscalerInitializationFlagBits::EnableDepthInverted.bit(), 0x8);
    assert_eq!(FfxFsr3UpscalerDispatchFlags::DrawDebugView.bit(), 0x1);
}

#[test]
fn resource_record_nullness_follows_the_handle() {
    let description = FfxApiResourceDescription {
        type_: 2,
        format: 10,
        width: 64,
        height: 64,
        depth: 1,
        mip_count: 1,
        flags: 0,
        usage: 0,
    };
    let null = FfxApiResource { resource: 0, description, state: 1 };
    let live = FfxApiResource { resource: 0x55, description, state: 1 };
    assert!(null.is_null());
    assert!(!live.is_null());
}
