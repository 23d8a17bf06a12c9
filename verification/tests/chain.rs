use upscale_shim::api::{
    ffxApiHeader, find_desc, FFX_API_RETURN_ERROR_PARAMETER,
    FFX_API_RETURN_ERROR_UNKNOWN_DESCTYPE, FFX_API_RETURN_OK,
};
use upscale_shim::context::{create_context, destroy_context, ContextStore, OxrContext};
use upscale_shim::desc::{ffxCreateBackendDX12Desc, ffxCreateContextDescUpscale, CreateDesc};
use upscale_shim::types::FfxApiDimensions2D;
use upscale_shim::upscaler_type::{
    debug_view_get, debug_view_set, get, SelectionState, UpscalerType,
};

fn header(tag: u64) -> ffxApiHeader {
    ffxApiHeader { type_: tag }
}

fn upscale_payload() -> ffxCreateContextDescUpscale {
    ffxCreateContextDescUpscale {
        flags: 0x21,
        max_render_size: FfxApiDimensions2D { width: 1920, height: 1080 },
        max_upscale_size: FfxApiDimensions2D { width: 3840, height: 2160 },
        fp_message: 0,
    }
}

#[test]
fn find_returns_first_matching_tag() {
    // Tags [A, B, T, C]: the walker lands on T.
    let chain = vec![header(0xa), header(0xb), header(0x7), header(0xc)];
    assert_eq!(find_desc(&chain, 0x7), Some(2));
    assert_eq!(find_desc(&chain, 0xa), Some(0));
}

#[test]
fn find_without_match_returns_none() {
    let chain = vec![header(0xa), header(0xb), header(0xc)];
    assert_eq!(find_desc(&chain, 0x7), None);
}

#[test]
fn find_on_empty_chain_returns_none() {
    let chain: Vec<ffxApiHeader> = Vec::new();
    assert_eq!(find_desc(&chain, 0x7), None);
}

#[test]
fn find_repeated_tag_prefers_earliest() {
    let chain = vec![header(0xb), header(0x7), header(0x7)];
    assert_eq!(find_desc(&chain, 0x7), Some(1));
}

#[test]
fn create_context_reads_upscale_and_backend_descriptors() {
    let mut store = ContextStore::new();
    let mut handle: u64 = 0;
    let chain = vec![
        CreateDesc::Other(header(0x42)),
        CreateDesc::Upscale(upscale_payload()),
        CreateDesc::BackendDx12(ffxCreateBackendDX12Desc { device: 0xd00d }),
    ];
    let status = create_context(&mut store, &mut handle, Some(&chain));
    assert_eq!(status, FFX_API_RETURN_OK);
    assert_eq!(handle, 1);
    let ctx = store.lookup(handle).expect("context must be live");
    assert_eq!(
        ctx,
        OxrContext {
            max_render_size: FfxApiDimensions2D { width: 1920, height: 1080 },
            max_upscale_size: FfxApiDimensions2D { width: 3840, height: 2160 },
            flags: 0x21,
            device: 0xd00d,
        }
    );
}

#[test]
fn create_context_without_backend_defaults_to_null_device() {
    let mut store = ContextStore::new();
    let mut handle: u64 = 0;
    let chain = vec![CreateDesc::Upscale(upscale_payload())];
    assert_eq!(create_context(&mut store, &mut handle, Some(&chain)), FFX_API_RETURN_OK);
    assert_eq!(store.lookup(handle).unwrap().device, 0);
}

#[test]
fn create_context_null_chain_is_parameter_error() {
    let mut store = ContextStore::new();
    let mut handle: u64 = 99;
    assert_eq!(create_context(&mut store, &mut handle, None), FFX_API_RETURN_ERROR_PARAMETER);
    assert_eq!(handle, 99);
}

#[test]
fn create_context_without_upscale_descriptor_is_unknown_type() {
    let mut store = ContextStore::new();
    let mut handle: u64 = 0;
    let chain = vec![
        CreateDesc::Other(header(0x42)),
        CreateDesc::BackendDx12(ffxCreateBackendDX12Desc { device: 5 }),
    ];
    let status = create_context(&mut store, &mut handle, Some(&chain));
    assert_eq!(status, FFX_API_RETURN_ERROR_UNKNOWN_DESCTYPE);
    assert_eq!(handle, 0);
    assert!(store.lookup(1).is_none());
}

#[test]
fn destroy_context_frees_and_nulls_the_handle() {
    let mut store = ContextStore::new();
    let mut handle: u64 = 0;
    let chain = vec![CreateDesc::Upscale(upscale_payload())];
    assert_eq!(create_context(&mut store, &mut handle, Some(&chain)), FFX_API_RETURN_OK);
    assert_eq!(destroy_context(&mut store, &mut handle), FFX_API_RETURN_OK);
    assert_eq!(handle, 0);
    assert!(store.lookup(1).is_none());
    // A second destroy sees the nulled handle and is rejected, not a fault.
    assert_eq!(destroy_context(&mut store, &mut handle), FFX_API_RETURN_ERROR_PARAMETER);
}

#[test]
fn destroy_context_detects_stale_handle() {
    let mut store = ContextStore::new();
    let mut handle: u64 = 0;
    let chain = vec![CreateDesc::Upscale(upscale_payload())];
    assert_eq!(create_context(&mut store, &mut handle, Some(&chain)), FFX_API_RETURN_OK);
    let mut stale = handle;
    assert_eq!(destroy_context(&mut store, &mut handle), FFX_API_RETURN_OK);
    // The caller kept a copy of the old handle: the arena refuses it.
    assert_eq!(destroy_context(&mut store, &mut stale), FFX_API_RETURN_ERROR_PARAMETER);
    assert_eq!(stale, 1);
}

#[test]
fn handles_stay_distinct_across_creates() {
    let mut store = ContextStore::new();
    let chain = vec![CreateDesc::Upscale(upscale_payload())];
    let mut first: u64 = 0;
    let mut second: u64 = 0;
    assert_eq!(create_context(&mut store, &mut first, Some(&chain)), FFX_API_RETURN_OK);
    assert_eq!(create_context(&mut store, &mut second, Some(&chain)), FFX_API_RETURN_OK);
    assert_ne!(first, second);
    let mut h = first;
    assert_eq!(destroy_context(&mut store, &mut h), FFX_API_RETURN_OK);
    assert!(store.lookup(second).is_some());
}

#[test]
fn selection_cycles_are_inverse() {
    for t in [UpscalerType::Passthrough, UpscalerType::Bilinear, UpscalerType::Lanczos] {
        assert_eq!(t.next().prev(), t);
        assert_eq!(t.prev().next(), t);
        assert_ne!(t.next(), t);
    }
    assert_eq!(UpscalerType::Bilinear.next(), UpscalerType::Lanczos);
    assert_eq!(UpscalerType::Bilinear.prev(), UpscalerType::Passthrough);
}

#[test]
fn selection_state_fields_are_independent() {
    let mut s = SelectionState::default();
    assert_eq!(get(&s), UpscalerType::Lanczos);
    assert!(!debug_view_get(&s));
    upscale_shim::upscaler_type::set(&mut s, UpscalerType::Bilinear);
    assert_eq!(get(&s), UpscalerType::Bilinear);
    assert!(!debug_view_get(&s));
    debug_view_set(&mut s, true);
    assert!(debug_view_get(&s));
    assert_eq!(get(&s), UpscalerType::Bilinear);
}
