use upscale_shim::state::{
    transition, translate_state, BarrierDesc, FFX_API_RESOURCE_STATE_COMMON,
    FFX_API_RESOURCE_STATE_COMPUTE_READ, FFX_API_RESOURCE_STATE_COPY_DEST,
    FFX_API_RESOURCE_STATE_COPY_SRC, FFX_API_RESOURCE_STATE_DEPTH_ATTACHMENT,
    FFX_API_RESOURCE_STATE_GENERIC_READ, FFX_API_RESOURCE_STATE_INDIRECT_ARGUMENT,
    FFX_API_RESOURCE_STATE_PIXEL_COMPUTE_READ, FFX_API_RESOURCE_STATE_PIXEL_READ,
    FFX_API_RESOURCE_STATE_PRESENT, FFX_API_RESOURCE_STATE_RENDER_TARGET,
    FFX_API_RESOURCE_STATE_UNORDERED_ACCESS, NATIVE_STATE_COMMON, NATIVE_STATE_COPY_DEST,
    NATIVE_STATE_COPY_SOURCE, NATIVE_STATE_DEPTH_WRITE, NATIVE_STATE_INDIRECT_ARGUMENT,
    NATIVE_STATE_NON_PIXEL_SHADER_RESOURCE, NATIVE_STATE_PIXEL_SHADER_RESOURCE,
    NATIVE_STATE_PRESENT, NATIVE_STATE_RENDER_TARGET, NATIVE_STATE_UNORDERED_ACCESS,
};

#[test]
fn common_bit_translates_to_native_default() {
    assert_eq!(translate_state(FFX_API_RESOURCE_STATE_COMMON), NATIVE_STATE_COMMON);
    assert_eq!(NATIVE_STATE_COMMON, 0);
}

#[test]
fn every_other_single_bit_translates_nonzero() {
    let singles = [
        (FFX_API_RESOURCE_STATE_UNORDERED_ACCESS, NATIVE_STATE_UNORDERED_ACCESS),
        (FFX_API_RESOURCE_STATE_COMPUTE_READ, NATIVE_STATE_NON_PIXEL_SHADER_RESOURCE),
        (FFX_API_RESOURCE_STATE_PIXEL_READ, NATIVE_STATE_PIXEL_SHADER_RESOURCE),
        (FFX_API_RESOURCE_STATE_COPY_SRC, NATIVE_STATE_COPY_SOURCE),
        (FFX_API_RESOURCE_STATE_COPY_DEST, NATIVE_STATE_COPY_DEST),
        (FFX_API_RESOURCE_STATE_INDIRECT_ARGUMENT, NATIVE_STATE_INDIRECT_ARGUMENT),
        (FFX_API_RESOURCE_STATE_PRESENT, NATIVE_STATE_PRESENT),
        (FFX_API_RESOURCE_STATE_RENDER_TARGET, NATIVE_STATE_RENDER_TARGET),
        (FFX_API_RESOURCE_STATE_DEPTH_ATTACHMENT, NATIVE_STATE_DEPTH_WRITE),
    ];
    for (abstract_bit, native) in singles {
        assert_eq!(translate_state(abstract_bit), native);
        assert_ne!(translate_state(abstract_bit), 0, "bit {abstract_bit:#x} lost");
    }
}

#[test]
fn combined_read_bits_translate_to_or_of_parts() {
    let combined = translate_state(FFX_API_RESOURCE_STATE_PIXEL_COMPUTE_READ);
    let parts = translate_state(FFX_API_RESOURCE_STATE_PIXEL_READ)
        | translate_state(FFX_API_RESOURCE_STATE_COMPUTE_READ);
    assert_eq!(combined, parts);

    let generic = translate_state(FFX_API_RESOURCE_STATE_GENERIC_READ);
    assert_eq!(
        generic,
        translate_state(FFX_API_RESOURCE_STATE_COPY_SRC)
            | translate_state(FFX_API_RESOURCE_STATE_COMPUTE_READ)
    );
}

#[test]
fn empty_mask_translates_to_zero() {
    assert_eq!(translate_state(0), 0);
}

#[test]
fn transition_between_equal_states_is_elided() {
    assert_eq!(transition(7, NATIVE_STATE_COPY_SOURCE, NATIVE_STATE_COPY_SOURCE), None);
}

#[test]
fn transition_between_distinct_states_is_one_full_resource_barrier() {
    let b = transition(7, NATIVE_STATE_PIXEL_SHADER_RESOURCE, NATIVE_STATE_RENDER_TARGET);
    assert_eq!(
        b,
        Some(BarrierDesc {
            resource: 7,
            state_before: NATIVE_STATE_PIXEL_SHADER_RESOURCE,
            state_after: NATIVE_STATE_RENDER_TARGET,
        })
    );
}
