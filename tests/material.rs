use bevy_contact_projective_decals::{
    fragment_shader, DEPTH_FADE_FACTOR_BINDING, FRAGMENT_SHADER_PATH,
};

#[test]
fn fade_factor_is_bound_at_slot_two_hundred() {
    assert_eq!(DEPTH_FADE_FACTOR_BINDING, 200);
}

#[test]
fn fragment_shader_is_the_embedded_decal_program() {
    assert_eq!(
        fragment_shader(),
        "embedded://bevy_contact_projective_decals/decal.wgsl"
    );
    assert_eq!(fragment_shader(), FRAGMENT_SHADER_PATH);
}
