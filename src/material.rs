//! The data contract of the decal material extension: where its one uniform
//! is bound and which fragment program reads it.

use vstd::prelude::*;

verus! {

/// Binding slot of the uniform that carries the depth fade factor. It sits
/// far above the slots of the base material that the decal extends.
pub const DEPTH_FADE_FACTOR_BINDING: u32 = 200;

/// Stable name, in the host's embedded asset namespace, of the fragment
/// program that blends a decal by depth.
pub const FRAGMENT_SHADER_PATH: &'static str = "embedded://bevy_contact_projective_decals/decal.wgsl";

/// The fragment program that a decal material requires.
pub fn fragment_shader() -> (r: &'static str)
    ensures
        r@ == FRAGMENT_SHADER_PATH@,
{
    FRAGMENT_SHADER_PATH
}

} // verus!
