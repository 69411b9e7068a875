//! Projective decals: the material contract of a decal and the rule that
//! specializes a render pipeline so that decals always pass the depth test.

pub mod material;
pub mod pipeline;

pub use material::{fragment_shader, DEPTH_FADE_FACTOR_BINDING, FRAGMENT_SHADER_PATH};
pub use pipeline::{
    decal_label, specialize, CompareFunction, DepthStencilState, PipelineDescriptor,
    SpecializationError,
};
