//! Specialization of a render pipeline for decals: the debug label gains a
//! fixed prefix, and the depth test is forced to pass.

use vstd::prelude::*;

verus! {

/// How a fragment's depth is compared with the value already in the depth
/// buffer.
#[derive(Clone, Copy, Debug, PartialEq, Eq, Structural)]
pub enum CompareFunction {
    Never,
    Less,
    Equal,
    LessEqual,
    Greater,
    NotEqual,
    GreaterEqual,
    Always,
}

/// The depth-stencil settings of a pipeline that specialization reads and
/// writes.
#[derive(Clone, Copy, Debug, PartialEq, Eq, Structural)]
pub struct DepthStencilState {
    pub depth_compare: CompareFunction,
}

/// The parts of a render pipeline descriptor that a decal refines. Either
/// may be absent: not every pipeline variant sets them.
#[derive(Debug)]
pub struct PipelineDescriptor {
    pub label: Option<String>,
    pub depth_stencil: Option<DepthStencilState>,
}

/// A pipeline descriptor with its label seen as a sequence of characters.
pub struct DescriptorView {
    pub label: Option<Seq<char>>,
    pub depth_stencil: Option<DepthStencilState>,
}

impl View for PipelineDescriptor {
    type V = DescriptorView;

    open spec fn view(&self) -> DescriptorView {
        DescriptorView {
            label: match self.label {
                Some(l) => Some(l@),
                None => None,
            },
            depth_stencil: self.depth_stencil,
        }
    }
}

/// Why a pipeline could not be specialized for decals. No descriptor is
/// rejected today; the type keeps the operation fallible.
#[derive(Clone, Copy, Debug, PartialEq, Eq)]
pub struct SpecializationError;

/// The marker put in front of the label of every decal pipeline.
pub open spec fn label_prefix() -> Seq<char> {
    seq!['d', 'e', 'c', 'a', 'l', '_']
}

/// The depth-stencil settings of a decal: compare function "always",
/// whatever it was before.
pub open spec fn decal_depth_stencil(d: Option<DepthStencilState>) -> Option<DepthStencilState> {
    match d {
        Some(_) => Some(DepthStencilState { depth_compare: CompareFunction::Always }),
        None => None,
    }
}

/// The label of a decal pipeline: the prefix followed by the base label.
pub open spec fn decal_label_of(l: Option<Seq<char>>) -> Option<Seq<char>> {
    match l {
        Some(s) => Some(label_prefix() + s),
        None => None,
    }
}

/// What specialization makes of a descriptor.
pub open spec fn specialized(v: DescriptorView) -> DescriptorView {
    DescriptorView {
        label: decal_label_of(v.label),
        depth_stencil: decal_depth_stencil(v.depth_stencil),
    }
}

/// The label of a decal pipeline derived from the base label `label`.
pub fn decal_label(label: &str) -> (r: String)
    ensures
        r@ == label_prefix() + label@,
{
    let mut r = String::from_str("decal_");
    proof {
        reveal_strlit("decal_");
    }
    r.append(label);
    r
}

/// Refines a pipeline descriptor so that decals behave as decals: a label,
/// where present, gains the prefix "decal_", and a depth-stencil
/// configuration, where present, gets the compare function "always". The
/// two changes are independent. Nothing else of the descriptor changes, and
/// no descriptor is rejected.
pub fn specialize(descriptor: &mut PipelineDescriptor) -> (r: Result<(), SpecializationError>)
    ensures
        r is Ok,
        final(descriptor)@ == specialized(old(descriptor)@),
        old(descriptor).depth_stencil is Some ==> final(descriptor).depth_stencil == Some(
            DepthStencilState { depth_compare: CompareFunction::Always },
        ),
        old(descriptor).depth_stencil is None ==> final(descriptor).depth_stencil is None,
        old(descriptor).label is Some ==> final(descriptor).label is Some
            && final(descriptor).label->0@ == label_prefix() + old(descriptor).label->0@,
        old(descriptor).label is None ==> final(descriptor).label is None,
{
    let label = match &descriptor.label {
        Some(l) => Some(decal_label(l.as_str())),
        None => None,
    };
    descriptor.label = label;
    if descriptor.depth_stencil.is_some() {
        descriptor.depth_stencil = Some(DepthStencilState { depth_compare: CompareFunction::Always });
    }
    Ok(())
}

/// Specializing a descriptor a second time leaves its depth-stencil
/// configuration as the first time left it: "always" stays "always".
pub proof fn specialize_depth_idempotent(v: DescriptorView)
    ensures
        specialized(specialized(v)).depth_stencil == specialized(v).depth_stencil,
{
}

} // verus!
