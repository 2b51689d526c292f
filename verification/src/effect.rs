//! What a pass asks of the backend when a pipeline is built: an effect plan.
//! The plan lists the vertex layout to bind, one texture set per tri-planar
//! projection plane, and the output mode — opaque with depth writes, or
//! blended when transparency was requested. The backend compiles shaders and
//! allocates buffers from this description; the plan itself is plain data.

use crate::state::{Blend, ColorMask, DepthMode};
use crate::vertex::Attribute;
use vstd::prelude::*;

verus! {

/// One material texture a pass samples.
#[derive(Clone, Copy, Debug, PartialEq, Eq, Structural)]
pub enum TextureKind {
    Albedo,
    Emission,
    Normal,
}

/// One of the three axis-aligned projection planes a tri-planar pass blends.
#[derive(Clone, Copy, Debug, PartialEq, Eq, Structural)]
pub enum TriplanarPlane {
    PlaneYZ,
    PlaneXZ,
    PlaneXY,
}

/// The textures an effect binds for one projection plane, in binding order.
#[derive(Clone, Debug)]
pub struct TextureSet {
    pub plane: TriplanarPlane,
    pub textures: Vec<TextureKind>,
}

/// How the effect writes its color output.
#[derive(Clone, Copy, Debug, PartialEq, Eq, Structural)]
pub enum OutputMode {
    /// Write color unblended, with the given depth behavior.
    Plain(DepthMode),
    /// Blend into the target under the given mask, blend state and optional
    /// depth behavior.
    Blended(ColorMask, Blend, Option<DepthMode>),
}

/// Everything a pass asks the backend for when its pipeline is built.
#[derive(Clone, Debug)]
pub struct EffectPlan {
    /// The attributes of the interleaved vertex buffer, in buffer order.
    pub vertex_attributes: Vec<Attribute>,
    /// The stride of that buffer in bytes.
    pub vertex_stride: u16,
    /// One texture set per projection plane, in setup order.
    pub texture_sets: Vec<TextureSet>,
    /// How the color output is written.
    pub output: OutputMode,
}

/// The textures a tri-planar material provides, in the order the effect binds
/// them for every plane.
pub open spec fn triplanar_textures() -> Seq<TextureKind> {
    seq![TextureKind::Albedo, TextureKind::Emission, TextureKind::Normal]
}

/// The planes a tri-planar effect sets its textures up for, in setup order.
pub open spec fn triplanar_planes() -> Seq<TriplanarPlane> {
    seq![TriplanarPlane::PlaneYZ, TriplanarPlane::PlaneXZ, TriplanarPlane::PlaneXY]
}

impl EffectPlan {
    /// The plan binds, for each of the three projection planes in setup
    /// order, the full tri-planar texture list.
    pub open spec fn has_triplanar_textures(self) -> bool {
        &&& self.texture_sets@.len() == triplanar_planes().len()
        &&& forall|i: int|
            0 <= i < self.texture_sets@.len() ==> {
                &&& (#[trigger] self.texture_sets@[i]).plane == triplanar_planes()[i]
                &&& self.texture_sets@[i].textures@ == triplanar_textures()
            }
    }
}

} // verus!
