//! The tri-planar draw pass. `DrawTriplanar` holds one piece of
//! configuration — whether transparency is enabled. `compile` turns that
//! configuration and a vertex format into the effect plan the backend builds
//! once; `apply` turns the world's storages into the frame's draw calls, in
//! the order the pass emits them.

use crate::ecs::{EntitySet, Storage};
use crate::effect::{EffectPlan, TextureKind, TextureSet, TriplanarPlane, OutputMode};
use crate::state::{Blend, ColorMask, DepthMode};
use crate::vertex::VertexFormat;
use vstd::prelude::*;

verus! {

/// A handle to a mesh asset. The pass never reads inside a mesh; it hands
/// the handle to the backend, which resolves it against its asset storage.
#[derive(Clone, Copy, Debug, PartialEq, Eq, Structural)]
pub struct MeshHandle {
    pub id: u64,
}

/// A tri-planar material component: a handle to the texture group the
/// material's albedo, emission and normal maps live in. The pass forwards it
/// untouched; entities drawn from the ordered visibility list may lack one,
/// and the backend then falls back to its default material.
#[derive(Clone, Copy, Debug, PartialEq, Eq, Structural)]
pub struct TriplanarMaterial {
    pub id: u64,
}

/// A world transform component. The pass never reads inside a transform; it
/// carries an opaque token for a matrix the backend owns and forwards it with
/// the draw.
#[derive(Clone, Copy, Debug, PartialEq, Eq, Structural)]
pub struct GlobalTransform {
    pub token: u64,
}

/// What a culling system computed for this frame: the opaque entities that
/// are visible, as a set, and the transparent ones, back to front, as a list.
#[derive(Clone, Debug)]
pub struct Visibility {
    pub visible_unordered: EntitySet,
    pub visible_ordered: Vec<usize>,
}

/// Everything the pass reads from the world in one frame.
#[derive(Clone, Debug)]
pub struct PassData {
    /// Each entity's mesh, if it has one.
    pub mesh: Storage<MeshHandle>,
    /// Each entity's tri-planar material, if it has one.
    pub material: Storage<TriplanarMaterial>,
    /// Each entity's world transform, if it has one.
    pub global: Storage<GlobalTransform>,
    /// The entities hidden directly.
    pub hidden: EntitySet,
    /// The entities hidden through a hidden ancestor.
    pub hidden_propagate: EntitySet,
    /// The culling result, when a culling system ran this frame.
    pub visibility: Option<Visibility>,
}

/// One draw the pass emits: which entity, which mesh, and the material and
/// transform to draw it with, where the backend fills in defaults for a
/// missing one.
#[derive(Clone, Copy, Debug, PartialEq, Eq, Structural)]
pub struct DrawCall {
    pub entity: usize,
    pub mesh: MeshHandle,
    pub material: Option<TriplanarMaterial>,
    pub global: Option<GlobalTransform>,
}

/// Entity `e` carries everything a joined draw needs: a mesh, a material and
/// a transform.
pub open spec fn joined(data: PassData, e: int) -> bool {
    &&& data.mesh.has_spec(e)
    &&& data.material.has_spec(e)
    &&& data.global.has_spec(e)
}

/// With no visibility resource, entity `e` is drawn when it joins and is not
/// hidden, directly or through an ancestor.
pub open spec fn drawable_unhidden(data: PassData, e: int) -> bool {
    &&& joined(data, e)
    &&& !data.hidden.contains_spec(e)
    &&& !data.hidden_propagate.contains_spec(e)
}

/// With a visibility resource, entity `e` is drawn in the unordered sweep
/// when it joins and the culling system found it visible.
pub open spec fn drawable_visible(data: PassData, vis: Visibility, e: int) -> bool {
    &&& joined(data, e)
    &&& vis.visible_unordered.contains_spec(e)
}

/// The draw call for a joined entity: its own mesh, material and transform.
pub open spec fn joined_call(data: PassData, e: int) -> DrawCall
    recommends
        joined(data, e),
{
    DrawCall {
        entity: e as usize,
        mesh: data.mesh.at(e),
        material: Some(data.material.at(e)),
        global: Some(data.global.at(e)),
    }
}

/// The draws a sweep over entities below `n` emits, in ascending entity
/// order: one joined draw for each entity the filter keeps.
pub open spec fn sweep_calls(data: PassData, keep: spec_fn(int) -> bool, n: int) -> Seq<DrawCall>
    decreases n,
{
    if n <= 0 {
        Seq::empty()
    } else if keep(n - 1) {
        sweep_calls(data, keep, n - 1).push(joined_call(data, n - 1))
    } else {
        sweep_calls(data, keep, n - 1)
    }
}

/// The filter of the sweep run when no visibility resource is present.
pub open spec fn unhidden_keep(data: PassData) -> spec_fn(int) -> bool {
    |e: int| drawable_unhidden(data, e)
}

/// The filter of the unordered sweep run over a culling result.
pub open spec fn visible_keep(data: PassData, vis: Visibility) -> spec_fn(int) -> bool {
    |e: int| drawable_visible(data, vis, e)
}

/// The draws emitted for entities below `n` when no visibility resource is
/// present, in ascending entity order.
pub open spec fn unhidden_calls(data: PassData, n: int) -> Seq<DrawCall> {
    sweep_calls(data, unhidden_keep(data), n)
}

/// The draws emitted for entities below `n` in the unordered sweep over the
/// visible set, in ascending entity order.
pub open spec fn visible_unordered_calls(data: PassData, vis: Visibility, n: int) -> Seq<DrawCall> {
    sweep_calls(data, visible_keep(data, vis), n)
}

/// The draws emitted for the first `k` entries of the ordered visibility
/// list, in list order: each listed entity that has a mesh is drawn, with its
/// material and transform when it has them.
pub open spec fn ordered_calls(data: PassData, order: Seq<usize>, k: int) -> Seq<DrawCall>
    decreases k,
{
    if k <= 0 || k > order.len() {
        Seq::empty()
    } else {
        let e = order[k - 1] as int;
        let rest = ordered_calls(data, order, k - 1);
        if data.mesh.has_spec(e) {
            rest.push(DrawCall {
                entity: order[k - 1],
                mesh: data.mesh.at(e),
                material: data.material.opt_at(e),
                global: data.global.opt_at(e),
            })
        } else {
            rest
        }
    }
}

/// The full frame's draws: with no visibility resource, one sweep over all
/// entities that skips hidden ones; with one, the unordered sweep over the
/// visible set followed by the ordered list.
pub open spec fn frame_calls(data: PassData) -> Seq<DrawCall> {
    match data.visibility {
        None => unhidden_calls(data, data.mesh@.len() as int),
        Some(vis) => visible_unordered_calls(data, vis, data.mesh@.len() as int) + ordered_calls(
            data,
            vis.visible_ordered@,
            vis.visible_ordered@.len() as int,
        ),
    }
}

/// Every draw a sweep emits is sound: it belongs to an entity below `n` that
/// the filter keeps, and it is that entity's own joined draw.
pub proof fn lemma_sweep_calls_sound(data: PassData, keep: spec_fn(int) -> bool, n: int)
    requires
        n <= usize::MAX,
    ensures
        forall|i: int|
            0 <= i < sweep_calls(data, keep, n).len() ==> {
                let c = #[trigger] sweep_calls(data, keep, n)[i];
                &&& c.entity < n
                &&& keep(c.entity as int)
                &&& c == joined_call(data, c.entity as int)
            },
    decreases n,
{
    if n <= 0 {
    } else {
        lemma_sweep_calls_sound(data, keep, n - 1);
    }
}

/// Every entity below `n` that the filter keeps is drawn by the sweep: its
/// joined draw appears in the emitted list.
pub proof fn lemma_sweep_calls_complete(data: PassData, keep: spec_fn(int) -> bool, n: int, e: int)
    requires
        0 <= e < n <= usize::MAX,
        keep(e),
    ensures
        exists|i: int|
            0 <= i < sweep_calls(data, keep, n).len() && sweep_calls(data, keep, n)[i]
                == joined_call(data, e),
    decreases n,
{
    let s = sweep_calls(data, keep, n);
    if e == n - 1 {
        assert(s[s.len() - 1] == joined_call(data, e));
    } else {
        lemma_sweep_calls_complete(data, keep, n - 1, e);
        let prev = sweep_calls(data, keep, n - 1);
        let i = choose|i: int| 0 <= i < prev.len() && prev[i] == joined_call(data, e);
        assert(s[i] == joined_call(data, e));
    }
}

/// A sweep draws in ascending entity order, so no entity is drawn twice.
pub proof fn lemma_sweep_calls_ascending(data: PassData, keep: spec_fn(int) -> bool, n: int)
    requires
        n <= usize::MAX,
    ensures
        forall|i: int, j: int|
            #![trigger sweep_calls(data, keep, n)[i], sweep_calls(data, keep, n)[j]]
            0 <= i < j < sweep_calls(data, keep, n).len() ==> sweep_calls(data, keep, n)[i].entity
                < sweep_calls(data, keep, n)[j].entity,
    decreases n,
{
    if n <= 0 {
    } else {
        lemma_sweep_calls_ascending(data, keep, n - 1);
        lemma_sweep_calls_sound(data, keep, n - 1);
    }
}

/// Every draw the ordered walk emits names an entity that stands in the
/// first `k` entries of the list.
pub proof fn lemma_ordered_calls_sound(data: PassData, order: Seq<usize>, k: int)
    requires
        k <= order.len(),
    ensures
        forall|i: int|
            0 <= i < ordered_calls(data, order, k).len() ==> exists|j: int|
                0 <= j < k && order[j] == (#[trigger] ordered_calls(data, order, k)[i]).entity,
    decreases k,
{
    if k <= 0 {
    } else {
        lemma_ordered_calls_sound(data, order, k - 1);
        let s = ordered_calls(data, order, k);
        let prev = ordered_calls(data, order, k - 1);
        assert forall|i: int| 0 <= i < s.len() implies exists|j: int|
            0 <= j < k && order[j] == (#[trigger] s[i]).entity by {
            if i < prev.len() {
                assert(s[i] == prev[i]);
                let j = choose|j: int| 0 <= j < k - 1 && order[j] == prev[i].entity;
                assert(0 <= j < k && order[j] == s[i].entity);
            } else {
                assert(order[k - 1] == s[i].entity);
            }
        }
    }
}

/// Every entity in the first `k` entries of the list that has a mesh is
/// drawn by the ordered walk.
pub proof fn lemma_ordered_calls_complete(data: PassData, order: Seq<usize>, k: int, j: int)
    requires
        0 <= j < k <= order.len(),
        data.mesh.has_spec(order[j] as int),
    ensures
        exists|i: int|
            0 <= i < ordered_calls(data, order, k).len() && (#[trigger] ordered_calls(
                data,
                order,
                k,
            )[i]).entity == order[j],
    decreases k,
{
    let s = ordered_calls(data, order, k);
    if j == k - 1 {
        assert(s[s.len() - 1].entity == order[j]);
    } else {
        lemma_ordered_calls_complete(data, order, k - 1, j);
        let prev = ordered_calls(data, order, k - 1);
        let i = choose|i: int| 0 <= i < prev.len() && prev[i].entity == order[j];
        assert(s[i].entity == order[j]);
    }
}

/// With a visibility resource, an entity the culling system reported neither
/// in the visible set nor on the ordered list is never drawn.
pub proof fn lemma_culled_entity_never_drawn(data: PassData, vis: Visibility, e: int)
    requires
        data.visibility == Some(vis),
        !vis.visible_unordered.contains_spec(e),
        forall|j: int|
            0 <= j < vis.visible_ordered@.len() ==> (#[trigger] vis.visible_ordered@[j]) as int
                != e,
    ensures
        forall|i: int|
            0 <= i < frame_calls(data).len() ==> (#[trigger] frame_calls(data)[i]).entity as int
                != e,
{
    data.mesh.lemma_slot_count_bound();
    let n = data.mesh@.len() as int;
    let order = vis.visible_ordered@;
    lemma_sweep_calls_sound(data, visible_keep(data, vis), n);
    lemma_ordered_calls_sound(data, order, order.len() as int);
    let a = sweep_calls(data, visible_keep(data, vis), n);
    let b = ordered_calls(data, order, order.len() as int);
    assert forall|i: int| 0 <= i < frame_calls(data).len() implies (#[trigger] frame_calls(
        data,
    )[i]).entity as int != e by {
        if i < a.len() {
            assert(frame_calls(data)[i] == a[i]);
            assert(visible_keep(data, vis)(a[i].entity as int));
        } else {
            assert(frame_calls(data)[i] == b[i - a.len()]);
            let j = choose|j: int| 0 <= j < order.len() && order[j] == b[i - a.len()].entity;
            assert(order[j] as int != e);
        }
    }
}

/// With no visibility resource, a hidden entity is never drawn, whether it
/// is hidden directly or through an ancestor.
pub proof fn lemma_hidden_entity_never_drawn(data: PassData, e: int)
    requires
        data.visibility is None,
        data.hidden.contains_spec(e) || data.hidden_propagate.contains_spec(e),
    ensures
        forall|i: int|
            0 <= i < frame_calls(data).len() ==> (#[trigger] frame_calls(data)[i]).entity as int
                != e,
{
    data.mesh.lemma_slot_count_bound();
    lemma_sweep_calls_sound(data, unhidden_keep(data), data.mesh@.len() as int);
}

/// With no visibility resource, an entity is drawn exactly when it joins and
/// is not hidden; each such entity's own joined draw appears in the frame.
pub proof fn lemma_unhidden_frame_characterized(data: PassData, e: int)
    requires
        data.visibility is None,
        0 <= e < data.mesh@.len(),
        drawable_unhidden(data, e),
    ensures
        exists|i: int|
            0 <= i < frame_calls(data).len() && frame_calls(data)[i] == joined_call(data, e),
{
    data.mesh.lemma_slot_count_bound();
    let n = data.mesh@.len() as int;
    lemma_sweep_calls_complete(data, unhidden_keep(data), n, e);
    let s = sweep_calls(data, unhidden_keep(data), n);
    let i = choose|i: int| 0 <= i < s.len() && s[i] == joined_call(data, e);
    assert(frame_calls(data)[i] == joined_call(data, e));
}

/// The output mode `compile` picks for a transparency setting: blended when
/// transparency was enabled, plain depth-writing output otherwise.
pub open spec fn output_for(
    transparency: Option<(ColorMask, Blend, Option<DepthMode>)>,
) -> OutputMode {
    match transparency {
        Some((mask, blend, depth)) => OutputMode::Blended(mask, blend, depth),
        None => OutputMode::Plain(DepthMode::LessEqualWrite),
    }
}

/// A pass that draws every visible mesh with a tri-planar projected material.
#[derive(Clone, Debug)]
pub struct DrawTriplanar {
    /// When set, the pass renders into a blended output with this mask, blend
    /// state and depth behavior; when unset it writes an opaque, depth-tested
    /// output.
    pub transparency: Option<(ColorMask, Blend, Option<DepthMode>)>,
}

impl Default for DrawTriplanar {
    /// A pass with transparency disabled.
    fn default() -> (d: DrawTriplanar)
        ensures
            d.transparency is None,
    {
        DrawTriplanar { transparency: None }
    }
}

impl DrawTriplanar {
    /// Create an instance of the pass, with transparency disabled.
    pub fn new() -> (d: DrawTriplanar)
        ensures
            d.transparency is None,
    {
        Default::default()
    }

    /// Enable transparency.
    pub fn with_transparency(
        self,
        mask: ColorMask,
        blend: Blend,
        depth: Option<DepthMode>,
    ) -> (d: DrawTriplanar)
        ensures
            d.transparency == Some((mask, blend, depth)),
    {
        let mut d = self;
        d.transparency = Some((mask, blend, depth));
        d
    }

    /// Describe the effect this pass needs, for a vertex format that answers
    /// the position-normal-texcoord query: bind that vertex layout, set the
    /// tri-planar texture list up once per projection plane, and write to a
    /// blended or a plain depth-writing output according to the transparency
    /// setting.
    pub fn compile(&self, vertex: &VertexFormat) -> (plan: EffectPlan)
        requires
            vertex.wf(),
            vertex.queries_pos_norm_tex(),
        ensures
            plan.vertex_attributes@ == vertex.attributes@,
            plan.vertex_stride == vertex.stride,
            plan.has_triplanar_textures(),
            plan.output == output_for(self.transparency),
    {
        let mut texture_sets: Vec<TextureSet> = Vec::new();
        texture_sets.push(Self::texture_set(TriplanarPlane::PlaneYZ));
        texture_sets.push(Self::texture_set(TriplanarPlane::PlaneXZ));
        texture_sets.push(Self::texture_set(TriplanarPlane::PlaneXY));
        let output = match self.transparency {
            Some((mask, blend, depth)) => OutputMode::Blended(mask, blend, depth),
            None => OutputMode::Plain(DepthMode::LessEqualWrite),
        };
        let plan = EffectPlan {
            vertex_attributes: vertex.attributes.clone(),
            vertex_stride: vertex.stride,
            texture_sets,
            output,
        };
        proof {
            assert(crate::effect::triplanar_planes().len() == 3);
            assert(forall|i: int|
                0 <= i < plan.texture_sets@.len() ==> (#[trigger] plan.texture_sets@[i]).plane
                    == crate::effect::triplanar_planes()[i]);
        }
        plan
    }

    /// The texture set the effect binds for one projection plane: the full
    /// tri-planar texture list.
    fn texture_set(plane: TriplanarPlane) -> (set: TextureSet)
        ensures
            set.plane == plane,
            set.textures@ == crate::effect::triplanar_textures(),
    {
        let mut textures: Vec<TextureKind> = Vec::new();
        textures.push(TextureKind::Albedo);
        textures.push(TextureKind::Emission);
        textures.push(TextureKind::Normal);
        proof {
            assert(textures@ =~= crate::effect::triplanar_textures());
        }
        TextureSet { plane, textures }
    }

    /// Emit this frame's draw calls. With no visibility resource the pass
    /// sweeps every entity and draws those with a mesh, a material and a
    /// transform that are not hidden. With one it first sweeps the visible
    /// set the same way, hidden markers ignored, then walks the ordered
    /// (back-to-front) list and draws every listed entity that has a mesh,
    /// passing along whatever material and transform it has.
    pub fn apply(&self, data: &PassData) -> (calls: Vec<DrawCall>)
        ensures
            calls@ == frame_calls(*data),
    {
        let mut calls: Vec<DrawCall> = Vec::new();
        let n = data.mesh.len();
        match &data.visibility {
            None => {
                let mut e: usize = 0;
                while e < n
                    invariant
                        e <= n,
                        n == data.mesh@.len(),
                        data.visibility is None,
                        calls@ == unhidden_calls(*data, e as int),
                    decreases n - e,
                {
                    if data.mesh.has(e) && data.material.has(e) && data.global.has(e)
                        && !data.hidden.contains(e) && !data.hidden_propagate.contains(e) {
                        calls.push(DrawCall {
                            entity: e,
                            mesh: data.mesh.read(e),
                            material: Some(data.material.read(e)),
                            global: Some(data.global.read(e)),
                        });
                    }
                    e = e + 1;
                }
            },
            Some(vis) => {
                let mut e: usize = 0;
                while e < n
                    invariant
                        e <= n,
                        n == data.mesh@.len(),
                        data.visibility == Some(*vis),
                        calls@ == visible_unordered_calls(*data, *vis, e as int),
                    decreases n - e,
                {
                    if data.mesh.has(e) && data.material.has(e) && data.global.has(e)
                        && vis.visible_unordered.contains(e) {
                        calls.push(DrawCall {
                            entity: e,
                            mesh: data.mesh.read(e),
                            material: Some(data.material.read(e)),
                            global: Some(data.global.read(e)),
                        });
                    }
                    e = e + 1;
                }
                let m = vis.visible_ordered.len();
                let mut k: usize = 0;
                while k < m
                    invariant
                        k <= m,
                        n == data.mesh@.len(),
                        m == vis.visible_ordered@.len(),
                        data.visibility == Some(*vis),
                        calls@ == visible_unordered_calls(*data, *vis, n as int) + ordered_calls(
                            *data,
                            vis.visible_ordered@,
                            k as int,
                        ),
                    decreases m - k,
                {
                    let entity = vis.visible_ordered[k];
                    if data.mesh.has(entity) {
                        calls.push(DrawCall {
                            entity,
                            mesh: data.mesh.read(entity),
                            material: data.material.get(entity),
                            global: data.global.get(entity),
                        });
                    }
                    k = k + 1;
                }
            },
        }
        calls
    }
}

} // verus!
