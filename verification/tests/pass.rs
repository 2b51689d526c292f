use triplanar_pass::ecs::{EntitySet, Storage};
use triplanar_pass::effect::{OutputMode, TextureKind, TriplanarPlane};
use triplanar_pass::state::{Blend, BlendValue, ColorMask, DepthMode, Equation, Factor};
use triplanar_pass::triplanar::{
    DrawCall, DrawTriplanar, GlobalTransform, MeshHandle, PassData, TriplanarMaterial, Visibility,
};
use triplanar_pass::vertex::{Attribute, AttributeKind, VertexFormat};

fn mesh(id: u64) -> MeshHandle {
    MeshHandle { id }
}

fn material(id: u64) -> TriplanarMaterial {
    TriplanarMaterial { id }
}

fn transform(token: u64) -> GlobalTransform {
    GlobalTransform { token }
}

/// A world of `n` entities where every entity below `full` has a mesh, a
/// material and a transform, numbered after the entity.
fn full_world(n: usize, full: usize) -> PassData {
    let mut meshes: Storage<MeshHandle> = Storage::new(n);
    let mut materials: Storage<TriplanarMaterial> = Storage::new(n);
    let mut globals: Storage<GlobalTransform> = Storage::new(n);
    for e in 0..full {
        meshes.set(e, mesh(100 + e as u64));
        materials.set(e, material(200 + e as u64));
        globals.set(e, transform(300 + e as u64));
    }
    PassData {
        mesh: meshes,
        material: materials,
        global: globals,
        hidden: EntitySet::new(n),
        hidden_propagate: EntitySet::new(n),
        visibility: None,
    }
}

fn joined_call(e: usize) -> DrawCall {
    DrawCall {
        entity: e,
        mesh: mesh(100 + e as u64),
        material: Some(material(200 + e as u64)),
        global: Some(transform(300 + e as u64)),
    }
}

#[test]
fn new_has_no_transparency() {
    let pass = DrawTriplanar::new();
    assert!(pass.transparency.is_none());
}

#[test]
fn default_has_no_transparency() {
    let pass: DrawTriplanar = Default::default();
    assert!(pass.transparency.is_none());
}

#[test]
fn color_mask_all_writes_every_channel() {
    let m = ColorMask::all();
    assert_eq!(m, ColorMask { red: true, green: true, blue: true, alpha: true });
}

#[test]
fn with_transparency_stores_the_setting() {
    let mask = ColorMask::all();
    let blend = Blend::alpha_blending();
    let pass = DrawTriplanar::new().with_transparency(mask, blend, Some(DepthMode::LessEqualTest));
    assert_eq!(pass.transparency, Some((mask, blend, Some(DepthMode::LessEqualTest))));
}

#[test]
fn pos_norm_tex_layout() {
    let v = VertexFormat::pos_norm_tex();
    assert_eq!(v.stride, 32);
    assert_eq!(
        v.attributes,
        vec![
            Attribute { kind: AttributeKind::Position, offset: 0, size: 12 },
            Attribute { kind: AttributeKind::Normal, offset: 12, size: 12 },
            Attribute { kind: AttributeKind::TexCoord, offset: 24, size: 8 },
        ]
    );
}

#[test]
fn compile_opaque_by_default() {
    let v = VertexFormat::pos_norm_tex();
    let plan = DrawTriplanar::new().compile(&v);
    assert_eq!(plan.output, OutputMode::Plain(DepthMode::LessEqualWrite));
    assert_eq!(plan.vertex_stride, 32);
    assert_eq!(plan.vertex_attributes, v.attributes);
}

#[test]
fn compile_blended_with_transparency() {
    let v = VertexFormat::pos_norm_tex();
    let mask = ColorMask { red: true, green: true, blue: true, alpha: false };
    let blend = Blend::new(Equation::Add, Factor::One, Factor::ZeroPlus(BlendValue::DestAlpha));
    let plan = DrawTriplanar::new().with_transparency(mask, blend, None).compile(&v);
    assert_eq!(plan.output, OutputMode::Blended(mask, blend, None));
}

#[test]
fn compile_sets_up_three_texture_planes() {
    let v = VertexFormat::pos_norm_tex();
    let plan = DrawTriplanar::new().compile(&v);
    assert_eq!(plan.texture_sets.len(), 3);
    let planes: Vec<TriplanarPlane> = plan.texture_sets.iter().map(|s| s.plane).collect();
    assert_eq!(
        planes,
        vec![TriplanarPlane::PlaneYZ, TriplanarPlane::PlaneXZ, TriplanarPlane::PlaneXY]
    );
    for set in &plan.texture_sets {
        assert_eq!(
            set.textures,
            vec![TextureKind::Albedo, TextureKind::Emission, TextureKind::Normal]
        );
    }
}

#[test]
fn alpha_blending_values() {
    let b = Blend::alpha_blending();
    assert_eq!(b.color.equation, Equation::Add);
    assert_eq!(b.color.source, Factor::ZeroPlus(BlendValue::SourceAlpha));
    assert_eq!(b.color.destination, Factor::OnePlus(BlendValue::SourceAlpha));
    assert_eq!(b.alpha, b.color);
}

#[test]
fn apply_draws_joined_entities_in_order() {
    let data = full_world(4, 4);
    let calls = DrawTriplanar::new().apply(&data);
    assert_eq!(calls, vec![joined_call(0), joined_call(1), joined_call(2), joined_call(3)]);
}

#[test]
fn apply_skips_entities_missing_a_component() {
    let mut data = full_world(4, 3);
    // entity 3 has nothing; entity 1 loses its material by never getting one
    let mut materials: Storage<TriplanarMaterial> = Storage::new(4);
    materials.set(0, material(200));
    materials.set(2, material(202));
    data.material = materials;
    let calls = DrawTriplanar::new().apply(&data);
    let entities: Vec<usize> = calls.iter().map(|c| c.entity).collect();
    assert_eq!(entities, vec![0, 2]);
}

#[test]
fn apply_skips_hidden_entities() {
    let mut data = full_world(4, 4);
    data.hidden.insert(1);
    data.hidden_propagate.insert(3);
    let calls = DrawTriplanar::new().apply(&data);
    let entities: Vec<usize> = calls.iter().map(|c| c.entity).collect();
    assert_eq!(entities, vec![0, 2]);
}

#[test]
fn apply_with_visibility_draws_only_the_visible_set() {
    let mut data = full_world(4, 4);
    let mut visible = EntitySet::new(4);
    visible.insert(1);
    visible.insert(2);
    data.visibility =
        Some(Visibility { visible_unordered: visible, visible_ordered: Vec::new() });
    let calls = DrawTriplanar::new().apply(&data);
    assert_eq!(calls, vec![joined_call(1), joined_call(2)]);
}

#[test]
fn apply_with_visibility_ignores_hidden_markers() {
    let mut data = full_world(2, 2);
    data.hidden.insert(0);
    data.hidden_propagate.insert(1);
    let mut visible = EntitySet::new(2);
    visible.insert(0);
    visible.insert(1);
    data.visibility =
        Some(Visibility { visible_unordered: visible, visible_ordered: Vec::new() });
    let calls = DrawTriplanar::new().apply(&data);
    let entities: Vec<usize> = calls.iter().map(|c| c.entity).collect();
    assert_eq!(entities, vec![0, 1]);
}

#[test]
fn apply_walks_the_ordered_list_in_list_order() {
    let mut data = full_world(4, 4);
    data.visibility = Some(Visibility {
        visible_unordered: EntitySet::new(4),
        visible_ordered: vec![3, 0, 2],
    });
    let calls = DrawTriplanar::new().apply(&data);
    let entities: Vec<usize> = calls.iter().map(|c| c.entity).collect();
    assert_eq!(entities, vec![3, 0, 2]);
    assert_eq!(calls[0], joined_call(3));
}

#[test]
fn ordered_list_skips_entities_without_a_mesh_and_defaults_the_rest() {
    let n = 3;
    let mut meshes: Storage<MeshHandle> = Storage::new(n);
    meshes.set(0, mesh(100));
    meshes.set(2, mesh(102));
    let materials: Storage<TriplanarMaterial> = Storage::new(n);
    let mut globals: Storage<GlobalTransform> = Storage::new(n);
    globals.set(2, transform(302));
    let data = PassData {
        mesh: meshes,
        material: materials,
        global: globals,
        hidden: EntitySet::new(n),
        hidden_propagate: EntitySet::new(n),
        visibility: Some(Visibility {
            visible_unordered: EntitySet::new(n),
            // entity 1 has no mesh and entity 9 lies past the end: both are skipped
            visible_ordered: vec![2, 1, 0, 9],
        }),
    };
    let calls = DrawTriplanar::new().apply(&data);
    assert_eq!(
        calls,
        vec![
            DrawCall {
                entity: 2,
                mesh: mesh(102),
                material: None,
                global: Some(transform(302)),
            },
            DrawCall { entity: 0, mesh: mesh(100), material: None, global: None },
        ]
    );
}

#[test]
fn unordered_sweep_comes_before_the_ordered_list() {
    let mut data = full_world(3, 3);
    let mut visible = EntitySet::new(3);
    visible.insert(2);
    data.visibility =
        Some(Visibility { visible_unordered: visible, visible_ordered: vec![0] });
    let calls = DrawTriplanar::new().apply(&data);
    let entities: Vec<usize> = calls.iter().map(|c| c.entity).collect();
    assert_eq!(entities, vec![2, 0]);
}

#[test]
fn apply_on_an_empty_world_draws_nothing() {
    let data = full_world(0, 0);
    let calls = DrawTriplanar::new().apply(&data);
    assert!(calls.is_empty());
}

#[test]
fn storage_set_get_has() {
    let mut s: Storage<MeshHandle> = Storage::new(2);
    assert!(!s.has(0));
    assert_eq!(s.get(0), None);
    s.set(0, mesh(5));
    assert!(s.has(0));
    assert_eq!(s.get(0), Some(mesh(5)));
    assert_eq!(s.read(0), mesh(5));
    assert_eq!(s.get(7), None);
    assert!(!s.has(7));
    assert_eq!(s.len(), 2);
}

#[test]
fn entity_set_insert_contains() {
    let mut s = EntitySet::new(3);
    assert!(!s.contains(1));
    s.insert(1);
    assert!(s.contains(1));
    assert!(!s.contains(0));
    assert!(!s.contains(9));
}
