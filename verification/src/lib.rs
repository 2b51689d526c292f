//! A tri-planar shading pass for an entity-component world, reduced to the
//! decisions the pass itself makes each frame.
//!
//! The pass does two things. When a pipeline is built it describes the effect
//! it needs: a vertex layout, constant buffers, one texture set per projection
//! plane, and an output mode that depends on whether transparency was enabled
//! ([`triplanar::DrawTriplanar::compile`]). Every frame it walks the world's
//! component storages and decides which meshes to draw and with which material
//! and transform ([`triplanar::DrawTriplanar::apply`]). Both decisions are
//! pure functions of plain data and are specified and verified here; binding
//! the resulting plan and draw calls to a graphics backend is the caller's
//! work.

pub mod ecs;
pub mod effect;
pub mod state;
pub mod triplanar;
pub mod vertex;
