//! Immediate-mode line gizmos: drawing calls are encoded into per-group
//! point/color channels, merged at a flush point, compiled into line assets,
//! and expanded into instanced segments at draw time.
//!
//! The library is generic over the point type `P`, the color type `C` and the
//! asset handle type `H`, so that the encoding, merging and compiling rules
//! are stated and proved independently of how a vertex is represented or an
//! asset is stored.

pub mod buffer;
pub mod builders;
pub mod compile;
pub mod gizmos;
pub mod groups;
pub mod render;

pub use buffer::GizmoBuffer;
pub use builders::{Arc2dBuilder, Circle2dBuilder, CircleBuilder, SphereBuilder, DEFAULT_CIRCLE_SEGMENTS};
pub use compile::{update_channel, update_gizmo_meshes, ChannelUpdate, GizmoHandles, LineGizmo};
pub use gizmos::Gizmos;
pub use groups::{AppGizmoBuilder, GizmoGroup, GizmoPlugin, GizmoRegistry, DEFAULT_GIZMO_GROUP};
pub use render::{
    draw_line_gizmo, line_gizmo_vertex_buffer_layouts, strip_instance_mask, BufferSlice, DrawPlan,
    VertexAttribute, VertexBufferLayout, VertexFormat, VertexStepMode, VertexStream,
};
