//! Typed vertex data held in device buffers: attribute encodings, vertex layouts,
//! typed and type-erased vertex buffers, and the invalidation of the vertex-array
//! cache when a buffer is destroyed.
pub mod attribute;
pub mod context;
pub mod vertex_buffer;
