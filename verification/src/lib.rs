//! Ownership wrappers for polymorphic audio-processing nodes.
//!
//! An audio graph schedules many processing units ("nodes") of differing
//! concrete types and sizes. This crate provides the node capability
//! contract together with two owning wrapper types that turn a
//! heap-allocated node into a fixed-size, movable handle: `BoxedNode`
//! for single-threaded use, and `BoxedNodeSend` for nodes that must be
//! handed from the thread that builds the graph to the thread that runs
//! it. The wrappers forward `process` calls to the owned node unchanged;
//! that transparency is part of their contract.

pub mod buffer;
pub mod node;
pub mod boxed;
pub mod nodes;

pub use buffer::Buffer;
pub use buffer::BUFFER_LEN;
pub use node::Input;
pub use node::Node;
pub use boxed::BoxedNode;
pub use boxed::BoxedNodeSend;
