//! Projection layer of a static-site content pipeline.
//!
//! A central [`registry::Library`] owns every `Page` and `Section` record,
//! addressed by stable keys. The projection functions turn a record into a
//! detached, tree-shaped view for a template renderer, resolving one hop of
//! cross-references (siblings, ancestors, child pages) while bounding the
//! expansion depth so that the possibly cyclic link graph can never induce
//! unbounded recursion.

pub mod content;
pub mod extra;
pub mod lemmas;
pub mod registry;
pub mod ser;
