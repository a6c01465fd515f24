//! Vendoring of third-party dependencies into a monorepository: the
//! dependency record, the ordering of local patches, and the workflow that
//! re-applies them after the upstream revision has moved.

pub mod paths;
pub mod text;
pub mod sequencer;
pub mod record;
pub mod protocol;
pub mod workflow;
pub mod laws;
pub mod vendor;
pub mod extract;
