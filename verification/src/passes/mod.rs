//! Migration passes that rewrite compiled templates: deduplication,
//! grouping and reordering of components.

pub mod common;
pub mod names;
pub mod deduplicate;
pub mod grouping;
pub mod reorder;
pub mod type_overrides;
pub mod pipeline;
