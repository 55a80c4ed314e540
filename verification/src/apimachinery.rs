//! Shared machinery of the wire schema: object and list metadata, group
//! and version records, label selectors, and the int-or-string scalar.
pub mod meta_v1;
pub mod resource;
pub mod util;
