//! A typed client for a hierarchical, resource-oriented HTTP API in the
//! style of the Kubernetes REST conventions: resources are grouped by API
//! group and version, addressed by kind name, and are either
//! cluster-scoped or namespace-scoped.
//!
//! The crate covers connection and authentication bootstrapping, resource
//! path construction, the generic request/response pipeline, and the
//! error taxonomy. The catalog of per-resource data structures mirrors
//! the wire schema field for field and carries no behaviour of its own.
pub mod api;
pub mod apimachinery;
pub mod client;
pub mod config;
pub mod encoding;
pub mod http;

pub use client::{KubeClient, RequestError, RequestResult};
pub use config::{AuthConfig, ClientConfig};
