use std::collections::HashMap;
use vstd::prelude::*;

verus! {

/// A point in time, carried as the RFC 3339 text the wire format uses.
pub struct Time {
    pub rfc3339: String,
}

/// A unique identifier, carried as its canonical text form.
pub type Uid = String;

/// Metadata that every persisted resource object carries.
pub struct ObjectMeta {
    pub name: String,
    pub generate_name: String,
    pub namespace: String,
    pub self_link: String,
    pub uid: Uid,
    pub resource_version: String,
    pub generation: i64,
    pub creation_timestamp: Option<Time>,
    pub deletion_timestamp: Option<Time>,
    pub deletion_grace_period_seconds: Option<i64>,
    pub labels: HashMap<String, String>,
    pub annotations: HashMap<String, String>,
    pub owner_references: Vec<OwnerReference>,
    pub initializers: Option<Initializers>,
    pub finalizers: Vec<String>,
    pub cluster_name: String,
}

pub struct Initializers {
    pub pending: Vec<Initializer>,
    pub result: Option<Status>,
}

pub struct Initializer {
    pub name: String,
}

pub struct OwnerReference {
    pub api_version: String,
    pub kind: String,
    pub name: String,
    pub uid: Uid,
    pub controller: Option<bool>,
    pub block_owner_deletion: Option<bool>,
}

/// Metadata that every list response carries.
pub struct ListMeta {
    pub resource_version: String,
    pub self_link: String,
    pub _continue: String,
}

/// The kind and API version of an object, as the wire format names them.
pub struct TypeMeta {
    pub kind: String,
    pub api_version: String,
}

pub struct LabelSelector {
    pub match_labels: HashMap<String, String>,
    pub match_expressions: Vec<LabelSelectorRequirement>,
}

pub type LabelSelectorOperator = String;

pub struct LabelSelectorRequirement {
    pub key: String,
    pub operator: LabelSelectorOperator,
    pub values: Vec<String>,
}

pub type CauseType = String;

pub struct StatusCause {
    pub cause: CauseType,
    pub message: String,
    pub field: String,
}

pub struct StatusDetails {
    pub name: String,
    pub group: String,
    pub kind: String,
    pub uid: Option<Uid>,
    pub causes: Vec<StatusCause>,
    pub retry_after_seconds: i32,
}

pub type StatusReason = String;

/// A status response returned for API operations that do not return an
/// object.
pub struct Status {
    pub type_meta: TypeMeta,
    pub metadata: Option<ListMeta>,
    pub status: String,
    pub message: String,
    pub reason: StatusReason,
    pub details: Option<StatusDetails>,
    pub code: i32,
}

pub struct GroupVersionResource {
    pub group: String,
    pub version: String,
    pub resource: String,
}

pub struct GroupVersionKind {
    pub group: String,
    pub version: String,
    pub kind: String,
}

} // verus!
