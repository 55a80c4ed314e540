use std::collections::HashMap;
use vstd::prelude::*;

use crate::api::{KubeKind, List};
use crate::apimachinery::meta_v1::{LabelSelector, ObjectMeta, Time, TypeMeta};
use crate::apimachinery::resource::ResourceList;

verus! {

pub type FinalizerName = String;

pub type NamespacePhase = String;

pub struct NamespaceSpec {
    pub finalizers: Vec<FinalizerName>,
}

pub struct NamespaceStatus {
    pub phase: NamespacePhase,
}

pub struct Namespace {
    pub type_meta: TypeMeta,
    pub metadata: ObjectMeta,
    pub spec: NamespaceSpec,
    pub status: NamespaceStatus,
}

impl KubeKind for Namespace {
    open spec fn spec_kind_name() -> Seq<char> {
        "namespaces"@
    }

    open spec fn spec_api_group() -> Seq<char> {
        "core"@
    }

    open spec fn spec_api_version() -> Seq<char> {
        "v1"@
    }

    type List = List<Namespace>;

    fn kind_name() -> &'static str {
        "namespaces"
    }

    fn api_group() -> &'static str {
        "core"
    }

    fn api_version() -> &'static str {
        "v1"
    }
}

pub type ConditionStatus = String;

pub type PersistentVolumeAccessMode = String;

pub type PersistentVolumeMode = String;

pub struct PersistentVolumeClaim {
    pub type_meta: TypeMeta,
    pub metadata: ObjectMeta,
    pub spec: PersistentVolumeClaimSpec,
    pub status: PersistentVolumeClaimStatus,
}

impl KubeKind for PersistentVolumeClaim {
    open spec fn spec_kind_name() -> Seq<char> {
        "persistentvolumeclaims"@
    }

    open spec fn spec_api_group() -> Seq<char> {
        "core"@
    }

    open spec fn spec_api_version() -> Seq<char> {
        "v1"@
    }

    type List = List<PersistentVolumeClaim>;

    fn kind_name() -> &'static str {
        "persistentvolumeclaims"
    }

    fn api_group() -> &'static str {
        "core"
    }

    fn api_version() -> &'static str {
        "v1"
    }
}

pub struct PersistentVolumeClaimSpec {
    pub access_modes: Vec<PersistentVolumeAccessMode>,
    pub selector: Option<LabelSelector>,
    pub resources: ResourceRequirements,
    pub volume_name: String,
    pub storage_class_name: String,
    pub volume_mode: Option<PersistentVolumeMode>,
}

pub struct ResourceRequirements {
    pub limits: ResourceList,
    pub requests: ResourceList,
}

pub type PersistentVolumeClaimPhase = String;

pub struct PersistentVolumeClaimStatus {
    pub phase: PersistentVolumeClaimPhase,
    pub access_modes: Vec<PersistentVolumeAccessMode>,
    pub capacity: ResourceList,
    pub conditions: Vec<PersistentVolumeClaimCondition>,
}

pub type PersistentVolumeClaimConditionType = String;

pub struct PersistentVolumeClaimCondition {
    pub condition_type: PersistentVolumeClaimConditionType,
    pub status: ConditionStatus,
    pub last_probe_time: Option<Time>,
    pub last_transition_time: Option<Time>,
    pub reason: String,
    pub message: String,
}

pub struct ObjectReference {
    pub kind: String,
    pub namespace: String,
    pub name: String,
    pub uid: String,
    pub api_version: String,
    pub resource_version: String,
    pub field_path: String,
}

} // verus!
