use vstd::prelude::*;

use crate::api::core_v1::{ConditionStatus, PersistentVolumeClaim};
use crate::api::pod::PodTemplateSpec;
use crate::api::{KubeKind, List};
use crate::apimachinery::meta_v1::{LabelSelector, ObjectMeta, Time, TypeMeta};
use crate::apimachinery::util::IntOrString;

verus! {

pub struct Deployment {
    pub type_meta: TypeMeta,
    pub metadata: ObjectMeta,
    pub spec: DeploymentSpec,
    pub status: DeploymentStatus,
}

impl KubeKind for Deployment {
    open spec fn spec_kind_name() -> Seq<char> {
        "deployments"@
    }

    open spec fn spec_api_group() -> Seq<char> {
        "apps"@
    }

    open spec fn spec_api_version() -> Seq<char> {
        "v1"@
    }

    type List = List<Deployment>;

    fn kind_name() -> &'static str {
        "deployments"
    }

    fn api_group() -> &'static str {
        "apps"
    }

    fn api_version() -> &'static str {
        "v1"
    }
}

pub struct DeploymentSpec {
    pub replicas: Option<i32>,
    pub selector: Option<LabelSelector>,
    pub template: PodTemplateSpec,
    pub strategy: DeploymentStrategy,
    pub min_ready_seconds: i32,
    pub revision_history_limit: Option<i32>,
    pub paused: bool,
    pub progress_deadline_seconds: Option<i32>,
}

pub type DeploymentStrategyType = String;

pub struct DeploymentStrategy {
    pub strategy_type: DeploymentStrategyType,
    pub rolling_update: Option<RollingUpdateDeployment>,
}

pub struct RollingUpdateDeployment {
    pub max_unavailable: Option<IntOrString>,
    pub max_surge: Option<IntOrString>,
}

pub struct DeploymentStatus {
    pub observed_generation: i64,
    pub replicas: i32,
    pub updated_replicas: i32,
    pub ready_replicas: i32,
    pub available_replicas: i32,
    pub unavailable_replicas: i32,
    pub collision_count: Option<i32>,
    pub conditions: Vec<DeploymentCondition>,
}

pub type DeploymentConditionType = String;

pub struct DeploymentCondition {
    pub condition_type: DeploymentConditionType,
    pub status: ConditionStatus,
    pub last_transition_time: Option<Time>,
    pub last_update_time: Option<Time>,
    pub reason: String,
    pub message: String,
}

pub struct StatefulSet {
    pub type_meta: TypeMeta,
    pub metadata: ObjectMeta,
    pub spec: StatefulSetSpec,
    pub status: StatefulSetStatus,
}

impl KubeKind for StatefulSet {
    open spec fn spec_kind_name() -> Seq<char> {
        "statefulsets"@
    }

    open spec fn spec_api_group() -> Seq<char> {
        "apps"@
    }

    open spec fn spec_api_version() -> Seq<char> {
        "v1"@
    }

    type List = List<StatefulSet>;

    fn kind_name() -> &'static str {
        "statefulsets"
    }

    fn api_group() -> &'static str {
        "apps"
    }

    fn api_version() -> &'static str {
        "v1"
    }
}

pub type PodManagementPolicyType = String;

pub struct StatefulSetSpec {
    pub replicas: Option<i32>,
    pub selector: Option<LabelSelector>,
    pub template: PodTemplateSpec,
    pub volume_claim_templates: Vec<PersistentVolumeClaim>,
    pub service_name: String,
    pub pod_management_policy: PodManagementPolicyType,
    pub update_strategy: StatefulSetUpdateStrategy,
    pub revision_history_limit: Option<i32>,
}

pub type StatefulSetUpdateStrategyType = String;

pub struct StatefulSetUpdateStrategy {
    pub strategy_type: StatefulSetUpdateStrategyType,
    pub rolling_update: Option<RollingUpdateStatefulSetStrategy>,
}

impl Default for StatefulSetUpdateStrategy {
    /// The default update strategy is a rolling update with no partition.
    fn default() -> (r: Self)
        ensures
            r.strategy_type@ == "RollingUpdate"@,
            r.rolling_update is None,
    {
        StatefulSetUpdateStrategy {
            strategy_type: String::from_str("RollingUpdate"),
            rolling_update: None,
        }
    }
}

pub struct RollingUpdateStatefulSetStrategy {
    pub partition: Option<i32>,
}

pub struct StatefulSetStatus {
    pub observed_generation: i64,
    pub replicas: i32,
    pub ready_replicas: i32,
    pub current_replicas: i32,
    pub updated_replicas: i32,
    pub current_revision: String,
    pub update_revision: String,
    pub collision_count: Option<i32>,
    pub conditions: Vec<StatefulSetCondition>,
}

pub type StatefulSetConditionType = String;

pub struct StatefulSetCondition {
    pub condition_type: StatefulSetConditionType,
    pub status: ConditionStatus,
    pub last_transition_time: Option<Time>,
    pub reason: String,
    pub message: String,
}

} // verus!
