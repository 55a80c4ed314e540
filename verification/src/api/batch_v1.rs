use vstd::prelude::*;

use crate::api::core_v1::ConditionStatus;
use crate::api::pod::PodTemplateSpec;
use crate::api::{KubeKind, List};
use crate::apimachinery::meta_v1::{LabelSelector, ObjectMeta, Time, TypeMeta};

verus! {

pub struct Job {
    pub type_meta: TypeMeta,
    pub metadata: ObjectMeta,
    pub spec: JobSpec,
    pub status: JobStatus,
}

impl KubeKind for Job {
    open spec fn spec_kind_name() -> Seq<char> {
        "jobs"@
    }

    open spec fn spec_api_group() -> Seq<char> {
        "batch"@
    }

    open spec fn spec_api_version() -> Seq<char> {
        "v1"@
    }

    type List = List<Job>;

    fn kind_name() -> &'static str {
        "jobs"
    }

    fn api_group() -> &'static str {
        "batch"
    }

    fn api_version() -> &'static str {
        "v1"
    }
}

pub struct JobSpec {
    pub parallelism: Option<i32>,
    pub completions: Option<i32>,
    pub active_deadline_seconds: Option<i32>,
    pub backoff_limit: Option<i32>,
    pub selector: Option<LabelSelector>,
    pub manual_selector: Option<bool>,
    pub template: PodTemplateSpec,
}

pub struct JobStatus {
    pub conditions: Vec<JobCondition>,
    pub start_time: Option<Time>,
    pub completion_time: Option<Time>,
    pub active: i32,
    pub succeeded: i32,
    pub failed: i32,
}

pub type JobConditionType = String;

pub struct JobCondition {
    pub condition_type: JobConditionType,
    pub status: ConditionStatus,
    pub last_transition_time: Option<Time>,
    pub last_probe_time: Option<Time>,
    pub reason: String,
    pub message: String,
}

} // verus!
