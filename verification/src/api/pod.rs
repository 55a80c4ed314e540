use std::collections::HashMap;
use vstd::prelude::*;

use crate::api::core_v1::{ConditionStatus, ResourceRequirements};
use crate::api::{KubeKind, List};
use crate::apimachinery::meta_v1::{LabelSelector, ObjectMeta, Time, TypeMeta};
use crate::apimachinery::util::IntOrString;

verus! {

pub struct Pod {
    pub type_meta: TypeMeta,
    pub metadata: ObjectMeta,
    pub spec: PodSpec,
    pub status: PodStatus,
}

impl KubeKind for Pod {
    open spec fn spec_kind_name() -> Seq<char> {
        "pods"@
    }

    open spec fn spec_api_group() -> Seq<char> {
        "core"@
    }

    open spec fn spec_api_version() -> Seq<char> {
        "v1"@
    }

    type List = List<Pod>;

    fn kind_name() -> &'static str {
        "pods"
    }

    fn api_group() -> &'static str {
        "core"
    }

    fn api_version() -> &'static str {
        "v1"
    }
}

pub type PodPhase = String;

pub type PodQOSClass = String;

pub struct PodStatus {
    pub phase: PodPhase,
    pub conditions: Vec<PodCondition>,
    pub message: String,
    pub reason: String,
    pub nominated_node_name: String,
    pub host_ip: String,
    pub pod_ip: String,
    pub start_time: Option<Time>,
    pub init_container_statuses: Vec<ContainerStatus>,
    pub container_statuses: Vec<ContainerStatus>,
    pub qos_class: PodQOSClass,
}

pub type PodConditionType = String;

pub struct PodCondition {
    pub condition_type: PodConditionType,
    pub status: ConditionStatus,
    pub last_probe_time: Option<Time>,
    pub last_transition_time: Option<Time>,
    pub reason: String,
    pub message: String,
}

pub struct ContainerStatus {
    pub name: String,
    pub state: ContainerState,
    pub last_termination_state: ContainerState,
    pub ready: bool,
    pub restart_count: i32,
    pub image: String,
    pub image_id: String,
    pub container_id: String,
}

pub struct ContainerState {
    pub waiting: Option<ContainerStateWaiting>,
    pub running: Option<ContainerStateRunning>,
    pub terminated: Option<ContainerStateTerminated>,
}

pub struct ContainerStateWaiting {
    pub reason: String,
    pub message: String,
}

pub struct ContainerStateRunning {
    pub started_at: Option<Time>,
}

pub struct ContainerStateTerminated {
    pub exit_code: i32,
    pub signal: i32,
    pub reason: String,
    pub message: String,
    pub started_at: Option<Time>,
    pub finished_at: Option<Time>,
    pub container_id: String,
}

pub type DnsPolicy = String;

pub type RestartPolicy = String;

pub struct PodSpec {
    pub volumes: Vec<Volume>,
    pub init_containers: Vec<Container>,
    pub containers: Vec<Container>,
    pub restart_policy: RestartPolicy,
    pub termination_grace_period_seconds: Option<i64>,
    pub active_deadline_seconds: Option<i64>,
    pub dns_policy: DnsPolicy,
    pub node_selector: HashMap<String, String>,
    pub service_account_name: String,
    pub deprecated_service_account: String,
    pub automount_service_account_token: Option<bool>,
    pub node_name: String,
    pub host_network: bool,
    pub host_pid: bool,
    pub host_ipc: bool,
    pub share_process_namespace: Option<bool>,
    pub security_context: Option<PodSecurityContext>,
    pub image_pull_secrets: Vec<LocalObjectReference>,
    pub hostname: String,
    pub subdomain: String,
    pub affinity: Option<Affinity>,
    pub scheduler_name: String,
    pub tolerations: Vec<Toleration>,
    pub host_aliases: Vec<HostAlias>,
    pub priority_class_name: String,
    pub priority: Option<i32>,
    pub dns_config: Option<PodDnsConfig>,
}

pub struct Volume {
    pub name: String,
    pub source: VolumeSource,
}

pub type HostPathType = String;

pub type StorageMedium = String;

pub struct KeyToPath {
    pub key: String,
    pub path: String,
    pub mode: Option<i32>,
}

pub enum VolumeSource {
    HostPath { path: String, type_: Option<String> },
    EmptyDir { medium: StorageMedium },
    Secret {
        secret_name: String,
        items: Vec<KeyToPath>,
        default_mode: Option<i32>,
        optional: Option<bool>,
    },
    PersistentVolumeClaim { claim_name: String, read_only: bool },
    DownwardApi,
    ConfigMap {
        reference: LocalObjectReference,
        items: Vec<KeyToPath>,
        default_mode: Option<i32>,
        optional: Option<bool>,
    },
    Projected,
}

pub type TerminationMessagePolicy = String;

pub type PullPolicy = String;

pub struct Container {
    pub name: String,
    pub image: String,
    pub command: Vec<String>,
    pub args: Vec<String>,
    pub working_dir: String,
    pub ports: Vec<ContainerPort>,
    pub env_from: Vec<EnvFromSource>,
    pub env: Vec<EnvVar>,
    pub resources: Option<ResourceRequirements>,
    pub volume_mounts: Vec<VolumeMount>,
    pub volume_devices: Vec<VolumeDevice>,
    pub liveness_probe: Option<Probe>,
    pub readiness_probe: Option<Probe>,
    pub lifecycle: Option<Lifecycle>,
    pub termination_message_path: String,
    pub termination_message_policy: Option<TerminationMessagePolicy>,
    pub image_pull_policy: Option<PullPolicy>,
    pub security_context: Option<SecurityContext>,
    pub stdin: bool,
    pub stdin_once: bool,
    pub tty: bool,
}

pub type Protocol = String;

pub struct ContainerPort {
    pub name: String,
    pub host_port: Option<i32>,
    pub container_port: i32,
    pub protocol: Protocol,
    pub host_ip: String,
}

pub struct EnvFromSource {
    pub prefix: String,
    pub config_map_ref: Option<ConfigMapEnvSource>,
    pub secret_ref: Option<SecretEnvSource>,
}

pub struct ConfigMapEnvSource {
    pub reference: LocalObjectReference,
    pub optional: bool,
}

pub struct SecretEnvSource {
    pub reference: LocalObjectReference,
    pub optional: bool,
}

pub struct LocalObjectReference {
    pub name: String,
}

pub struct EnvVar {
    pub name: String,
    pub value: String,
    pub value_from: Option<EnvVarSource>,
}

pub enum EnvVarSource {
    FieldRef(ObjectFieldSelector),
    ResourceFieldRef(ResourceFieldSelector),
    ConfigMapKeyRef(ConfigMapKeySelector),
    SecretKeyRef(SecretKeySelector),
}

pub struct ObjectFieldSelector {
    pub api_version: String,
    pub field_path: String,
}

pub struct ResourceFieldSelector {
    pub container_name: String,
    pub resource: String,
}

pub struct ConfigMapKeySelector {
    pub reference: LocalObjectReference,
    pub key: String,
    pub optional: bool,
}

pub struct SecretKeySelector {
    pub reference: LocalObjectReference,
    pub key: String,
    pub optional: bool,
}

pub type MountPropagationMode = String;

pub struct VolumeMount {
    pub name: String,
    pub read_only: bool,
    pub mount_path: String,
    pub sub_path: String,
    pub mount_propagation: MountPropagationMode,
}

pub struct VolumeDevice {
    pub name: String,
    pub device_path: String,
}

pub struct Probe {
    pub handler: Handler,
    pub initial_delay_seconds: Option<i32>,
    pub timeout_seconds: Option<i32>,
    pub period_seconds: Option<i32>,
    pub success_threshold: Option<i32>,
    pub failure_threshold: Option<i32>,
}

pub type UriScheme = String;

pub enum Handler {
    Exec { command: Vec<String> },
    HttpGet {
        path: String,
        port: IntOrString,
        host: String,
        scheme: UriScheme,
        http_headers: Vec<HttpHeader>,
    },
    TcpSocket { port: IntOrString, host: String },
}

pub struct HttpHeader {
    pub name: String,
    pub value: String,
}

pub struct Lifecycle {
    pub post_start: Option<Handler>,
    pub pre_stop: Option<Handler>,
}

pub struct SecurityContext {
    pub capabilities: Option<Capabilities>,
    pub host_network: Option<bool>,
    pub se_linux_options: Option<SeLinuxOptions>,
    pub run_as_user: Option<i64>,
    pub run_as_group: Option<i64>,
    pub run_as_non_root: Option<bool>,
    pub read_only_root_filesystem: Option<bool>,
    pub allow_privilege_escalaltion: Option<bool>,
}

pub type Capability = String;

pub struct Capabilities {
    pub add: Vec<Capability>,
    pub drop: Vec<Capability>,
}

pub struct SeLinuxOptions {
    pub user: String,
    pub role: String,
    pub selinux_type: String,
    pub level: String,
}

pub struct PodSecurityContext {
    pub se_linux_options: Option<SeLinuxOptions>,
    pub run_as_user: Option<i64>,
    pub run_as_group: Option<i64>,
    pub run_as_non_root: Option<bool>,
    pub supplemental_groups: Vec<i64>,
    pub fs_groups: Option<i64>,
}

pub struct Affinity {
    pub node_affinity: Option<NodeAffinity>,
    pub pod_affinity: Option<PodAffinity>,
    pub pod_anti_affinity: Option<PodAntiAffinity>,
}

pub struct NodeAffinity {
    pub required_during_scheduling_ignored_during_execution: Option<NodeSelector>,
    pub preferred_during_scheduling_ignored_during_execution: Vec<PreferredSchedulingTerm>,
}

pub struct NodeSelector {
    pub node_selector_terms: Vec<NodeSelectorTerm>,
}

pub struct NodeSelectorTerm {
    pub match_expressions: Vec<NodeSelectorRequirement>,
}

pub type NodeSelectorOperator = String;

pub struct NodeSelectorRequirement {
    pub key: String,
    pub operator: NodeSelectorOperator,
    pub values: Vec<String>,
}

pub struct PreferredSchedulingTerm {
    pub weight: i32,
    pub preference: NodeSelectorTerm,
}

pub struct PodAffinity {
    pub required_during_scheduling_ignored_during_execution: Vec<PodAffinityTerm>,
    pub preferred_during_scheduling_ignored_during_execution: Vec<WeightedPodAffinityTerm>,
}

pub struct PodAntiAffinity {
    pub required_during_scheduling_ignored_during_execution: Vec<PodAffinityTerm>,
    pub preferred_during_scheduling_ignored_during_execution: Vec<WeightedPodAffinityTerm>,
}

pub struct PodAffinityTerm {
    pub label_selector: Option<LabelSelector>,
    pub namespaces: Vec<String>,
    pub topology_key: String,
}

pub struct WeightedPodAffinityTerm {
    pub weight: i32,
    pub pod_affinity_term: PodAffinityTerm,
}

pub type TolerationOperator = String;

pub type TaintEffect = String;

pub struct Toleration {
    pub key: String,
    pub operation: TolerationOperator,
    pub value: String,
    pub effect: TaintEffect,
    pub toleration_seconds: Option<i64>,
}

pub struct HostAlias {
    pub ip: String,
    pub hostnames: Vec<String>,
}

pub struct PodDnsConfig {
    pub nameservers: Vec<String>,
    pub searches: Vec<String>,
    pub options: Vec<PodDnsConfigOption>,
}

pub struct PodDnsConfigOption {
    pub name: String,
    pub value: String,
}

pub struct PodTemplateSpec {
    pub metadata: ObjectMeta,
    pub spec: PodSpec,
}

} // verus!
