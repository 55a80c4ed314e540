use vstd::prelude::*;

use crate::api::{KubeKind, List};
use crate::apimachinery::meta_v1::ObjectMeta;

verus! {

pub struct ClusterRole {
    pub metadata: ObjectMeta,
    pub rules: Vec<PolicyRule>,
}

impl KubeKind for ClusterRole {
    open spec fn spec_kind_name() -> Seq<char> {
        "clusterroles"@
    }

    open spec fn spec_api_group() -> Seq<char> {
        "rbac.authorization.k8s.io"@
    }

    open spec fn spec_api_version() -> Seq<char> {
        "v1beta1"@
    }

    type List = List<ClusterRole>;

    fn kind_name() -> &'static str {
        "clusterroles"
    }

    fn api_group() -> &'static str {
        "rbac.authorization.k8s.io"
    }

    fn api_version() -> &'static str {
        "v1beta1"
    }
}

pub struct PolicyRule {
    pub verbs: Vec<String>,
    pub api_groups: Option<Vec<String>>,
    pub resources: Option<Vec<String>>,
    pub resource_names: Option<Vec<String>>,
    pub non_resource_urls: Option<Vec<String>>,
}

pub struct ClusterRoleBinding {
    pub metadata: ObjectMeta,
    pub subjects: Vec<Subject>,
    pub role_ref: RoleRef,
}

impl KubeKind for ClusterRoleBinding {
    open spec fn spec_kind_name() -> Seq<char> {
        "clusterrolebindings"@
    }

    open spec fn spec_api_group() -> Seq<char> {
        "rbac.authorization.k8s.io"@
    }

    open spec fn spec_api_version() -> Seq<char> {
        "v1beta1"@
    }

    type List = List<ClusterRoleBinding>;

    fn kind_name() -> &'static str {
        "clusterrolebindings"
    }

    fn api_group() -> &'static str {
        "rbac.authorization.k8s.io"
    }

    fn api_version() -> &'static str {
        "v1beta1"
    }
}

pub struct RoleBinding {
    pub metadata: ObjectMeta,
    pub subjects: Vec<Subject>,
    pub role_ref: RoleRef,
}

impl KubeKind for RoleBinding {
    open spec fn spec_kind_name() -> Seq<char> {
        "rolebindings"@
    }

    open spec fn spec_api_group() -> Seq<char> {
        "rbac.authorization.k8s.io"@
    }

    open spec fn spec_api_version() -> Seq<char> {
        "v1beta1"@
    }

    type List = List<RoleBinding>;

    fn kind_name() -> &'static str {
        "rolebindings"
    }

    fn api_group() -> &'static str {
        "rbac.authorization.k8s.io"
    }

    fn api_version() -> &'static str {
        "v1beta1"
    }
}

pub struct Subject {
    pub kind: String,
    pub api_group: Option<String>,
    pub name: Option<String>,
    pub namespace: Option<String>,
}

pub struct RoleRef {
    pub api_group: String,
    pub kind: String,
    pub name: String,
}

} // verus!
