use vstd::prelude::*;

verus! {

pub type NodeAddressType = String;

pub struct NodeAddress {
    pub address_type: NodeAddressType,
    pub address: String,
}

pub struct NodeDaemonEndpoints {
    pub kubelet_endpoint: DaemonEndpoint,
}

pub struct DaemonEndpoint {
    pub port: i32,
}

pub struct NodeSystemInfo {
    pub machine_id: String,
    pub system_uuid: String,
    pub boot_id: String,
    pub kernel_version: String,
    pub os_image: String,
    pub container_runtime_version: String,
    pub kubelet_version: String,
    pub kube_proxy_version: String,
    pub operating_system: String,
    pub architecture: String,
}

pub struct ContainerImage {
    pub names: Vec<String>,
    pub size_bytes: i64,
}

pub type UniqueVolumeName = String;

pub struct AttachedVolume {
    pub name: UniqueVolumeName,
    pub device_path: String,
}

} // verus!
