use vstd::prelude::*;

verus! {

/// The deployment descriptor: which process group runs on which host.
#[derive(Debug, PartialEq, Default)]
pub struct DeployTcmCenter {
    pub cluster_deploy: ClusterDeploy,
}

/// The deployments of a cluster: those of the cluster itself, and those of
/// its worlds.
#[derive(Debug, PartialEq, Default)]
pub struct ClusterDeploy {
    pub deploy_groups: Vec<DeployGroup>,
    pub worlds: Vec<World>,
}

/// A process group placed at the level of the cluster. Without a host it
/// runs on the host of the descriptor itself.
#[derive(Debug, PartialEq, Default)]
pub struct DeployGroup {
    pub group: String,
    pub host: Option<String>,
    pub inst_id: Option<i32>,
}

/// A world and its zones.
#[derive(Debug, PartialEq, Default)]
pub struct World {
    pub id: String,
    pub zone_list: Vec<Zone>,
}

/// A zone and the process groups placed in it.
#[derive(Debug, PartialEq, Default)]
pub struct Zone {
    pub id: String,
    pub deploy_groups: Vec<ZoneDeployGroup>,
}

/// A process group placed on a host of a zone.
#[derive(Debug, PartialEq, Default)]
pub struct ZoneDeployGroup {
    pub group: String,
    pub host: String,
    pub custom_attr: Option<String>,
    pub inst_id: Option<i32>,
}

} // verus!
