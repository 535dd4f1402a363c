use vstd::prelude::*;

verus! {

/// What a cluster lists: a process of its own, or a world.
#[derive(Debug, PartialEq)]
pub enum ClusterEelement {
    Proc(Proc),
    World(World),
}

/// A cluster: the directory its processes work under, and what it lists.
#[derive(Debug, PartialEq, Default)]
pub struct Cluster {
    pub work_path: Option<String>,
    pub auto_time_gap: Option<String>,
    pub op_timeout: Option<String>,
    pub proc_list: Vec<ClusterEelement>,
}

/// The process descriptor: the clusters, and the groups that name the
/// processes.
#[derive(Debug, PartialEq, Default)]
pub struct ProcTcmCenter {
    pub cluster_vec: Vec<Cluster>,
    pub procgroup_vec: Vec<ProcGroup>,
}

/// A process as a group names it.
#[derive(Debug, PartialEq, Default)]
pub struct ProcGroupProc {
    pub func_name: String,
    pub agrs: Option<String>,
    pub group_name: Option<String>,
    pub layer: Option<String>,
}

/// A group of processes.
#[derive(Debug, PartialEq, Default)]
pub struct ProcGroup {
    pub name: String,
    pub layer: String,
    pub proc_group_proc: Vec<ProcGroupProc>,
}

/// A process of a cluster or of a zone.
#[derive(Debug, PartialEq, Default)]
pub struct Proc {
    pub func_name: String,
    pub func_id: i32,
    pub proc_name: Option<String>,
    pub work_path: Option<String>,
    pub flag: String,
    pub is_common: Option<String>,
    pub config_path: Option<String>,
    pub seq: Option<String>,
    pub auto_script: Option<String>,
    pub restart_cmd: Option<String>,
}

/// A process of a world.
#[derive(Debug, PartialEq, Default)]
pub struct WorldProc {
    pub func_name: String,
    pub func_id: i32,
    pub proc_name: Option<String>,
    pub work_path: Option<String>,
    pub flag: String,
    pub is_common: Option<String>,
    pub config_path: Option<String>,
    pub seq: Option<String>,
    pub auto_script: Option<String>,
    pub restart_cmd: Option<String>,
}

/// What a world lists: a process of its own, or a zone.
#[derive(Debug, PartialEq)]
pub enum WorldElement {
    Proc(WorldProc),
    Zone(Zone),
}

/// A world of the process descriptor.
#[derive(Debug, PartialEq)]
pub struct World {
    pub isolated: String,
    pub auto_time_gap: Option<String>,
    pub op_timeout: Option<String>,
    pub proc_list: Vec<WorldElement>,
}

/// A zone of the process descriptor and its processes.
#[derive(Debug, PartialEq, Default)]
pub struct Zone {
    pub isolated: String,
    pub auto_time_gap: Option<String>,
    pub op_timeout: Option<String>,
    pub zone_proc_vec: Vec<Proc>,
}

} // verus!
