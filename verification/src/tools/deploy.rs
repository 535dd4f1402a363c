use crate::description::deploy::{DeployGroup, DeployTcmCenter, World, Zone, ZoneDeployGroup};
use vstd::prelude::*;

verus! {

/// The placement of one process group on one host, with its instance number.
#[derive(Debug, PartialEq)]
pub struct DeployInfo {
    pub host_id: i32,
    pub group_name: String,
    pub inst_id: i32,
}

impl DeployInfo {
    pub fn new(host_id: i32, group_name: String, inst_id: i32) -> (info: DeployInfo)
        ensures
            info.host_id == host_id,
            info.group_name == group_name,
            info.inst_id == inst_id,
    {
        DeployInfo { host_id, group_name, inst_id }
    }
}

impl Clone for DeployInfo {
    fn clone(&self) -> (copy: DeployInfo)
        ensures
            copy == *self,
    {
        DeployInfo {
            host_id: self.host_id,
            group_name: self.group_name.clone(),
            inst_id: self.inst_id,
        }
    }
}

/// One process group placed on one host, as the deployment descriptor lists
/// it. A placement at the level of the cluster has no world and zone, and
/// may have no host.
#[derive(Debug, PartialEq)]
pub struct Placement {
    pub group: String,
    pub host: Option<String>,
    pub inst_id: Option<i32>,
    /// The world and the zone, for a placement in a zone.
    pub place: Option<(String, String)>,
}

/// The placement that a group of the cluster stands for.
pub open spec fn cluster_placement(group: DeployGroup) -> Placement {
    Placement { group: group.group, host: group.host, inst_id: group.inst_id, place: None }
}

/// The placement that a group of a zone stands for.
pub open spec fn zone_placement(world: String, zone: String, group: ZoneDeployGroup) -> Placement {
    Placement {
        group: group.group,
        host: Some(group.host),
        inst_id: group.inst_id,
        place: Some((world, zone)),
    }
}

/// The placements of the groups of the cluster, in order.
pub open spec fn cluster_placements(groups: Seq<DeployGroup>) -> Seq<Placement> {
    Seq::new(groups.len(), |i: int| cluster_placement(groups[i]))
}

/// The placements of the groups of one zone, in order.
pub open spec fn zone_placements(world: String, zone: Zone) -> Seq<Placement> {
    Seq::new(
        zone.deploy_groups.len() as nat,
        |i: int| zone_placement(world, zone.id, zone.deploy_groups[i]),
    )
}

/// The placements of the first `n` zones of a world, zone after zone.
pub open spec fn zones_placements(world: String, zones: Seq<Zone>, n: nat) -> Seq<Placement>
    decreases n,
{
    if n == 0 {
        Seq::empty()
    } else {
        zones_placements(world, zones, (n - 1) as nat) + zone_placements(world, zones[n - 1])
    }
}

/// The placements of the first `n` worlds, world after world.
pub open spec fn worlds_placements(worlds: Seq<World>, n: nat) -> Seq<Placement>
    decreases n,
{
    if n == 0 {
        Seq::empty()
    } else {
        worlds_placements(worlds, (n - 1) as nat) + zones_placements(
            worlds[n - 1].id,
            worlds[n - 1].zone_list@,
            worlds[n - 1].zone_list.len() as nat,
        )
    }
}

/// Every placement of a deployment descriptor: those of the cluster first,
/// then those of the worlds, each world zone by zone.
pub open spec fn placements(center: DeployTcmCenter) -> Seq<Placement> {
    cluster_placements(center.cluster_deploy.deploy_groups@) + worlds_placements(
        center.cluster_deploy.worlds@,
        center.cluster_deploy.worlds.len() as nat,
    )
}

fn clone_text(text: &Option<String>) -> (copy: Option<String>)
    ensures
        copy == *text,
{
    match text {
        Some(t) => Some(t.clone()),
        None => None,
    }
}

/// Lists every placement of a deployment descriptor.
pub fn placements_of(center: &DeployTcmCenter) -> (out: Vec<Placement>)
    ensures
        out@ == placements(*center),
{
    let mut out: Vec<Placement> = Vec::new();
    let groups = &center.cluster_deploy.deploy_groups;
    let mut g: usize = 0;
    while g < groups.len()
        invariant
            g <= groups.len(),
            out@ == cluster_placements(groups@).take(g as int),
        decreases groups.len() - g,
    {
        out.push(
            Placement {
                group: groups[g].group.clone(),
                host: clone_text(&groups[g].host),
                inst_id: groups[g].inst_id,
                place: None,
            },
        );
        g = g + 1;
        assert(out@ =~= cluster_placements(groups@).take(g as int));
    }
    assert(cluster_placements(groups@).take(groups.len() as int) =~= cluster_placements(groups@));
    let ghost cluster = out@;
    let worlds = &center.cluster_deploy.worlds;
    let mut w: usize = 0;
    assert(out@ =~= cluster + worlds_placements(worlds@, 0));
    while w < worlds.len()
        invariant
            w <= worlds.len(),
            out@ == cluster + worlds_placements(worlds@, w as nat),
        decreases worlds.len() - w,
    {
        let world = &worlds[w];
        let ghost earlier = out@;
        let mut z: usize = 0;
        assert(out@ =~= earlier + zones_placements(world.id, world.zone_list@, 0));
        while z < world.zone_list.len()
            invariant
                z <= world.zone_list.len(),
                out@ == earlier + zones_placements(world.id, world.zone_list@, z as nat),
            decreases world.zone_list.len() - z,
        {
            let zone = &world.zone_list[z];
            let ghost before = out@;
            let mut d: usize = 0;
            assert(out@ =~= before + zone_placements(world.id, *zone).take(0));
            while d < zone.deploy_groups.len()
                invariant
                    d <= zone.deploy_groups.len(),
                    out@ == before + zone_placements(world.id, *zone).take(d as int),
                decreases zone.deploy_groups.len() - d,
            {
                let group = &zone.deploy_groups[d];
                out.push(
                    Placement {
                        group: group.group.clone(),
                        host: Some(group.host.clone()),
                        inst_id: group.inst_id,
                        place: Some((world.id.clone(), zone.id.clone())),
                    },
                );
                d = d + 1;
                assert(out@ =~= before + zone_placements(world.id, *zone).take(d as int));
            }
            assert(zone_placements(world.id, *zone).take(zone.deploy_groups.len() as int)
                =~= zone_placements(world.id, *zone));
            z = z + 1;
            assert(out@ =~= earlier + zones_placements(world.id, world.zone_list@, z as nat));
        }
        w = w + 1;
        assert(out@ =~= cluster + worlds_placements(worlds@, w as nat));
    }
    out
}

} // verus!
