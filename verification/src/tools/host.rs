use crate::database::TcmQueryResult;
use crate::description::deploy::DeployTcmCenter;
use crate::description::{all_known, first_unknown, DescriptorError};
use crate::lookup::{local_name, NameTable};
use crate::tools::deploy::{placements, placements_of, Placement};
use crate::tools::search::{FieldValue, Searchable};
use vstd::prelude::*;
use vstd::string::*;

verus! {

/// One host: its address, its name, and the world and zone it serves.
#[derive(Debug, PartialEq)]
pub struct HostInfo {
    pub inner_ip: String,
    pub host_name: String,
    pub world_id: String,
    pub zone_id: String,
}

impl Clone for HostInfo {
    fn clone(&self) -> (copy: HostInfo)
        ensures
            copy == *self,
    {
        HostInfo {
            inner_ip: self.inner_ip.clone(),
            host_name: self.host_name.clone(),
            world_id: self.world_id.clone(),
            zone_id: self.zone_id.clone(),
        }
    }
}

/// The host of a row of the join.
pub open spec fn host_of_row(row: TcmQueryResult) -> HostInfo {
    HostInfo {
        inner_ip: row.inner_ip,
        host_name: row.host_name,
        world_id: row.world_id,
        zone_id: row.zone_id,
    }
}

impl From<&TcmQueryResult> for HostInfo {
    fn from(tcm_query_result: &TcmQueryResult) -> (host: HostInfo) {
        HostInfo {
            inner_ip: tcm_query_result.inner_ip.clone(),
            host_name: tcm_query_result.host_name.clone(),
            world_id: tcm_query_result.world_id.clone(),
            zone_id: tcm_query_result.zone_id.clone(),
        }
    }
}

impl vstd::std_specs::convert::FromSpecImpl<&TcmQueryResult> for HostInfo {
    open spec fn obeys_from_spec() -> bool {
        true
    }

    open spec fn from_spec(tcm_query_result: &TcmQueryResult) -> HostInfo {
        host_of_row(*tcm_query_result)
    }
}

impl HostInfo {
    /// The columns of a host row, in the order in which the table shows them.
    pub fn ref_array(&self) -> (cells: [&str; 4])
        ensures
            cells[0]@ == self.inner_ip@,
            cells[1]@ == self.world_id@,
            cells[2]@ == self.zone_id@,
            cells[3]@ == self.host_name@,
    {
        [
            self.inner_ip.as_str(),
            self.world_id.as_str(),
            self.zone_id.as_str(),
            self.host_name.as_str(),
        ]
    }

    pub fn inner_ip(&self) -> (s: &str)
        ensures
            s@ == self.inner_ip@,
    {
        self.inner_ip.as_str()
    }

    pub fn world_id(&self) -> (s: &str)
        ensures
            s@ == self.world_id@,
    {
        self.world_id.as_str()
    }

    pub fn zone_id(&self) -> (s: &str)
        ensures
            s@ == self.zone_id@,
    {
        self.zone_id.as_str()
    }

    pub fn host_name(&self) -> (s: &str)
        ensures
            s@ == self.host_name@,
    {
        self.host_name.as_str()
    }
}

impl Searchable for HostInfo {
    open spec fn field_texts(&self) -> Seq<Option<Seq<char>>> {
        seq![
            Some(self.inner_ip@),
            Some(self.host_name@),
            Some(self.world_id@),
            Some(self.zone_id@),
        ]
    }

    fn field_pairs(&self) -> (pairs: Vec<(String, FieldValue)>) {
        let mut pairs: Vec<(String, FieldValue)> = Vec::new();
        pairs.push((String::from_str("inner_ip"), FieldValue::Text(self.inner_ip.clone())));
        pairs.push((String::from_str("host_name"), FieldValue::Text(self.host_name.clone())));
        pairs.push((String::from_str("world_id"), FieldValue::Text(self.world_id.clone())));
        pairs.push((String::from_str("zone_id"), FieldValue::Text(self.zone_id.clone())));
        assert(crate::tools::search::pair_texts(pairs@) =~= self.field_texts());
        pairs
    }
}

/// The four texts of a host record.
pub struct HostInfoView {
    pub inner_ip: Seq<char>,
    pub host_name: Seq<char>,
    pub world_id: Seq<char>,
    pub zone_id: Seq<char>,
}

impl View for HostInfo {
    type V = HostInfoView;

    open spec fn view(&self) -> HostInfoView {
        HostInfoView {
            inner_ip: self.inner_ip@,
            host_name: self.host_name@,
            world_id: self.world_id@,
            zone_id: self.zone_id@,
        }
    }
}

/// The id of the world and of the zone of a host that serves the cluster as
/// a whole.
pub open spec fn cluster_level_id() -> Seq<char> {
    seq!['0']
}

/// The name of the host of a placement: a placement without one is on the
/// host of the descriptors itself.
pub open spec fn placed_host(p: Placement) -> Seq<char> {
    match p.host {
        Some(h) => h@,
        None => local_name(),
    }
}

/// The world of a placement.
pub open spec fn placed_world(p: Placement) -> Seq<char> {
    match p.place {
        Some((world, zone)) => world@,
        None => cluster_level_id(),
    }
}

/// The zone of a placement.
pub open spec fn placed_zone(p: Placement) -> Seq<char> {
    match p.place {
        Some((world, zone)) => zone@,
        None => cluster_level_id(),
    }
}

/// The names of the hosts of placements, in order.
pub open spec fn placed_hosts(ps: Seq<Placement>) -> Seq<Seq<char>> {
    Seq::new(ps.len(), |i: int| placed_host(ps[i]))
}

/// The host record of a placement: the host under its name, with the
/// address that the table has for the name, in the world and zone of the
/// placement.
pub open spec fn host_at(p: Placement, table: Map<Seq<char>, Seq<char>>) -> HostInfoView {
    HostInfoView {
        inner_ip: table[placed_host(p)],
        host_name: placed_host(p),
        world_id: placed_world(p),
        zone_id: placed_zone(p),
    }
}

/// What turning placements into host records comes to. Where `table` has
/// the host of every placement there is one record for each placement, in
/// order. Where it does not, the error names the first host that it lacks.
pub open spec fn hosts_resolved(
    hosts: Result<Vec<HostInfo>, DescriptorError>,
    ps: Seq<Placement>,
    table: Map<Seq<char>, Seq<char>>,
) -> bool {
    match hosts {
        Ok(list) => {
            &&& all_known(placed_hosts(ps), table)
            &&& list.len() == ps.len()
            &&& forall|i: int|
                0 <= i < list.len() ==> (#[trigger] list[i])@ == host_at(ps[i], table)
        },
        Err(e) => {
            &&& e matches DescriptorError::UnknownHost(name)
            &&& exists|i: int|
                first_unknown(placed_hosts(ps), table, i) && name@ == #[trigger] placed_hosts(
                    ps,
                )[i]
        },
    }
}

/// The id of the world and of the zone of a host that serves the cluster as
/// a whole.
pub fn cluster_level() -> (id: String)
    ensures
        id@ == cluster_level_id(),
{
    let mut id = String::new();
    id.push('0');
    assert(id@ =~= cluster_level_id());
    id
}

/// The host records of placements, one for each, in order. A placement on a
/// host that `table` does not have stops the work: the error names the first
/// such host.
pub fn hosts_of_placements(ps: &Vec<Placement>, table: &NameTable) -> (hosts: Result<
    Vec<HostInfo>,
    DescriptorError,
>)
    ensures
        hosts_resolved(hosts, ps@, table.entries()),
{
    let mut hosts: Vec<HostInfo> = Vec::new();
    let mut i: usize = 0;
    while i < ps.len()
        invariant
            i <= ps.len(),
            hosts.len() == i,
            forall|j: int| 0 <= j < i ==> table.entries().contains_key(#[trigger] placed_hosts(ps@)[j]),
            forall|j: int| 0 <= j < i ==> (#[trigger] hosts[j])@ == host_at(ps[j], table.entries()),
        decreases ps.len() - i,
    {
        let host_name = match &ps[i].host {
            Some(h) => h.clone(),
            None => String::from_str("TcmHost"),
        };
        assert(host_name@ == placed_hosts(ps@)[i as int]);
        let inner_ip = match table.get(host_name.as_str()) {
            Some(inner_ip) => inner_ip,
            None => {
                assert(first_unknown(placed_hosts(ps@), table.entries(), i as int));
                return Err(DescriptorError::UnknownHost(host_name));
            },
        };
        let (world_id, zone_id) = match &ps[i].place {
            Some((world, zone)) => (world.clone(), zone.clone()),
            None => (cluster_level(), cluster_level()),
        };
        hosts.push(HostInfo { inner_ip, host_name, world_id, zone_id });
        i = i + 1;
    }
    Ok(hosts)
}

/// The host records of a deployment descriptor: one for each placement,
/// those of the cluster first, then those of the worlds, zone by zone. The
/// addresses come from `table`; a host that it does not have stops the work.
pub fn collect_host_info(deploy_center: DeployTcmCenter, table: &NameTable) -> (hosts: Result<
    Vec<HostInfo>,
    DescriptorError,
>)
    ensures
        hosts_resolved(hosts, placements(deploy_center), table.entries()),
{
    let ps = placements_of(&deploy_center);
    hosts_of_placements(&ps, table)
}

} // verus!
