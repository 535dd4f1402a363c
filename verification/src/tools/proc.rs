use crate::description::proc::{
    Cluster, ClusterEelement, Proc, ProcGroup, ProcGroupProc, ProcTcmCenter, WorldElement,
    WorldProc, Zone,
};
use crate::description::{all_known, first_unknown, DescriptorError};
use crate::lookup::NameTable;
use crate::text::{chars_of, decimal, decimal_string, same_text};
use crate::tools::search::{FieldValue, Searchable};
use vstd::prelude::*;
use vstd::string::*;

verus! {

/// What can be asked of a process.
#[derive(Debug, Clone, Copy, PartialEq, Eq, Structural)]
pub enum ProcAction {
    Start,
    Stop,
    Check,
    Restart,
    Auto,
    RunShell,
}

impl ProcAction {
    /// The name of the action.
    pub open spec fn spec_name(self) -> Seq<char> {
        match self {
            ProcAction::Start => "Start"@,
            ProcAction::Stop => "Stop"@,
            ProcAction::Check => "Check"@,
            ProcAction::Restart => "Restart"@,
            ProcAction::Auto => "Auto"@,
            ProcAction::RunShell => "RunShell"@,
        }
    }

    /// The name of the action, as it is written in descriptors.
    pub fn name(&self) -> (s: String)
        ensures
            s@ == self.spec_name(),
    {
        match self {
            ProcAction::Start => String::from_str("Start"),
            ProcAction::Stop => String::from_str("Stop"),
            ProcAction::Check => String::from_str("Check"),
            ProcAction::Restart => String::from_str("Restart"),
            ProcAction::Auto => String::from_str("Auto"),
            ProcAction::RunShell => String::from_str("RunShell"),
        }
    }

    /// The action that `s` names, if it names one.
    pub fn from_name(s: &str) -> (action: Option<ProcAction>)
        ensures
            match action {
                Some(a) => s@ == a.spec_name(),
                None => forall|a: ProcAction| s@ != a.spec_name(),
            },
    {
        if same_text(s, "Start") {
            Some(ProcAction::Start)
        } else if same_text(s, "Stop") {
            Some(ProcAction::Stop)
        } else if same_text(s, "Check") {
            Some(ProcAction::Check)
        } else if same_text(s, "Restart") {
            Some(ProcAction::Restart)
        } else if same_text(s, "Auto") {
            Some(ProcAction::Auto)
        } else if same_text(s, "RunShell") {
            Some(ProcAction::RunShell)
        } else {
            None
        }
    }
}

/// The layer at which a process is declared.
#[derive(Debug, Clone, Copy, PartialEq, Eq, Structural)]
pub enum ProcType {
    Cluster,
    World,
    Zone,
}

impl ProcType {
    /// The name of the layer.
    pub open spec fn spec_name(self) -> Seq<char> {
        match self {
            ProcType::Cluster => "Cluster"@,
            ProcType::World => "World"@,
            ProcType::Zone => "Zone"@,
        }
    }

    /// The name of the layer, as it is written in descriptors.
    pub fn name(&self) -> (s: String)
        ensures
            s@ == self.spec_name(),
    {
        match self {
            ProcType::Cluster => String::from_str("Cluster"),
            ProcType::World => String::from_str("World"),
            ProcType::Zone => String::from_str("Zone"),
        }
    }

    /// The layer that `s` names, if it names one.
    pub fn from_name(s: &str) -> (layer: Option<ProcType>)
        ensures
            match layer {
                Some(l) => s@ == l.spec_name(),
                None => forall|l: ProcType| s@ != l.spec_name(),
            },
    {
        if same_text(s, "Cluster") {
            Some(ProcType::Cluster)
        } else if same_text(s, "World") {
            Some(ProcType::World)
        } else if same_text(s, "Zone") {
            Some(ProcType::Zone)
        } else {
            None
        }
    }
}

/// The layer that a process record is filed under.
#[derive(Debug, Clone, Copy, PartialEq, Eq, Structural)]
pub enum LayerEnum {
    Cluster,
    Zone,
}

impl LayerEnum {
    /// The name of the layer.
    pub open spec fn spec_name(self) -> Seq<char> {
        match self {
            LayerEnum::Cluster => "Cluster"@,
            LayerEnum::Zone => "Zone"@,
        }
    }

    /// The name of the layer, as process records hold it.
    pub fn name(&self) -> (s: String)
        ensures
            s@ == self.spec_name(),
    {
        match self {
            LayerEnum::Cluster => String::from_str("Cluster"),
            LayerEnum::Zone => String::from_str("Zone"),
        }
    }
}

/// One process definition.
#[derive(Debug, PartialEq)]
pub struct ProcInfo {
    pub layer: String,
    pub funcname: String,
    pub group_name: String,
    pub func_id: i32,
    pub work_path: String,
    pub proc_name: String,
}

impl Clone for ProcInfo {
    fn clone(&self) -> (copy: ProcInfo)
        ensures
            copy == *self,
    {
        ProcInfo {
            layer: self.layer.clone(),
            funcname: self.funcname.clone(),
            group_name: self.group_name.clone(),
            func_id: self.func_id,
            work_path: self.work_path.clone(),
            proc_name: self.proc_name.clone(),
        }
    }
}

impl ProcInfo {
    /// The columns of a process row, in the order in which the table shows
    /// them.
    pub fn ref_array(&self) -> (cells: [String; 4])
        ensures
            cells[0]@ == decimal(self.func_id as int),
            cells[1]@ == self.funcname@,
            cells[2]@ == self.group_name@,
            cells[3]@ == self.work_path@,
    {
        [
            decimal_string(self.func_id),
            self.funcname.clone(),
            self.group_name.clone(),
            self.work_path.clone(),
        ]
    }

    pub fn work_path(&self) -> (s: &str)
        ensures
            s@ == self.work_path@,
    {
        self.work_path.as_str()
    }

    pub fn proc_name(&self) -> (s: &str)
        ensures
            s@ == self.proc_name@,
    {
        self.proc_name.as_str()
    }

    pub fn get_func_id(&self) -> (s: String)
        ensures
            s@ == decimal(self.func_id as int),
    {
        decimal_string(self.func_id)
    }

    pub fn proc_group_name(&self) -> (s: &str)
        ensures
            s@ == self.group_name@,
    {
        self.group_name.as_str()
    }
}

impl Searchable for ProcInfo {
    /// The function id is a number: it has no text and takes no part in a
    /// search.
    open spec fn field_texts(&self) -> Seq<Option<Seq<char>>> {
        seq![
            Some(self.layer@),
            Some(self.funcname@),
            Some(self.group_name@),
            None,
            Some(self.work_path@),
            Some(self.proc_name@),
        ]
    }

    fn field_pairs(&self) -> (pairs: Vec<(String, FieldValue)>) {
        let mut pairs: Vec<(String, FieldValue)> = Vec::new();
        pairs.push((String::from_str("layer"), FieldValue::Text(self.layer.clone())));
        pairs.push((String::from_str("funcname"), FieldValue::Text(self.funcname.clone())));
        pairs.push((String::from_str("group_name"), FieldValue::Text(self.group_name.clone())));
        pairs.push((String::from_str("func_id"), FieldValue::Other));
        pairs.push((String::from_str("work_path"), FieldValue::Text(self.work_path.clone())));
        pairs.push((String::from_str("proc_name"), FieldValue::Text(self.proc_name.clone())));
        assert(crate::tools::search::pair_texts(pairs@) =~= self.field_texts());
        pairs
    }
}

/// The path `name` seen from the directory `base`, with `/` between the
/// parts of a path: a `name` that starts at the root stands for itself, and
/// any other is put behind `base`, after a separator where `base` does not
/// end in one.
pub open spec fn joined_path(base: Seq<char>, name: Seq<char>) -> Seq<char> {
    if name.len() > 0 && name[0] == '/' {
        name
    } else if base.len() == 0 || base.last() == '/' {
        base + name
    } else {
        base + seq!['/'] + name
    }
}

/// The path `name` seen from the directory `base`.
pub fn path_join(base: &str, name: &str) -> (path: String)
    ensures
        path@ == joined_path(base@, name@),
{
    let b = chars_of(base);
    let n = chars_of(name);
    if n.len() > 0 && n[0] == '/' {
        return String::from_str(name);
    }
    let mut path = String::from_str(base);
    if b.len() > 0 && b[b.len() - 1] != '/' {
        path.push('/');
    }
    path.append(name);
    assert(path@ =~= joined_path(base@, name@));
    path
}

/// The directory that processes work under where a cluster names none.
pub open spec fn default_work_path() -> Seq<char> {
    seq!['.', '/']
}

/// The directory of a process: its own directory seen from the directory of
/// its cluster, or from the current directory where the cluster names none.
pub open spec fn work_path_of(work_path: Option<Seq<char>>, proc_name: Seq<char>) -> Seq<char> {
    match work_path {
        Some(p) => joined_path(p, proc_name),
        None => joined_path(default_work_path(), proc_name),
    }
}

pub fn join_work_path(work_path: &Option<String>, proc_name: &str) -> (path: String)
    ensures
        path@ == work_path_of(
            match *work_path {
                Some(p) => Some(p@),
                None => None,
            },
            proc_name@,
        ),
{
    if let Some(p) = work_path {
        path_join(p.as_str(), proc_name)
    } else {
        proof {
            reveal_strlit("./");
            assert("./"@ =~= default_work_path());
        }
        path_join("./", proc_name)
    }
}

/// One process as the process descriptor declares it: the layer it is filed
/// under, the directory of its cluster, and what the process itself names.
#[derive(Debug, PartialEq)]
pub struct ProcSource {
    pub layer: LayerEnum,
    pub base: Option<String>,
    pub func_name: String,
    pub func_id: i32,
    pub proc_name: Option<String>,
    pub work_path: Option<String>,
}

/// A process of a cluster or a zone, as declared.
pub open spec fn source_of_proc(layer: LayerEnum, base: Option<String>, p: Proc) -> ProcSource {
    ProcSource {
        layer,
        base,
        func_name: p.func_name,
        func_id: p.func_id,
        proc_name: p.proc_name,
        work_path: p.work_path,
    }
}

/// A process of a world, as declared. It is filed under the cluster.
pub open spec fn source_of_world_proc(base: Option<String>, p: WorldProc) -> ProcSource {
    ProcSource {
        layer: LayerEnum::Cluster,
        base,
        func_name: p.func_name,
        func_id: p.func_id,
        proc_name: p.proc_name,
        work_path: p.work_path,
    }
}

/// The processes of a zone, in order.
pub open spec fn zone_sources(base: Option<String>, zone: Zone) -> Seq<ProcSource> {
    Seq::new(
        zone.zone_proc_vec.len() as nat,
        |i: int| source_of_proc(LayerEnum::Zone, base, zone.zone_proc_vec[i]),
    )
}

/// The processes of one entry of a world.
pub open spec fn world_element_sources(base: Option<String>, e: WorldElement) -> Seq<ProcSource> {
    match e {
        WorldElement::Proc(p) => seq![source_of_world_proc(base, p)],
        WorldElement::Zone(zone) => zone_sources(base, zone),
    }
}

/// The processes of the first `n` entries of a world.
pub open spec fn world_sources(base: Option<String>, es: Seq<WorldElement>, n: nat) -> Seq<
    ProcSource,
>
    decreases n,
{
    if n == 0 {
        Seq::empty()
    } else {
        world_sources(base, es, (n - 1) as nat) + world_element_sources(base, es[n - 1])
    }
}

/// The processes of one entry of a cluster.
pub open spec fn cluster_element_sources(base: Option<String>, e: ClusterEelement) -> Seq<
    ProcSource,
> {
    match e {
        ClusterEelement::Proc(p) => seq![source_of_proc(LayerEnum::Cluster, base, p)],
        ClusterEelement::World(w) => world_sources(base, w.proc_list@, w.proc_list.len() as nat),
    }
}

/// The processes of the first `n` entries of a cluster.
pub open spec fn cluster_sources(base: Option<String>, es: Seq<ClusterEelement>, n: nat) -> Seq<
    ProcSource,
>
    decreases n,
{
    if n == 0 {
        Seq::empty()
    } else {
        cluster_sources(base, es, (n - 1) as nat) + cluster_element_sources(base, es[n - 1])
    }
}

/// The processes of the first `n` clusters.
pub open spec fn clusters_sources(clusters: Seq<Cluster>, n: nat) -> Seq<ProcSource>
    decreases n,
{
    if n == 0 {
        Seq::empty()
    } else {
        clusters_sources(clusters, (n - 1) as nat) + cluster_sources(
            clusters[n - 1].work_path,
            clusters[n - 1].proc_list@,
            clusters[n - 1].proc_list.len() as nat,
        )
    }
}

/// Every process that a process descriptor declares, in the order of the
/// descriptor.
pub open spec fn declared_procs(center: ProcTcmCenter) -> Seq<ProcSource> {
    clusters_sources(center.cluster_vec@, center.cluster_vec.len() as nat)
}

fn copy_of(text: &Option<String>) -> (copy: Option<String>)
    ensures
        copy == *text,
{
    match text {
        Some(t) => Some(t.clone()),
        None => None,
    }
}

fn proc_source(layer: LayerEnum, base: &Option<String>, p: &Proc) -> (source: ProcSource)
    ensures
        source == source_of_proc(layer, *base, *p),
{
    ProcSource {
        layer,
        base: copy_of(base),
        func_name: p.func_name.clone(),
        func_id: p.func_id,
        proc_name: copy_of(&p.proc_name),
        work_path: copy_of(&p.work_path),
    }
}

fn world_proc_source(base: &Option<String>, p: &WorldProc) -> (source: ProcSource)
    ensures
        source == source_of_world_proc(*base, *p),
{
    ProcSource {
        layer: LayerEnum::Cluster,
        base: copy_of(base),
        func_name: p.func_name.clone(),
        func_id: p.func_id,
        proc_name: copy_of(&p.proc_name),
        work_path: copy_of(&p.work_path),
    }
}

/// Appends the processes of a zone.
fn push_zone_sources(out: &mut Vec<ProcSource>, base: &Option<String>, zone: &Zone)
    ensures
        final(out)@ == old(out)@ + zone_sources(*base, *zone),
{
    let mut i: usize = 0;
    assert(out@ =~= old(out)@ + zone_sources(*base, *zone).take(0));
    while i < zone.zone_proc_vec.len()
        invariant
            i <= zone.zone_proc_vec.len(),
            out@ == old(out)@ + zone_sources(*base, *zone).take(i as int),
        decreases zone.zone_proc_vec.len() - i,
    {
        out.push(proc_source(LayerEnum::Zone, base, &zone.zone_proc_vec[i]));
        i = i + 1;
        assert(out@ =~= old(out)@ + zone_sources(*base, *zone).take(i as int));
    }
    assert(zone_sources(*base, *zone).take(zone.zone_proc_vec.len() as int) =~= zone_sources(
        *base,
        *zone,
    ));
}

/// Appends the processes of the entries of a world.
fn push_world_sources(out: &mut Vec<ProcSource>, base: &Option<String>, es: &Vec<WorldElement>)
    ensures
        final(out)@ == old(out)@ + world_sources(*base, es@, es.len() as nat),
{
    let mut i: usize = 0;
    assert(out@ =~= old(out)@ + world_sources(*base, es@, 0));
    while i < es.len()
        invariant
            i <= es.len(),
            out@ == old(out)@ + world_sources(*base, es@, i as nat),
        decreases es.len() - i,
    {
        let ghost before = out@;
        match &es[i] {
            WorldElement::Proc(p) => {
                out.push(world_proc_source(base, p));
                assert(out@ =~= before + world_element_sources(*base, es@[i as int]));
            },
            WorldElement::Zone(zone) => {
                push_zone_sources(out, base, zone);
            },
        }
        i = i + 1;
        assert(out@ =~= old(out)@ + world_sources(*base, es@, i as nat));
    }
}

/// Appends the processes of the entries of a cluster.
fn push_cluster_sources(
    out: &mut Vec<ProcSource>,
    base: &Option<String>,
    es: &Vec<ClusterEelement>,
)
    ensures
        final(out)@ == old(out)@ + cluster_sources(*base, es@, es.len() as nat),
{
    let mut i: usize = 0;
    assert(out@ =~= old(out)@ + cluster_sources(*base, es@, 0));
    while i < es.len()
        invariant
            i <= es.len(),
            out@ == old(out)@ + cluster_sources(*base, es@, i as nat),
        decreases es.len() - i,
    {
        let ghost before = out@;
        match &es[i] {
            ClusterEelement::Proc(p) => {
                out.push(proc_source(LayerEnum::Cluster, base, p));
                assert(out@ =~= before + cluster_element_sources(*base, es@[i as int]));
            },
            ClusterEelement::World(w) => {
                push_world_sources(out, base, &w.proc_list);
            },
        }
        i = i + 1;
        assert(out@ =~= old(out)@ + cluster_sources(*base, es@, i as nat));
    }
}

/// Lists every process that a process descriptor declares.
pub fn declared_procs_of(center: &ProcTcmCenter) -> (out: Vec<ProcSource>)
    ensures
        out@ == declared_procs(*center),
{
    let mut out: Vec<ProcSource> = Vec::new();
    let clusters = &center.cluster_vec;
    let mut i: usize = 0;
    assert(out@ =~= clusters_sources(clusters@, 0));
    while i < clusters.len()
        invariant
            i <= clusters.len(),
            out@ == clusters_sources(clusters@, i as nat),
        decreases clusters.len() - i,
    {
        push_cluster_sources(&mut out, &clusters[i].work_path, &clusters[i].proc_list);
        i = i + 1;
    }
    out
}

/// The group of each of the first `n` processes of a group, entered under
/// the name of the process into `table`.
pub open spec fn group_entries(
    table: Map<Seq<char>, Seq<char>>,
    group: Seq<char>,
    procs: Seq<ProcGroupProc>,
    n: nat,
) -> Map<Seq<char>, Seq<char>>
    decreases n,
{
    if n == 0 {
        table
    } else {
        group_entries(table, group, procs, (n - 1) as nat).insert(procs[n - 1].func_name@, group)
    }
}

/// The group of every process of the first `n` groups, under the name of the
/// process; a process that two groups name belongs to the later.
pub open spec fn groups_entries(groups: Seq<ProcGroup>, n: nat) -> Map<Seq<char>, Seq<char>>
    decreases n,
{
    if n == 0 {
        Map::empty()
    } else {
        group_entries(
            groups_entries(groups, (n - 1) as nat),
            groups[n - 1].name@,
            groups[n - 1].proc_group_proc@,
            groups[n - 1].proc_group_proc.len() as nat,
        )
    }
}

/// The table from the name of a process to the name of its group.
pub fn group_table(groups: &Vec<ProcGroup>) -> (table: NameTable)
    ensures
        table.entries() == groups_entries(groups@, groups.len() as nat),
{
    let mut table = NameTable::new();
    let mut i: usize = 0;
    while i < groups.len()
        invariant
            i <= groups.len(),
            table.entries() == groups_entries(groups@, i as nat),
        decreases groups.len() - i,
    {
        let group = &groups[i];
        let mut k: usize = 0;
        while k < group.proc_group_proc.len()
            invariant
                k <= group.proc_group_proc.len(),
                table.entries() == group_entries(
                    groups_entries(groups@, i as nat),
                    group.name@,
                    group.proc_group_proc@,
                    k as nat,
                ),
            decreases group.proc_group_proc.len() - k,
        {
            table.insert(group.proc_group_proc[k].func_name.clone(), group.name.clone());
            k = k + 1;
        }
        i = i + 1;
    }
    table
}

/// The texts and the id of a process record.
pub struct ProcInfoView {
    pub layer: Seq<char>,
    pub funcname: Seq<char>,
    pub group_name: Seq<char>,
    pub func_id: i32,
    pub work_path: Seq<char>,
    pub proc_name: Seq<char>,
}

impl View for ProcInfo {
    type V = ProcInfoView;

    open spec fn view(&self) -> ProcInfoView {
        ProcInfoView {
            layer: self.layer@,
            funcname: self.funcname@,
            group_name: self.group_name@,
            func_id: self.func_id,
            work_path: self.work_path@,
            proc_name: self.proc_name@,
        }
    }
}

/// The names of declared processes, in order.
pub open spec fn source_names(sources: Seq<ProcSource>) -> Seq<Seq<char>> {
    Seq::new(sources.len(), |i: int| sources[i].func_name@)
}

/// The record of a declared process. Its group is the one that `table` has
/// for its name. Its directory is its own, `./` where it names none, seen
/// from the directory of its cluster. It runs under its own name where it
/// names no other.
pub open spec fn proc_at(source: ProcSource, table: Map<Seq<char>, Seq<char>>) -> ProcInfoView {
    ProcInfoView {
        layer: source.layer.spec_name(),
        funcname: source.func_name@,
        group_name: table[source.func_name@],
        func_id: source.func_id,
        work_path: work_path_of(
            match source.base {
                Some(b) => Some(b@),
                None => None,
            },
            match source.work_path {
                Some(p) => p@,
                None => default_work_path(),
            },
        ),
        proc_name: match source.proc_name {
            Some(n) => n@,
            None => source.func_name@,
        },
    }
}

/// The group of every process that a group of the descriptor names.
pub open spec fn declared_groups(center: ProcTcmCenter) -> Map<Seq<char>, Seq<char>> {
    groups_entries(center.procgroup_vec@, center.procgroup_vec.len() as nat)
}

/// What turning declared processes into records comes to. Where `table` has
/// a group for every process there is one record for each, in order. Where
/// it does not, the error names the first process that it has no group for.
pub open spec fn procs_resolved(
    procs: Result<Vec<ProcInfo>, DescriptorError>,
    sources: Seq<ProcSource>,
    table: Map<Seq<char>, Seq<char>>,
) -> bool {
    match procs {
        Ok(list) => {
            &&& all_known(source_names(sources), table)
            &&& list.len() == sources.len()
            &&& forall|i: int|
                0 <= i < list.len() ==> (#[trigger] list[i])@ == proc_at(sources[i], table)
        },
        Err(e) => {
            &&& e matches DescriptorError::UnknownProcess(name)
            &&& exists|i: int|
                first_unknown(source_names(sources), table, i) && name@
                    == #[trigger] source_names(sources)[i]
        },
    }
}

/// The records of declared processes, one for each, in order. A process that
/// `table` has no group for stops the work: the error names the first such
/// process.
pub fn procs_of_sources(sources: &Vec<ProcSource>, table: &NameTable) -> (procs: Result<
    Vec<ProcInfo>,
    DescriptorError,
>)
    ensures
        procs_resolved(procs, sources@, table.entries()),
{
    let mut procs: Vec<ProcInfo> = Vec::new();
    let mut i: usize = 0;
    while i < sources.len()
        invariant
            i <= sources.len(),
            procs.len() == i,
            forall|j: int|
                0 <= j < i ==> table.entries().contains_key(#[trigger] source_names(sources@)[j]),
            forall|j: int|
                0 <= j < i ==> (#[trigger] procs[j])@ == proc_at(sources[j], table.entries()),
        decreases sources.len() - i,
    {
        let p = &sources[i];
        assert(p.func_name@ == source_names(sources@)[i as int]);
        let group_name = match table.get(p.func_name.as_str()) {
            Some(group_name) => group_name,
            None => {
                assert(first_unknown(source_names(sources@), table.entries(), i as int));
                return Err(DescriptorError::UnknownProcess(p.func_name.clone()));
            },
        };
        let proc_work_path = match &p.work_path {
            Some(path) => path.clone(),
            None => {
                proof {
                    reveal_strlit("./");
                    assert("./"@ =~= default_work_path());
                }
                String::from_str("./")
            },
        };
        let proc_name = match &p.proc_name {
            Some(name) => name.clone(),
            None => p.func_name.clone(),
        };
        let work_path = join_work_path(&p.base, proc_work_path.as_str());
        procs.push(
            ProcInfo {
                layer: p.layer.name(),
                funcname: p.func_name.clone(),
                group_name,
                func_id: p.func_id,
                work_path,
                proc_name,
            },
        );
        i = i + 1;
    }
    Ok(procs)
}

/// The process records of a process descriptor: one for each process that a
/// cluster lists, in the order of the descriptor, each with the group that
/// names it. A process that no group names stops the work.
pub fn collect_proc_info(proc_center: ProcTcmCenter) -> (procs: Result<
    Vec<ProcInfo>,
    DescriptorError,
>)
    ensures
        procs_resolved(procs, declared_procs(proc_center), declared_groups(proc_center)),
{
    let proc_group_name_map = group_table(&proc_center.procgroup_vec);
    let sources = declared_procs_of(&proc_center);
    procs_of_sources(&sources, &proc_group_name_map)
}

} // verus!
