use crate::text::{
    chars_of, lemma_split_joined, lemma_split_nonempty, split, split_chars, string_of, views,
};
use crate::text::{decimal, decimal_string};
use crate::tools::deploy::DeployInfo;
use crate::tools::host::HostInfo;
use crate::tools::proc::ProcInfo;
use vstd::prelude::*;
use vstd::string::*;

verus! {

/// A positional address: world, zone, process and instance, each either the
/// wildcard `*` or a literal that is passed on as it is.
pub struct TcmQuery {
    pub world_id: String,
    pub zone_id: String,
    pub proc_id: String,
    pub inst_id: String,
}

/// One row of the join of hosts, processes and deployments.
#[derive(Debug)]
pub struct TcmQueryResult {
    pub host_id: i32,
    pub inner_ip: String,
    pub host_name: String,
    pub world_id: String,
    pub zone_id: String,
    pub func_id: i32,
    pub proc_type: String,
    pub work_path: String,
    pub func_name: String,
    pub proc_name: String,
    pub proc_group_name: String,
    pub inst_id: i32,
}

/// The separator between the segments of an address.
pub open spec fn separator() -> char {
    '.'
}

/// The segment that matches anything at its position.
pub open spec fn wildcard() -> Seq<char> {
    seq!['*']
}

/// `s` without one separator at its end, where it has one.
pub open spec fn strip_trailing_separator(s: Seq<char>) -> Seq<char> {
    if s.len() > 0 && s.last() == separator() {
        s.drop_last()
    } else {
        s
    }
}

/// The segments that an address is written with, before padding.
pub open spec fn address_segments(sql: Seq<char>) -> Seq<Seq<char>> {
    split(strip_trailing_separator(sql), separator())
}

/// Segment `k` of an address; the wildcard where the address has fewer
/// segments.
pub open spec fn segment(sql: Seq<char>, k: int) -> Seq<char> {
    let segments = address_segments(sql);
    if 0 <= k < segments.len() {
        segments[k]
    } else {
        wildcard()
    }
}

/// The join with the process table: on the function id where the process
/// segment is a literal, unconditioned where it is the wildcard.
pub open spec fn process_join(proc_id: Seq<char>) -> Seq<char> {
    if proc_id != wildcard() {
        " JOIN procs ON procs.proc_group_name = deploy.group_name and procs.func_id = '"@
            + proc_id + "'"@
    } else {
        " JOIN procs"@
    }
}

/// The join with the deploy table, with a predicate for each of world and
/// zone that is a literal.
pub open spec fn deploy_join(world_id: Seq<char>, zone_id: Seq<char>) -> Seq<char> {
    if world_id != wildcard() && zone_id != wildcard() {
        " JOIN deploy ON hosts.world_id = '"@ + world_id + "' and hosts.zone_id = '"@ + zone_id
            + "'"@
    } else if world_id != wildcard() {
        " JOIN deploy ON hosts.world_id = '"@ + world_id + "'"@
    } else if zone_id != wildcard() {
        " JOIN deploy ON hosts.zone_id = '"@ + zone_id + "'"@
    } else {
        " JOIN deploy"@
    }
}

/// The filter: the host of the deployment, and the instance where the
/// instance segment is a literal.
pub open spec fn filter_clause(inst_id: Seq<char>) -> Seq<char> {
    if inst_id != wildcard() {
        " WHERE deploy.inst_id = '"@ + inst_id + "' and hosts.id = deploy.host_id"@
    } else {
        " WHERE hosts.id = deploy.host_id"@
    }
}

/// The query text for four segments and a table.
pub open spec fn query_text(
    world_id: Seq<char>,
    zone_id: Seq<char>,
    proc_id: Seq<char>,
    inst_id: Seq<char>,
    table_name: Seq<char>,
) -> Seq<char> {
    "select * from "@ + table_name + process_join(proc_id) + deploy_join(world_id, zone_id)
        + filter_clause(inst_id)
}

/// The query text that an address compiles to.
pub open spec fn compiled_query(sql: Seq<char>, table_name: Seq<char>) -> Seq<char> {
    query_text(segment(sql, 0), segment(sql, 1), segment(sql, 2), segment(sql, 3), table_name)
}

/// Whether `s` is the wildcard.
pub fn is_wildcard(s: &String) -> (b: bool)
    ensures
        b == (s@ == wildcard()),
{
    let t = s.as_str();
    if t.unicode_len() == 1 {
        let c = t.get_char(0);
        assert(c == '*' ==> s@ =~= wildcard());
        c == '*'
    } else {
        false
    }
}

/// Segment `k` of the pieces of an address, or the wildcard.
fn segment_of(pieces: &Vec<Vec<char>>, k: usize) -> (out: String)
    ensures
        out@ == if k < pieces.len() {
            pieces[k as int]@
        } else {
            wildcard()
        },
{
    if k < pieces.len() {
        string_of(&pieces[k])
    } else {
        let mut out = String::new();
        out.push('*');
        assert(out@ =~= wildcard());
        out
    }
}

impl TcmQuery {
    /// Reads an address: one separator at the end is dropped, the rest is
    /// split at the separators, missing segments become wildcards, and
    /// segments after the fourth are left out.
    pub fn parse(sql: &str) -> (q: TcmQuery)
        ensures
            q.world_id@ == segment(sql@, 0),
            q.zone_id@ == segment(sql@, 1),
            q.proc_id@ == segment(sql@, 2),
            q.inst_id@ == segment(sql@, 3),
    {
        let mut chars = chars_of(sql);
        let n = chars.len();
        if n > 0 && chars[n - 1] == '.' {
            chars.pop();
            assert(chars@ == sql@.drop_last());
        }
        assert(chars@ == strip_trailing_separator(sql@));
        let pieces = split_chars(&chars, '.');
        assert(views(pieces@) == address_segments(sql@));
        assert(forall|k: int| 0 <= k < pieces.len() ==> views(pieces@)[k] == pieces[k]@);
        TcmQuery {
            world_id: segment_of(&pieces, 0),
            zone_id: segment_of(&pieces, 1),
            proc_id: segment_of(&pieces, 2),
            inst_id: segment_of(&pieces, 3),
        }
    }

    /// The query text for this address over `table_name`. Literals are put in
    /// as they are.
    pub fn compile(&self, table_name: &str) -> (out: String)
        ensures
            out@ == query_text(
                self.world_id@,
                self.zone_id@,
                self.proc_id@,
                self.inst_id@,
                table_name@,
            ),
    {
        let mut out = String::from_str("select * from ");
        out.append(table_name);
        if !is_wildcard(&self.proc_id) {
            out.append(
                " JOIN procs ON procs.proc_group_name = deploy.group_name and procs.func_id = '",
            );
            out.append(self.proc_id.as_str());
            out.append("'");
        } else {
            out.append(" JOIN procs");
        }
        let world = !is_wildcard(&self.world_id);
        let zone = !is_wildcard(&self.zone_id);
        if world && zone {
            out.append(" JOIN deploy ON hosts.world_id = '");
            out.append(self.world_id.as_str());
            out.append("' and hosts.zone_id = '");
            out.append(self.zone_id.as_str());
            out.append("'");
        } else if world {
            out.append(" JOIN deploy ON hosts.world_id = '");
            out.append(self.world_id.as_str());
            out.append("'");
        } else if zone {
            out.append(" JOIN deploy ON hosts.zone_id = '");
            out.append(self.zone_id.as_str());
            out.append("'");
        } else {
            out.append(" JOIN deploy");
        }
        if !is_wildcard(&self.inst_id) {
            out.append(" WHERE deploy.inst_id = '");
            out.append(self.inst_id.as_str());
            out.append("' and hosts.id = deploy.host_id");
        } else {
            out.append(" WHERE hosts.id = deploy.host_id");
        }
        assert(out@ =~= query_text(
            self.world_id@,
            self.zone_id@,
            self.proc_id@,
            self.inst_id@,
            table_name@,
        ));
        out
    }
}

/// Compiles an address into the text of a join over `table_name`. Never
/// fails: what it cannot read as a wildcard it takes as a literal.
pub fn query_sql_join(sql: &str, table_name: &str) -> (out: String)
    ensures
        out@ == compiled_query(sql@, table_name@),
{
    let query = TcmQuery::parse(sql);
    query.compile(table_name)
}

/// A segment that the address is written with is taken as it stands, and
/// each of the four that it lacks is the wildcard: an address of `k`
/// segments, `k` at most four, is padded on the right and never cut.
pub proof fn law_missing_segments_are_wildcards(sql: Seq<char>, k: int)
    requires
        address_segments(sql).len() == k,
        k <= 4,
    ensures
        1 <= k,
        forall|j: int| 0 <= j < k ==> segment(sql, j) == address_segments(sql)[j],
        forall|j: int| k <= j < 4 ==> segment(sql, j) == wildcard(),
{
    lemma_split_nonempty(strip_trailing_separator(sql), separator());
}

/// With four wildcards the joins carry no predicate and the filter only ties
/// the host to its deployment.
pub proof fn law_all_wildcards_plain_joins(table_name: Seq<char>)
    ensures
        query_text(wildcard(), wildcard(), wildcard(), wildcard(), table_name)
            == "select * from "@ + table_name + " JOIN procs"@ + " JOIN deploy"@
            + " WHERE hosts.id = deploy.host_id"@,
{
}

/// Compiling is a function of the address and the table: two runs on the same
/// input give the same text.
pub proof fn law_compile_deterministic(
    sql: Seq<char>,
    table_name: Seq<char>,
    first: Seq<char>,
    second: Seq<char>,
)
    requires
        first == compiled_query(sql, table_name),
        second == compiled_query(sql, table_name),
    ensures
        first == second,
{
}

/// Two addresses of four or more segments that agree on their first four
/// compile to the same text.
pub proof fn law_only_first_four_segments_count(a: Seq<char>, b: Seq<char>, table_name: Seq<char>)
    requires
        address_segments(a).len() >= 4,
        address_segments(b).len() >= 4,
        address_segments(a).take(4) == address_segments(b).take(4),
    ensures
        compiled_query(a, table_name) == compiled_query(b, table_name),
{
    assert forall|k: int| 0 <= k < 4 implies segment(a, k) == segment(b, k) by {
        assert(address_segments(a).take(4)[k] == address_segments(a)[k]);
        assert(address_segments(b).take(4)[k] == address_segments(b)[k]);
    }
}

/// Whatever follows a fifth separator is ignored: an address of four segments
/// that does not end in a separator compiles to the same text with any
/// further segments behind it.
pub proof fn law_segments_after_fourth_ignored(
    address: Seq<char>,
    more: Seq<char>,
    table_name: Seq<char>,
)
    requires
        address_segments(address).len() == 4,
        address.len() == 0 || address.last() != separator(),
    ensures
        compiled_query(address + seq![separator()] + more, table_name) == compiled_query(
            address,
            table_name,
        ),
{
    let sep = separator();
    let whole = address + seq![sep] + more;
    assert(strip_trailing_separator(address) == address);
    if more.len() == 0 {
        assert(whole.drop_last() == address);
        assert(strip_trailing_separator(whole) == address);
    } else {
        let kept = strip_trailing_separator(more);
        assert(whole.last() == more.last());
        if more.last() == sep {
            assert(whole.drop_last() == address + seq![sep] + more.drop_last());
        }
        assert(strip_trailing_separator(whole) == address + seq![sep] + kept);
        lemma_split_joined(address, kept, sep);
        lemma_split_nonempty(kept, sep);
        assert forall|k: int| 0 <= k < 4 implies segment(whole, k) == segment(address, k) by {
            assert(address_segments(whole)[k] == split(address, sep)[k]);
        }
    }
}

/// The statements that make the three tables of the store.
pub fn return_init_sqls() -> (sqls: Vec<&'static str>)
    ensures
        sqls.len() == 3,
        sqls[0]@ == hosts_table_sql(),
        sqls[1]@ == procs_table_sql(),
        sqls[2]@ == deploy_table_sql(),
{
    let mut sqls: Vec<&'static str> = Vec::new();
    sqls.push(
        "CREATE TABLE hosts (
            id INTEGER PRIMARY KEY,
            inner_ip TEXT NOT NULL,
            host_name TEXT NOT NULL,
            world_id TEXT NOT NULL,
            zone_id TEXT NOT NULL
        )",
    );
    sqls.push(
        "CREATE TABLE procs (
            func_id INTEGER PRIMARY KEY,
            proc_type TEXT NOT NULL,
            work_path TEXT NOT NULL,
            func_name TEXT NOT NULL,
            proc_name TEXT NOT NULL,
            proc_group_name TEXT NOT NULL
        )",
    );
    sqls.push(
        "CREATE TABLE deploy (
            id INTEGER PRIMARY KEY,
            host_id INTEGER NOT NULL,
            group_name TEXT NOT NULL,
            inst_id INTEGER NOT NULL,
            UNIQUE(host_id, group_name, inst_id)
        )",
    );
    sqls
}

/// The statement that makes the table of hosts.
pub open spec fn hosts_table_sql() -> Seq<char> {
    "CREATE TABLE hosts (
            id INTEGER PRIMARY KEY,
            inner_ip TEXT NOT NULL,
            host_name TEXT NOT NULL,
            world_id TEXT NOT NULL,
            zone_id TEXT NOT NULL
        )"@
}

/// The statement that makes the table of processes.
pub open spec fn procs_table_sql() -> Seq<char> {
    "CREATE TABLE procs (
            func_id INTEGER PRIMARY KEY,
            proc_type TEXT NOT NULL,
            work_path TEXT NOT NULL,
            func_name TEXT NOT NULL,
            proc_name TEXT NOT NULL,
            proc_group_name TEXT NOT NULL
        )"@
}

/// The statement that makes the table of deployments.
pub open spec fn deploy_table_sql() -> Seq<char> {
    "CREATE TABLE deploy (
            id INTEGER PRIMARY KEY,
            host_id INTEGER NOT NULL,
            group_name TEXT NOT NULL,
            inst_id INTEGER NOT NULL,
            UNIQUE(host_id, group_name, inst_id)
        )"@
}

/// The first `n` of `rows`, with a comma and a space between one row and the
/// next.
pub open spec fn joined_values(rows: Seq<Seq<char>>, n: nat) -> Seq<char>
    decreases n,
{
    if n == 0 {
        Seq::empty()
    } else if n == 1 {
        rows[0]
    } else {
        joined_values(rows, (n - 1) as nat) + ", "@ + rows[n - 1]
    }
}

/// A host as a row of values: address, name, world and zone, each in single
/// quotes.
pub open spec fn host_values(h: HostInfo) -> Seq<char> {
    "('"@ + h.inner_ip@ + "', '"@ + h.host_name@ + "', '"@ + h.world_id@ + "', '"@ + h.zone_id@
        + "')"@
}

/// A process as a row of values: function id, layer, directory, function
/// name, process name and group, each in single quotes.
pub open spec fn proc_values(p: ProcInfo) -> Seq<char> {
    "('"@ + decimal(p.func_id as int) + "', '"@ + p.layer@ + "', '"@ + p.work_path@ + "', '"@
        + p.funcname@ + "', '"@ + p.proc_name@ + "', '"@ + p.group_name@ + "')"@
}

/// A deployment as a row of values: host id, group and instance, each in
/// single quotes.
pub open spec fn deploy_values(d: DeployInfo) -> Seq<char> {
    "('"@ + decimal(d.host_id as int) + "', '"@ + d.group_name@ + "', '"@ + decimal(
        d.inst_id as int,
    ) + "')"@
}

/// The statement that enters `hosts` into the table of hosts.
pub open spec fn insert_hosts_text(hosts: Seq<HostInfo>) -> Seq<char> {
    "INSERT INTO hosts (inner_ip, host_name, world_id, zone_id) VALUES "@ + joined_values(
        Seq::new(hosts.len(), |i: int| host_values(hosts[i])),
        hosts.len(),
    )
}

/// The statement that enters `procs` into the table of processes.
pub open spec fn insert_procs_text(procs: Seq<ProcInfo>) -> Seq<char> {
    "INSERT INTO procs (func_id, proc_type, work_path, func_name, proc_name, proc_group_name) VALUES "@
        + joined_values(Seq::new(procs.len(), |i: int| proc_values(procs[i])), procs.len())
}

/// The statement that enters `deploys` into the table of deployments.
pub open spec fn insert_deploy_text(deploys: Seq<DeployInfo>) -> Seq<char> {
    "INSERT INTO deploy (host_id, group_name, inst_id) VALUES "@ + joined_values(
        Seq::new(deploys.len(), |i: int| deploy_values(deploys[i])),
        deploys.len(),
    )
}

/// Appends one more row of values to a list of `n` rows.
fn push_row(values: &mut String, n: usize, row: &str, Ghost(rows): Ghost<Seq<Seq<char>>>)
    requires
        n < rows.len(),
        old(values)@ == joined_values(rows, n as nat),
        row@ == rows[n as int],
    ensures
        final(values)@ == joined_values(rows, (n + 1) as nat),
{
    if n > 0 {
        values.append(", ");
    }
    values.append(row);
    assert(values@ =~= joined_values(rows, (n + 1) as nat));
}

/// The text of the statement that enters `hosts` into the table of hosts.
pub fn insert_hosts_sql(hosts: &Vec<HostInfo>) -> (sql: String)
    ensures
        sql@ == insert_hosts_text(hosts@),
{
    let ghost rows = Seq::new(hosts@.len(), |i: int| host_values(hosts@[i]));
    let mut values = String::new();
    let mut i: usize = 0;
    while i < hosts.len()
        invariant
            i <= hosts.len(),
            rows == Seq::new(hosts@.len(), |i: int| host_values(hosts@[i])),
            values@ == joined_values(rows, i as nat),
        decreases hosts.len() - i,
    {
        let host_info = &hosts[i];
        let mut row = String::from_str("('");
        row.append(host_info.inner_ip.as_str());
        row.append("', '");
        row.append(host_info.host_name.as_str());
        row.append("', '");
        row.append(host_info.world_id.as_str());
        row.append("', '");
        row.append(host_info.zone_id.as_str());
        row.append("')");
        push_row(&mut values, i, row.as_str(), Ghost(rows));
        i = i + 1;
    }
    let mut sql = String::from_str(
        "INSERT INTO hosts (inner_ip, host_name, world_id, zone_id) VALUES ",
    );
    sql.append(values.as_str());
    sql
}

/// The text of the statement that enters `procs` into the table of
/// processes.
pub fn insert_procs_sql(procs: &Vec<ProcInfo>) -> (sql: String)
    ensures
        sql@ == insert_procs_text(procs@),
{
    let ghost rows = Seq::new(procs@.len(), |i: int| proc_values(procs@[i]));
    let mut values = String::new();
    let mut i: usize = 0;
    while i < procs.len()
        invariant
            i <= procs.len(),
            rows == Seq::new(procs@.len(), |i: int| proc_values(procs@[i])),
            values@ == joined_values(rows, i as nat),
        decreases procs.len() - i,
    {
        let proc = &procs[i];
        let mut row = String::from_str("('");
        row.append(decimal_string(proc.func_id).as_str());
        row.append("', '");
        row.append(proc.layer.as_str());
        row.append("', '");
        row.append(proc.work_path.as_str());
        row.append("', '");
        row.append(proc.funcname.as_str());
        row.append("', '");
        row.append(proc.proc_name.as_str());
        row.append("', '");
        row.append(proc.group_name.as_str());
        row.append("')");
        push_row(&mut values, i, row.as_str(), Ghost(rows));
        i = i + 1;
    }
    let mut sql = String::from_str(
        "INSERT INTO procs (func_id, proc_type, work_path, func_name, proc_name, proc_group_name) VALUES ",
    );
    sql.append(values.as_str());
    sql
}

/// The text of the statement that enters `deploys` into the table of
/// deployments.
pub fn insert_deploy_sql(deploys: &Vec<DeployInfo>) -> (sql: String)
    ensures
        sql@ == insert_deploy_text(deploys@),
{
    let ghost rows = Seq::new(deploys@.len(), |i: int| deploy_values(deploys@[i]));
    let mut values = String::new();
    let mut i: usize = 0;
    while i < deploys.len()
        invariant
            i <= deploys.len(),
            rows == Seq::new(deploys@.len(), |i: int| deploy_values(deploys@[i])),
            values@ == joined_values(rows, i as nat),
        decreases deploys.len() - i,
    {
        let deploy = &deploys[i];
        let mut row = String::from_str("('");
        row.append(decimal_string(deploy.host_id).as_str());
        row.append("', '");
        row.append(deploy.group_name.as_str());
        row.append("', '");
        row.append(decimal_string(deploy.inst_id).as_str());
        row.append("')");
        push_row(&mut values, i, row.as_str(), Ghost(rows));
        i = i + 1;
    }
    let mut sql = String::from_str("INSERT INTO deploy (host_id, group_name, inst_id) VALUES ");
    sql.append(values.as_str());
    sql
}

/// The query for the id of the host with an address, a world and a zone.
pub open spec fn host_id_text(inner_ip: Seq<char>, world_id: Seq<char>, zone_id: Seq<char>) -> Seq<
    char,
> {
    "select id from hosts WHERE inner_ip = '"@ + inner_ip + "' and world_id = '"@ + world_id
        + "' and zone_id = '"@ + zone_id + "';"@
}

/// The text of the query for the id of a host.
pub fn host_id_sql(inner_ip: &str, world_id: &str, zone_id: &str) -> (sql: String)
    ensures
        sql@ == host_id_text(inner_ip@, world_id@, zone_id@),
{
    let mut sql = String::from_str("select id from hosts WHERE inner_ip = '");
    sql.append(inner_ip);
    sql.append("' and world_id = '");
    sql.append(world_id);
    sql.append("' and zone_id = '");
    sql.append(zone_id);
    sql.append("';");
    sql
}

/// The query for every row of a table.
pub open spec fn select_all_text(table_name: Seq<char>) -> Seq<char> {
    "select * from "@ + table_name
}

/// The text of the query for every row of a table.
pub fn select_all_sql(table_name: &str) -> (sql: String)
    ensures
        sql@ == select_all_text(table_name@),
{
    let mut sql = String::from_str("select * from ");
    sql.append(table_name);
    sql
}

} // verus!
