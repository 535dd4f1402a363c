use tcm_walker::database::{query_sql_join, TcmQuery};

#[test]
fn test_sql_parse() {
    let tcm_query = "*.*.*.*";
    let sql = query_sql_join(tcm_query, "hosts");
    assert_eq!(
        sql,
        "select * from hosts JOIN procs JOIN deploy WHERE hosts.id = deploy.host_id"
    );
    let tcm_world_query = "2.*.*.*";
    let sql1 = query_sql_join(tcm_world_query, "hosts");
    assert_eq!(
        sql1,
        "select * from hosts JOIN procs JOIN deploy ON hosts.world_id = '2' WHERE hosts.id = deploy.host_id"
    );
    let tcm_zone_query = "*.200.*.*";
    let sql2 = query_sql_join(tcm_zone_query, "hosts");
    assert_eq!(
        sql2,
        "select * from hosts JOIN procs JOIN deploy ON hosts.zone_id = '200' WHERE hosts.id = deploy.host_id"
    );
    let tcm_zone_func_id_query = "*.200.201.*";
    let sql3 = query_sql_join(tcm_zone_func_id_query, "hosts");
    assert_eq!(
        sql3,
        "select * from hosts JOIN procs ON procs.proc_group_name = deploy.group_name and procs.func_id = '201' JOIN deploy ON hosts.zone_id = '200' WHERE hosts.id = deploy.host_id"
    );
    let tcm_zone_func_inst_id_query = "*.200.201.1";
    let sql4 = query_sql_join(tcm_zone_func_inst_id_query, "hosts");
    assert_eq!(
        sql4,
        "select * from hosts JOIN procs ON procs.proc_group_name = deploy.group_name and procs.func_id = '201' JOIN deploy ON hosts.zone_id = '200' WHERE deploy.inst_id = '1' and hosts.id = deploy.host_id"
    );
}

#[test]
fn world_and_zone_literals_share_one_predicate() {
    assert_eq!(
        query_sql_join("2.200.*.*", "hosts"),
        "select * from hosts JOIN procs JOIN deploy ON hosts.world_id = '2' and hosts.zone_id = '200' WHERE hosts.id = deploy.host_id"
    );
}

#[test]
fn every_segment_a_literal() {
    assert_eq!(
        query_sql_join("2.200.201.1", "hosts"),
        "select * from hosts JOIN procs ON procs.proc_group_name = deploy.group_name and procs.func_id = '201' JOIN deploy ON hosts.world_id = '2' and hosts.zone_id = '200' WHERE deploy.inst_id = '1' and hosts.id = deploy.host_id"
    );
}

#[test]
fn short_addresses_are_padded_with_wildcards() {
    let all = query_sql_join("*.*.*.*", "hosts");
    assert_eq!(query_sql_join("*", "hosts"), all);
    assert_eq!(query_sql_join("*.*", "hosts"), all);
    assert_eq!(query_sql_join("*.*.*", "hosts"), all);
    assert_eq!(query_sql_join("2", "hosts"), query_sql_join("2.*.*.*", "hosts"));
    assert_eq!(query_sql_join("2.200", "hosts"), query_sql_join("2.200.*.*", "hosts"));
    assert_eq!(
        query_sql_join("2.200.201", "hosts"),
        query_sql_join("2.200.201.*", "hosts")
    );
}

#[test]
fn one_trailing_separator_is_dropped() {
    assert_eq!(query_sql_join("2.", "hosts"), query_sql_join("2", "hosts"));
    assert_eq!(
        query_sql_join("2.200.201.1.", "hosts"),
        query_sql_join("2.200.201.1", "hosts")
    );
    let q = TcmQuery::parse("2..");
    assert_eq!(q.world_id, "2");
    assert_eq!(q.zone_id, "");
    assert_eq!(q.proc_id, "*");
    assert_eq!(q.inst_id, "*");
}

#[test]
fn the_empty_address_has_one_empty_literal() {
    let q = TcmQuery::parse("");
    assert_eq!(q.world_id, "");
    assert_eq!(q.zone_id, "*");
    assert_eq!(q.proc_id, "*");
    assert_eq!(q.inst_id, "*");
    assert_eq!(
        query_sql_join("", "hosts"),
        "select * from hosts JOIN procs JOIN deploy ON hosts.world_id = '' WHERE hosts.id = deploy.host_id"
    );
}

#[test]
fn segments_after_the_fourth_are_ignored() {
    assert_eq!(
        query_sql_join("*.200.201.1.9", "hosts"),
        query_sql_join("*.200.201.1", "hosts")
    );
    assert_eq!(
        query_sql_join("1.2.3.4.5.6.7", "hosts"),
        query_sql_join("1.2.3.4", "hosts")
    );
    let q = TcmQuery::parse("1.2.3.4.5.6");
    assert_eq!(q.world_id, "1");
    assert_eq!(q.zone_id, "2");
    assert_eq!(q.proc_id, "3");
    assert_eq!(q.inst_id, "4");
}

#[test]
fn compiling_twice_gives_the_same_text() {
    let first = query_sql_join("3.*.77.*", "hosts");
    let second = query_sql_join("3.*.77.*", "hosts");
    assert_eq!(first, second);
    assert_eq!(first.as_bytes(), second.as_bytes());
}

#[test]
fn literals_are_passed_through_verbatim() {
    assert_eq!(
        query_sql_join("a b.'; --.*.*", "t"),
        "select * from t JOIN procs JOIN deploy ON hosts.world_id = 'a b' and hosts.zone_id = ''; --' WHERE hosts.id = deploy.host_id"
    );
}

#[test]
fn the_table_name_is_put_in_as_given() {
    assert_eq!(
        query_sql_join("*", "deploy"),
        "select * from deploy JOIN procs JOIN deploy WHERE hosts.id = deploy.host_id"
    );
}

#[test]
fn a_query_compiles_from_its_four_segments() {
    let q = TcmQuery {
        world_id: "*".to_string(),
        zone_id: "*".to_string(),
        proc_id: "*".to_string(),
        inst_id: "7".to_string(),
    };
    assert_eq!(
        q.compile("hosts"),
        "select * from hosts JOIN procs JOIN deploy WHERE deploy.inst_id = '7' and hosts.id = deploy.host_id"
    );
}
