use tcm_walker::database::{
    host_id_sql, insert_deploy_sql, insert_hosts_sql, insert_procs_sql, is_wildcard,
    return_init_sqls, select_all_sql,
};
use tcm_walker::tools::deploy::DeployInfo;
use tcm_walker::tools::host::HostInfo;
use tcm_walker::tools::proc::ProcInfo;

#[test]
fn the_store_has_three_tables() {
    let sqls = return_init_sqls();
    assert_eq!(sqls.len(), 3);
    assert!(sqls[0].starts_with("CREATE TABLE hosts ("));
    assert!(sqls[0].contains("zone_id TEXT NOT NULL"));
    assert!(sqls[1].starts_with("CREATE TABLE procs ("));
    assert!(sqls[1].contains("func_id INTEGER PRIMARY KEY"));
    assert!(sqls[2].starts_with("CREATE TABLE deploy ("));
    assert!(sqls[2].ends_with("UNIQUE(host_id, group_name, inst_id)\n        )"));
}

#[test]
fn hosts_are_entered_in_one_statement() {
    let hosts = vec![
        HostInfo {
            inner_ip: "10.0.0.1".to_string(),
            host_name: "alpha".to_string(),
            world_id: "2".to_string(),
            zone_id: "200".to_string(),
        },
        HostInfo {
            inner_ip: "10.0.0.2".to_string(),
            host_name: "beta".to_string(),
            world_id: "0".to_string(),
            zone_id: "0".to_string(),
        },
    ];
    assert_eq!(
        insert_hosts_sql(&hosts),
        "INSERT INTO hosts (inner_ip, host_name, world_id, zone_id) VALUES ('10.0.0.1', 'alpha', '2', '200'), ('10.0.0.2', 'beta', '0', '0')"
    );
    assert_eq!(
        insert_hosts_sql(&hosts[..1].to_vec()),
        "INSERT INTO hosts (inner_ip, host_name, world_id, zone_id) VALUES ('10.0.0.1', 'alpha', '2', '200')"
    );
    assert_eq!(
        insert_hosts_sql(&Vec::new()),
        "INSERT INTO hosts (inner_ip, host_name, world_id, zone_id) VALUES "
    );
}

#[test]
fn processes_are_entered_in_one_statement() {
    let procs = vec![
        ProcInfo {
            layer: "Zone".to_string(),
            funcname: "gamesvr".to_string(),
            group_name: "game".to_string(),
            func_id: 201,
            work_path: "/data/run".to_string(),
            proc_name: "game_run".to_string(),
        },
        ProcInfo {
            layer: "Cluster".to_string(),
            funcname: "dirsvr".to_string(),
            group_name: "center".to_string(),
            func_id: -3,
            work_path: "./".to_string(),
            proc_name: "dirsvr".to_string(),
        },
    ];
    assert_eq!(
        insert_procs_sql(&procs),
        "INSERT INTO procs (func_id, proc_type, work_path, func_name, proc_name, proc_group_name) VALUES ('201', 'Zone', '/data/run', 'gamesvr', 'game_run', 'game'), ('-3', 'Cluster', './', 'dirsvr', 'dirsvr', 'center')"
    );
}

#[test]
fn deployments_are_entered_in_one_statement() {
    let deploys = vec![
        DeployInfo::new(1, "game".to_string(), 1),
        DeployInfo::new(12, "db".to_string(), 0),
        DeployInfo::new(3, "dir".to_string(), 40),
    ];
    assert_eq!(
        insert_deploy_sql(&deploys),
        "INSERT INTO deploy (host_id, group_name, inst_id) VALUES ('1', 'game', '1'), ('12', 'db', '0'), ('3', 'dir', '40')"
    );
}

#[test]
fn a_host_is_asked_for_by_address_world_and_zone() {
    assert_eq!(
        host_id_sql("10.0.0.1", "2", "200"),
        "select id from hosts WHERE inner_ip = '10.0.0.1' and world_id = '2' and zone_id = '200';"
    );
    assert_eq!(select_all_sql("procs"), "select * from procs");
}

#[test]
fn only_the_star_is_the_wildcard() {
    assert!(is_wildcard(&"*".to_string()));
    assert!(!is_wildcard(&"".to_string()));
    assert!(!is_wildcard(&"**".to_string()));
    assert!(!is_wildcard(&"2".to_string()));
    assert!(!is_wildcard(&" *".to_string()));
}
