use tcm_walker::components::total_proc::TotalProc;
use tcm_walker::tools::host::HostInfo;
use tcm_walker::tools::proc::ProcInfo;
use tcm_walker::tools::search::{any_field_contains, search_vec, FieldValue, Searchable};

fn host(inner_ip: &str, host_name: &str, world_id: &str, zone_id: &str) -> HostInfo {
    HostInfo {
        inner_ip: inner_ip.to_string(),
        host_name: host_name.to_string(),
        world_id: world_id.to_string(),
        zone_id: zone_id.to_string(),
    }
}

#[test]
fn it_should_word() {
    let target_hosts = vec![
        HostInfo {
            inner_ip: "127.0.0.3".to_string(),
            host_name: "Host_DB_70".to_string(),
            world_id: "4".to_string(),
            zone_id: "70".to_string(),
        },
        HostInfo {
            inner_ip: "127.0.0.1".to_string(),
            host_name: "Host_DR_70".to_string(),
            world_id: "4".to_string(),
            zone_id: "70".to_string(),
        },
        HostInfo {
            inner_ip: "127.0.0.1".to_string(),
            host_name: "Host_DR_70".to_string(),
            world_id: "4".to_string(),
            zone_id: "700".to_string(),
        },
        HostInfo {
            inner_ip: "127.0.0.1".to_string(),
            host_name: "Host_Main_70".to_string(),
            world_id: "4".to_string(),
            zone_id: "70".to_string(),
        },
        HostInfo {
            inner_ip: "127.0.0.1".to_string(),
            host_name: "Host_Main_70".to_string(),
            world_id: "4".to_string(),
            zone_id: "70".to_string(),
        },
        HostInfo {
            inner_ip: "127.0.0.1".to_string(),
            host_name: "Host_Main_70".to_string(),
            world_id: "4".to_string(),
            zone_id: "70".to_string(),
        },
    ];
    let keyword = "300";
    let filtered_hosts = search_vec(&target_hosts, keyword);
    assert_eq!(filtered_hosts, vec![]);
    let second_keyword = "700";
    let se_filtered_hosts = search_vec(&target_hosts, second_keyword);
    assert_eq!(
        se_filtered_hosts,
        vec![HostInfo {
            inner_ip: "127.0.0.1".to_string(),
            host_name: "Host_DR_70".to_string(),
            world_id: "4".to_string(),
            zone_id: "700".to_string(),
        }]
    )
}

#[test]
fn search_keeps_the_order_of_the_collection() {
    let hosts = vec![
        host("10.0.0.1", "alpha", "1", "10"),
        host("10.0.0.2", "beta", "1", "20"),
        host("10.0.0.3", "alphabet", "2", "10"),
        host("10.0.0.4", "gamma", "2", "20"),
    ];
    let found = search_vec(&hosts, "alpha");
    assert_eq!(found, vec![hosts[0].clone(), hosts[2].clone()]);
    assert_eq!(hosts.len(), 4);
}

#[test]
fn search_looks_at_every_field() {
    let hosts = vec![
        host("10.0.0.1", "alpha", "1", "10"),
        host("10.0.0.2", "beta", "77", "20"),
        host("10.0.0.77", "gamma", "2", "30"),
        host("10.0.0.4", "delta", "2", "77"),
        host("10.0.0.5", "host77", "2", "40"),
    ];
    let found = search_vec(&hosts, "77");
    assert_eq!(
        found,
        vec![hosts[1].clone(), hosts[2].clone(), hosts[3].clone(), hosts[4].clone()]
    );
}

#[test]
fn search_minds_the_case() {
    let hosts = vec![host("10.0.0.1", "Alpha", "1", "10")];
    assert_eq!(search_vec(&hosts, "alpha"), vec![]);
    assert_eq!(search_vec(&hosts, "Alpha"), hosts);
}

#[test]
fn the_empty_keyword_keeps_every_record() {
    let hosts = vec![
        host("10.0.0.1", "alpha", "1", "10"),
        host("", "", "", ""),
        host("10.0.0.3", "gamma", "2", "10"),
    ];
    assert_eq!(search_vec(&hosts, ""), hosts);
}

#[test]
fn search_of_nothing_finds_nothing() {
    let hosts: Vec<HostInfo> = Vec::new();
    assert_eq!(search_vec(&hosts, "x"), vec![]);
    assert_eq!(search_vec(&hosts, ""), vec![]);
}

#[test]
fn a_keyword_longer_than_every_field_matches_nothing() {
    let hosts = vec![host("1", "a", "2", "3")];
    assert_eq!(search_vec(&hosts, "10.0.0.1"), vec![]);
}

#[test]
fn a_keyword_at_the_end_of_a_field_matches() {
    let hosts = vec![host("10.0.0.1", "alpha", "1", "10")];
    assert_eq!(search_vec(&hosts, "0.1"), hosts);
    assert_eq!(search_vec(&hosts, "pha"), hosts);
    assert_eq!(search_vec(&hosts, "phax"), vec![]);
}

#[test]
fn numbers_take_no_part_in_a_search() {
    let procs = vec![ProcInfo {
        layer: "Cluster".to_string(),
        funcname: "gamesvr".to_string(),
        group_name: "game".to_string(),
        func_id: 4242,
        work_path: "/data/run".to_string(),
        proc_name: "gamesvr".to_string(),
    }];
    assert_eq!(search_vec(&procs, "4242"), vec![]);
    assert_eq!(search_vec(&procs, "game"), procs);
}

#[test]
fn ids_of_joined_rows_are_texts() {
    let rows = vec![TotalProc {
        func_id: "4242".to_string(),
        inst_id: "1".to_string(),
        proc_name: "gamesvr".to_string(),
        group_name: "game".to_string(),
        inner_ip: "10.0.0.1".to_string(),
        host_name: "alpha".to_string(),
        world_id: "2".to_string(),
        zone_id: "200".to_string(),
        work_path: "/data/run".to_string(),
        func_name: "gamesvr".to_string(),
    }];
    assert_eq!(search_vec(&rows, "4242"), rows);
    assert_eq!(search_vec(&rows, "4243"), vec![]);
}

#[test]
fn an_absent_text_matches_nothing() {
    let keyword: Vec<char> = Vec::new();
    let absent = vec![
        ("a".to_string(), FieldValue::Optional(None)),
        ("b".to_string(), FieldValue::Other),
    ];
    assert!(!any_field_contains(&absent, &keyword));
    let present = vec![
        ("a".to_string(), FieldValue::Optional(None)),
        ("b".to_string(), FieldValue::Optional(Some("xyz".to_string()))),
    ];
    assert!(any_field_contains(&present, &keyword));
    let y: Vec<char> = vec!['y'];
    assert!(any_field_contains(&present, &y));
    assert!(FieldValue::Text("xyz".to_string()).contains(&y));
    assert!(!FieldValue::Other.contains(&y));
}

#[test]
fn a_host_lists_its_four_fields() {
    let pairs = host("10.0.0.1", "alpha", "1", "10").field_pairs();
    let names: Vec<&str> = pairs.iter().map(|p| p.0.as_str()).collect();
    assert_eq!(names, vec!["inner_ip", "host_name", "world_id", "zone_id"]);
    assert!(matches!(&pairs[1].1, FieldValue::Text(t) if t == "alpha"));
}
