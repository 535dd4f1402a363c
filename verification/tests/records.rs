use tcm_walker::description::deploy::{
    ClusterDeploy, DeployGroup, DeployTcmCenter, World, Zone, ZoneDeployGroup,
};
use tcm_walker::description::host::{return_0, Host, HostTab, HostTcmCenter};
use tcm_walker::description::proc::{
    Cluster, ClusterEelement, Proc, ProcGroup, ProcGroupProc, ProcTcmCenter, WorldElement,
    WorldProc,
};
use tcm_walker::description::DescriptorError;
use tcm_walker::lookup::{host_table, NameTable};
use tcm_walker::tools::deploy::{placements_of, DeployInfo, Placement};
use tcm_walker::tools::host::{collect_host_info, HostInfo};
use tcm_walker::tools::proc::{
    collect_proc_info, declared_procs_of, group_table, join_work_path, path_join, LayerEnum,
    ProcAction, ProcInfo, ProcType,
};
use tcm_walker::utils::{
    collect_deploy_info, deploy_lookups, return_hosts, return_procs, DeployLookup, TcmCenterType,
    TcmCommand,
};

fn host_center() -> HostTcmCenter {
    HostTcmCenter {
        host_tab: HostTab {
            hosts: vec![
                Host {
                    name: "alpha".to_string(),
                    inner_ip: "10.0.0.1".to_string(),
                    outer_ip_count: return_0(),
                    outer_ip: None,
                },
                Host {
                    name: "beta".to_string(),
                    inner_ip: "10.0.0.2".to_string(),
                    outer_ip_count: 1,
                    outer_ip: Some("1.2.3.4".to_string()),
                },
                Host {
                    name: "alpha".to_string(),
                    inner_ip: "10.0.0.9".to_string(),
                    outer_ip_count: 0,
                    outer_ip: None,
                },
            ],
        },
    }
}

fn deploy_center() -> DeployTcmCenter {
    DeployTcmCenter {
        cluster_deploy: ClusterDeploy {
            deploy_groups: vec![
                DeployGroup { group: "center".to_string(), host: None, inst_id: None },
                DeployGroup {
                    group: "dir".to_string(),
                    host: Some("beta".to_string()),
                    inst_id: Some(5),
                },
            ],
            worlds: vec![
                World {
                    id: "2".to_string(),
                    zone_list: vec![
                        Zone {
                            id: "200".to_string(),
                            deploy_groups: vec![
                                ZoneDeployGroup {
                                    group: "game".to_string(),
                                    host: "alpha".to_string(),
                                    custom_attr: None,
                                    inst_id: None,
                                },
                                ZoneDeployGroup {
                                    group: "db".to_string(),
                                    host: "beta".to_string(),
                                    custom_attr: Some("x".to_string()),
                                    inst_id: Some(3),
                                },
                            ],
                        },
                        Zone { id: "201".to_string(), deploy_groups: vec![] },
                    ],
                },
                World {
                    id: "3".to_string(),
                    zone_list: vec![Zone {
                        id: "300".to_string(),
                        deploy_groups: vec![ZoneDeployGroup {
                            group: "game".to_string(),
                            host: "beta".to_string(),
                            custom_attr: None,
                            inst_id: Some(1),
                        }],
                    }],
                },
            ],
        },
    }
}

fn host(inner_ip: &str, host_name: &str, world_id: &str, zone_id: &str) -> HostInfo {
    HostInfo {
        inner_ip: inner_ip.to_string(),
        host_name: host_name.to_string(),
        world_id: world_id.to_string(),
        zone_id: zone_id.to_string(),
    }
}

fn proc(func_name: &str, func_id: i32, proc_name: Option<&str>, work_path: Option<&str>) -> Proc {
    Proc {
        func_name: func_name.to_string(),
        func_id,
        proc_name: proc_name.map(|s| s.to_string()),
        work_path: work_path.map(|s| s.to_string()),
        flag: "".to_string(),
        is_common: None,
        config_path: None,
        seq: None,
        auto_script: None,
        restart_cmd: None,
    }
}

fn group(name: &str, procs: &[&str]) -> ProcGroup {
    ProcGroup {
        name: name.to_string(),
        layer: "Zone".to_string(),
        proc_group_proc: procs
            .iter()
            .map(|p| ProcGroupProc {
                func_name: p.to_string(),
                agrs: None,
                group_name: None,
                layer: None,
            })
            .collect(),
    }
}

fn proc_center() -> ProcTcmCenter {
    ProcTcmCenter {
        cluster_vec: vec![Cluster {
            work_path: Some("/data".to_string()),
            auto_time_gap: None,
            op_timeout: None,
            proc_list: vec![
                ClusterEelement::Proc(proc("dirsvr", 101, None, None)),
                ClusterEelement::World(tcm_walker::description::proc::World {
                    isolated: "".to_string(),
                    auto_time_gap: None,
                    op_timeout: None,
                    proc_list: vec![
                        WorldElement::Proc(WorldProc {
                            func_name: "worldsvr".to_string(),
                            func_id: 150,
                            proc_name: Some("world_run".to_string()),
                            work_path: Some("world".to_string()),
                            flag: "".to_string(),
                            is_common: None,
                            config_path: None,
                            seq: None,
                            auto_script: None,
                            restart_cmd: None,
                        }),
                        WorldElement::Zone(tcm_walker::description::proc::Zone {
                            isolated: "".to_string(),
                            auto_time_gap: None,
                            op_timeout: None,
                            zone_proc_vec: vec![
                                proc("gamesvr", 201, None, Some("game/")),
                                proc("dbsvr", 202, Some("db_run"), Some("/abs/db")),
                            ],
                        }),
                    ],
                }),
            ],
        }],
        procgroup_vec: vec![
            group("center", &["dirsvr", "worldsvr"]),
            group("game", &["gamesvr", "dbsvr"]),
            group("late", &["dbsvr"]),
        ],
    }
}

#[test]
fn the_host_table_knows_every_host_and_the_local_one() {
    let table = host_table(&host_center());
    assert_eq!(table.get("beta"), Some("10.0.0.2".to_string()));
    assert_eq!(table.get("alpha"), Some("10.0.0.9".to_string()));
    assert_eq!(table.get("TcmHost"), Some("127.0.0.1".to_string()));
    assert_eq!(table.get("gamma"), None);
    assert_eq!(table.get("10.0.0.2"), None);
}

#[test]
fn a_name_table_keeps_the_last_text_under_a_name() {
    let mut table = NameTable::new();
    assert_eq!(table.get("a"), None);
    table.insert("a".to_string(), "1".to_string());
    table.insert("b".to_string(), "2".to_string());
    assert_eq!(table.get("a"), Some("1".to_string()));
    table.insert("a".to_string(), "3".to_string());
    assert_eq!(table.get("a"), Some("3".to_string()));
    assert_eq!(table.get("b"), Some("2".to_string()));
    assert_eq!(table.get(""), None);
}

#[test]
fn placements_come_cluster_first_then_world_by_world() {
    let ps = placements_of(&deploy_center());
    assert_eq!(ps.len(), 5);
    assert_eq!(
        ps[0],
        Placement { group: "center".to_string(), host: None, inst_id: None, place: None }
    );
    assert_eq!(ps[1].host, Some("beta".to_string()));
    assert_eq!(ps[2].place, Some(("2".to_string(), "200".to_string())));
    assert_eq!(ps[3].group, "db");
    assert_eq!(ps[3].inst_id, Some(3));
    assert_eq!(ps[4].place, Some(("3".to_string(), "300".to_string())));
}

#[test]
fn hosts_are_collected_with_their_addresses() {
    let table = host_table(&host_center());
    let hosts = collect_host_info(deploy_center(), &table);
    assert_eq!(
        hosts,
        Ok(vec![
            host("127.0.0.1", "TcmHost", "0", "0"),
            host("10.0.0.2", "beta", "0", "0"),
            host("10.0.0.9", "alpha", "2", "200"),
            host("10.0.0.2", "beta", "2", "200"),
            host("10.0.0.2", "beta", "3", "300"),
        ])
    );
}

#[test]
fn a_host_that_the_table_lacks_stops_the_collection() {
    let mut center = deploy_center();
    center.cluster_deploy.worlds[0].zone_list[0].deploy_groups[1].host = "nowhere".to_string();
    center.cluster_deploy.worlds[1].zone_list[0].deploy_groups[0].host = "lost".to_string();
    let table = host_table(&host_center());
    assert_eq!(
        collect_host_info(center, &table),
        Err(DescriptorError::UnknownHost("nowhere".to_string()))
    );
    let empty = NameTable::new();
    assert_eq!(
        collect_host_info(deploy_center(), &empty),
        Err(DescriptorError::UnknownHost("TcmHost".to_string()))
    );
}

#[test]
fn an_empty_descriptor_has_no_hosts() {
    let table = host_table(&host_center());
    assert_eq!(collect_host_info(DeployTcmCenter::default(), &table), Ok(vec![]));
    assert_eq!(placements_of(&DeployTcmCenter::default()), vec![]);
}

#[test]
fn return_hosts_wants_the_deployment_descriptor() {
    let table = host_table(&host_center());
    let hosts = return_hosts(TcmCenterType::Deploy(deploy_center()), &table);
    assert_eq!(hosts.map(|h| h.len()), Ok(5));
    assert_eq!(
        return_hosts(TcmCenterType::Host(host_center()), &table),
        Err(DescriptorError::WrongDescriptor)
    );
    assert_eq!(
        return_hosts(TcmCenterType::Proc(proc_center()), &table),
        Err(DescriptorError::WrongDescriptor)
    );
}

#[test]
fn lookups_name_what_identifies_the_host() {
    let table = host_table(&host_center());
    let lookups = deploy_lookups(&deploy_center(), &table).unwrap();
    assert_eq!(lookups.len(), 5);
    assert_eq!(
        lookups[0],
        DeployLookup {
            inner_ip: "localhost".to_string(),
            world_id: "0".to_string(),
            zone_id: "0".to_string(),
            group_name: "center".to_string(),
            inst_id: 0,
        }
    );
    assert_eq!(lookups[1].inner_ip, "10.0.0.2");
    assert_eq!(lookups[1].inst_id, 5);
    assert_eq!(
        lookups[2],
        DeployLookup {
            inner_ip: "10.0.0.9".to_string(),
            world_id: "2".to_string(),
            zone_id: "200".to_string(),
            group_name: "game".to_string(),
            inst_id: 1,
        }
    );
    assert_eq!(lookups[3].inst_id, 3);
    assert_eq!(lookups[4].zone_id, "300");
}

#[test]
fn lookups_stop_at_a_host_that_the_table_lacks() {
    let mut center = deploy_center();
    center.cluster_deploy.deploy_groups[1].host = Some("nowhere".to_string());
    let table = host_table(&host_center());
    assert_eq!(
        deploy_lookups(&center, &table),
        Err(DescriptorError::UnknownHost("nowhere".to_string()))
    );
    let empty = NameTable::new();
    let mut center = deploy_center();
    center.cluster_deploy.deploy_groups.truncate(1);
    center.cluster_deploy.worlds.clear();
    assert_eq!(deploy_lookups(&center, &empty).map(|l| l.len()), Ok(1));
}

#[test]
fn deployments_take_the_ids_of_their_hosts() {
    let table = host_table(&host_center());
    let lookups = deploy_lookups(&deploy_center(), &table).unwrap();
    let deploys = collect_deploy_info(&lookups, &vec![11, 12, 13, 14, 15]);
    assert_eq!(
        deploys,
        Some(vec![
            DeployInfo::new(11, "center".to_string(), 0),
            DeployInfo::new(12, "dir".to_string(), 5),
            DeployInfo::new(13, "game".to_string(), 1),
            DeployInfo::new(14, "db".to_string(), 3),
            DeployInfo::new(15, "game".to_string(), 1),
        ])
    );
    assert_eq!(collect_deploy_info(&lookups, &vec![11, 12]), None);
    assert_eq!(collect_deploy_info(&Vec::new(), &Vec::new()), Some(vec![]));
}

#[test]
fn declared_processes_come_in_the_order_of_the_descriptor() {
    let sources = declared_procs_of(&proc_center());
    let names: Vec<&str> = sources.iter().map(|s| s.func_name.as_str()).collect();
    assert_eq!(names, vec!["dirsvr", "worldsvr", "gamesvr", "dbsvr"]);
    assert_eq!(sources[0].layer, LayerEnum::Cluster);
    assert_eq!(sources[1].layer, LayerEnum::Cluster);
    assert_eq!(sources[2].layer, LayerEnum::Zone);
    assert_eq!(sources[3].base, Some("/data".to_string()));
}

#[test]
fn the_group_table_gives_a_process_its_last_group() {
    let table = group_table(&proc_center().procgroup_vec);
    assert_eq!(table.get("dirsvr"), Some("center".to_string()));
    assert_eq!(table.get("gamesvr"), Some("game".to_string()));
    assert_eq!(table.get("dbsvr"), Some("late".to_string()));
    assert_eq!(table.get("center"), None);
}

#[test]
fn processes_are_collected_with_group_and_directory() {
    let procs = collect_proc_info(proc_center());
    assert_eq!(
        procs,
        Ok(vec![
            ProcInfo {
                layer: "Cluster".to_string(),
                funcname: "dirsvr".to_string(),
                group_name: "center".to_string(),
                func_id: 101,
                work_path: "/data/./".to_string(),
                proc_name: "dirsvr".to_string(),
            },
            ProcInfo {
                layer: "Cluster".to_string(),
                funcname: "worldsvr".to_string(),
                group_name: "center".to_string(),
                func_id: 150,
                work_path: "/data/world".to_string(),
                proc_name: "world_run".to_string(),
            },
            ProcInfo {
                layer: "Zone".to_string(),
                funcname: "gamesvr".to_string(),
                group_name: "game".to_string(),
                func_id: 201,
                work_path: "/data/game/".to_string(),
                proc_name: "gamesvr".to_string(),
            },
            ProcInfo {
                layer: "Zone".to_string(),
                funcname: "dbsvr".to_string(),
                group_name: "late".to_string(),
                func_id: 202,
                work_path: "/abs/db".to_string(),
                proc_name: "db_run".to_string(),
            },
        ])
    );
}

#[test]
fn a_process_that_no_group_names_stops_the_collection() {
    let mut center = proc_center();
    center.procgroup_vec.remove(0);
    assert_eq!(
        collect_proc_info(center),
        Err(DescriptorError::UnknownProcess("dirsvr".to_string()))
    );
}

#[test]
fn return_procs_wants_the_process_descriptor() {
    assert_eq!(return_procs(TcmCenterType::Proc(proc_center())).map(|p| p.len()), Ok(4));
    assert_eq!(
        return_procs(TcmCenterType::Deploy(deploy_center())),
        Err(DescriptorError::WrongDescriptor)
    );
    assert_eq!(return_procs(TcmCenterType::Proc(ProcTcmCenter::default())), Ok(vec![]));
}

#[test]
fn a_descriptor_is_handed_out_as_what_it_is() {
    assert!(TcmCenterType::Deploy(deploy_center()).into_deploy().is_some());
    assert!(TcmCenterType::Deploy(deploy_center()).into_proc().is_none());
    assert!(TcmCenterType::Host(host_center()).into_host().is_some());
    assert!(TcmCenterType::Proc(proc_center()).into_host().is_none());
}

#[test]
fn paths_are_joined_with_a_slash() {
    assert_eq!(path_join("/data", "run"), "/data/run");
    assert_eq!(path_join("/data/", "run"), "/data/run");
    assert_eq!(path_join("/data", "/abs"), "/abs");
    assert_eq!(path_join("", "run"), "run");
    assert_eq!(path_join("/data", ""), "/data/");
    assert_eq!(path_join("./", "./"), "././");
    assert_eq!(path_join("a", "b/c"), "a/b/c");
}

#[test]
fn a_work_path_starts_at_the_current_directory_without_a_base() {
    assert_eq!(join_work_path(&None, "run"), "./run");
    assert_eq!(join_work_path(&Some("/data".to_string()), "run"), "/data/run");
    assert_eq!(join_work_path(&Some("/data".to_string()), "./"), "/data/./");
    assert_eq!(join_work_path(&None, "/abs"), "/abs");
}

#[test]
fn join_work_path_agrees_with_the_standard_path() {
    for base in ["", "/", "/data", "/data/", "a/b", "./"] {
        for name in ["", "run", "./", "/abs", "x/y", "../z"] {
            let expected = std::path::Path::new(base)
                .join(name)
                .to_str()
                .unwrap()
                .to_string();
            assert_eq!(path_join(base, name), expected);
        }
    }
}

#[test]
fn actions_and_layers_have_names() {
    assert_eq!(ProcAction::RunShell.name(), "RunShell");
    assert_eq!(ProcAction::from_name("Restart"), Some(ProcAction::Restart));
    assert_eq!(ProcAction::from_name("restart"), None);
    assert_eq!(ProcAction::from_name(""), None);
    for action in [
        ProcAction::Start,
        ProcAction::Stop,
        ProcAction::Check,
        ProcAction::Restart,
        ProcAction::Auto,
        ProcAction::RunShell,
    ] {
        assert_eq!(ProcAction::from_name(&action.name()), Some(action));
    }
    assert_eq!(ProcType::World.name(), "World");
    assert_eq!(ProcType::from_name("Zone"), Some(ProcType::Zone));
    assert_eq!(ProcType::from_name("Cluster"), Some(ProcType::Cluster));
    assert_eq!(ProcType::from_name("zone"), None);
    assert_eq!(LayerEnum::Cluster.name(), "Cluster");
    assert_eq!(LayerEnum::Zone.name(), "Zone");
    assert_eq!(TcmCommand::ListProc.name(), "listProc");
    assert_eq!(TcmCommand::Start.name(), "start");
    assert_eq!(TcmCommand::Stop.name(), "stop");
    assert_eq!(TcmCommand::CheckBe.name(), "checkbe");
    assert_eq!(TcmCommand::CheckNo.name(), "checkno");
}
