use tcm_walker::app::{App, Focus, Reply, Request, Screen, Step};
use tcm_walker::components::query_input::{InputColor, QueryType};
use tcm_walker::components::tabs::SelectedTab;
use tcm_walker::components::total_proc::TotalProc;
use tcm_walker::components::EventState;
use tcm_walker::config::KeyConfig;
use tcm_walker::database::TcmQueryResult;
use tcm_walker::event::Key;
use tcm_walker::tools::host::HostInfo;
use tcm_walker::tools::proc::ProcInfo;

fn host(inner_ip: &str, host_name: &str, world_id: &str, zone_id: &str) -> HostInfo {
    HostInfo {
        inner_ip: inner_ip.to_string(),
        host_name: host_name.to_string(),
        world_id: world_id.to_string(),
        zone_id: zone_id.to_string(),
    }
}

fn proc_info(func_id: i32, name: &str, work_path: &str) -> ProcInfo {
    ProcInfo {
        layer: "Cluster".to_string(),
        funcname: name.to_string(),
        group_name: "game".to_string(),
        func_id,
        work_path: work_path.to_string(),
        proc_name: format!("{}_run", name),
    }
}

fn row(host_id: i32, host_name: &str, func_id: i32, proc_name: &str, inst_id: i32) -> TcmQueryResult {
    TcmQueryResult {
        host_id,
        inner_ip: format!("10.0.0.{}", host_id),
        host_name: host_name.to_string(),
        world_id: "2".to_string(),
        zone_id: "200".to_string(),
        func_id,
        proc_type: "Zone".to_string(),
        work_path: "/data/run".to_string(),
        func_name: format!("{}_fn", proc_name),
        proc_name: proc_name.to_string(),
        proc_group_name: "game".to_string(),
        inst_id,
    }
}

fn hosts() -> Vec<HostInfo> {
    vec![
        host("10.0.0.1", "alpha", "2", "200"),
        host("10.0.0.2", "beta", "2", "201"),
        host("10.0.0.3", "gamma", "3", "300"),
    ]
}

fn procs() -> Vec<ProcInfo> {
    vec![proc_info(201, "gamesvr", "/data/run"), proc_info(202, "dbsvr", "./db")]
}

fn rows() -> Vec<TcmQueryResult> {
    vec![row(1, "alpha", 201, "gamesvr", 1), row(2, "beta", 202, "dbsvr", 1)]
}

fn app() -> App {
    App::new(KeyConfig::default(), hosts(), procs(), &rows())
}

fn quiet(step: &Step) -> bool {
    matches!(step.request, Request::Nothing)
}

fn type_text(app: &mut App, text: &str) {
    for c in text.chars() {
        let step = app.event(Key::Char(c));
        assert_eq!(step.state, EventState::Consumed);
        assert!(quiet(&step));
    }
}

#[test]
fn a_session_starts_in_the_host_search() {
    let app = app();
    assert_eq!(app.tab(), SelectedTab::Tab1);
    assert_eq!(app.focus(), Focus::Host);
    assert_eq!(app.screen(), Screen::Hosts);
    assert!(app.query_input.history.is_empty());
    assert_eq!(app.query_input.query_type, QueryType::Tcm);
    assert_eq!(app.host.items, hosts());
    assert_eq!(app.proc.items, procs());
    assert_eq!(app.total_proc.items.len(), 2);
    assert_eq!(app.total_proc.items[0].func_id, "201");
    assert_eq!(app.total_proc.items[1].host_name, "beta");
}

#[test]
fn the_process_search_key_switches_from_the_host_table() {
    let mut app = app();
    let step = app.event(Key::Char('2'));
    assert_eq!(step.state, EventState::Consumed);
    assert!(quiet(&step));
    assert_eq!(app.tab(), SelectedTab::Tab2);
    assert_eq!(app.focus(), Focus::Proc);
    assert!(app.query_input.history.is_empty());
    assert_eq!(app.query_input.tab, SelectedTab::Tab2);
    assert_eq!(app.screen(), Screen::Procs);
}

#[test]
fn the_process_search_key_drops_an_earlier_history_and_selection() {
    let mut app = app();
    app.event(Key::Tab);
    type_text(&mut app, "2.*");
    let step = app.event(Key::Enter);
    app.complete(step.request, Reply::Rows(rows()));
    assert_eq!(app.query_input.history.len(), 1);
    app.event(Key::Tab);
    assert_eq!(app.focus(), Focus::Host);
    app.event(Key::Down);
    assert_eq!(app.host.selected, Some(1));
    let step = app.event(Key::Char('2'));
    assert_eq!(step.state, EventState::Consumed);
    assert_eq!(app.tab(), SelectedTab::Tab2);
    assert_eq!(app.focus(), Focus::Proc);
    assert!(app.query_input.history.is_empty());
}

#[test]
fn the_host_search_key_switches_back() {
    let mut app = app();
    app.event(Key::Char('2'));
    let step = app.event(Key::Char('1'));
    assert_eq!(step.state, EventState::Consumed);
    assert_eq!(app.tab(), SelectedTab::Tab1);
    assert_eq!(app.focus(), Focus::Host);
    assert!(app.query_input.history.is_empty());
    assert_eq!(app.screen(), Screen::Hosts);
}

#[test]
fn a_switch_key_resets_the_mode_it_is_in() {
    let mut app = app();
    app.event(Key::Char('2'));
    app.event(Key::Tab);
    type_text(&mut app, "*");
    let step = app.event(Key::Enter);
    app.complete(step.request, Reply::Rows(rows()));
    app.event(Key::Tab);
    assert_eq!(app.focus(), Focus::TotalProc);
    let step = app.event(Key::Char('2'));
    assert_eq!(step.state, EventState::Consumed);
    assert_eq!(app.tab(), SelectedTab::Tab2);
    assert_eq!(app.focus(), Focus::Proc);
    assert!(app.query_input.history.is_empty());
}

#[test]
fn tab_goes_between_the_host_table_and_the_query_line() {
    let mut app = app();
    let step = app.event(Key::Tab);
    assert_eq!(step.state, EventState::Consumed);
    assert_eq!(app.focus(), Focus::Filter);
    assert_eq!(app.query_input.color, InputColor::Red);
    let step = app.event(Key::Tab);
    assert_eq!(step.state, EventState::Consumed);
    assert_eq!(app.focus(), Focus::Host);
    assert_eq!(app.query_input.color, InputColor::Reset);
}

#[test]
fn tab_in_the_process_search_goes_by_the_history() {
    let mut app = app();
    app.event(Key::Char('2'));
    app.event(Key::Tab);
    assert_eq!(app.focus(), Focus::Filter);
    assert_eq!(app.query_input.color, InputColor::Red);
    app.event(Key::Tab);
    assert_eq!(app.focus(), Focus::Proc);
    assert_eq!(app.query_input.color, InputColor::Reset);
    app.event(Key::Tab);
    type_text(&mut app, "*.200");
    let step = app.event(Key::Enter);
    assert_eq!(step.state, EventState::Consumed);
    app.complete(step.request, Reply::Rows(rows()));
    assert_eq!(app.screen(), Screen::TotalProcs);
    app.event(Key::Tab);
    assert_eq!(app.focus(), Focus::TotalProc);
    app.event(Key::Tab);
    assert_eq!(app.focus(), Focus::Filter);
}

#[test]
fn a_key_that_nothing_uses_changes_nothing() {
    let mut app = app();
    let step = app.event(Key::Char('q'));
    assert_eq!(step.state, EventState::NotConsumed);
    assert!(quiet(&step));
    assert_eq!(app.tab(), SelectedTab::Tab1);
    assert_eq!(app.focus(), Focus::Host);
    let step = app.event(Key::Esc);
    assert_eq!(step.state, EventState::NotConsumed);
    let step = app.event(Key::Enter);
    assert_eq!(step.state, EventState::NotConsumed);
    assert_eq!(app.host.items, hosts());
}

#[test]
fn the_query_line_takes_the_switch_keys_as_text() {
    let mut app = app();
    app.event(Key::Tab);
    type_text(&mut app, "12");
    assert_eq!(app.query_input.input, "12");
    assert_eq!(app.tab(), SelectedTab::Tab1);
    assert_eq!(app.focus(), Focus::Filter);
}

#[test]
fn an_address_in_the_host_search_asks_for_its_query() {
    let mut app = app();
    app.event(Key::Tab);
    type_text(&mut app, "*.200.*.*");
    let step = app.event(Key::Enter);
    assert_eq!(step.state, EventState::Consumed);
    match &step.request {
        Request::HostsByAddress { sql } => assert_eq!(
            sql,
            "select * from hosts JOIN procs JOIN deploy ON hosts.zone_id = '200' WHERE hosts.id = deploy.host_id"
        ),
        other => panic!("{:?}", other),
    }
    assert_eq!(app.query_input.history, vec!["*.200.*.*".to_string()]);
    assert_eq!(app.query_input.input, "");
    assert_eq!(app.host.items, hosts());
    app.complete(step.request, Reply::Rows(rows()));
    assert_eq!(
        app.host.items,
        vec![host("10.0.0.1", "alpha", "2", "200"), host("10.0.0.2", "beta", "2", "200")]
    );
    assert_eq!(app.focus(), Focus::Filter);
}

#[test]
fn a_keyword_in_the_host_search_filters_every_host() {
    let mut app = app();
    app.event(Key::Tab);
    let step = app.event(Key::Down);
    assert_eq!(step.state, EventState::Consumed);
    assert!(matches!(step.request, Request::AllHosts));
    app.complete(step.request, Reply::Hosts(hosts()));
    assert_eq!(app.query_input.query_type, QueryType::Text);
    type_text(&mut app, "a");
    let step = app.event(Key::Enter);
    match &step.request {
        Request::HostsByKeyword { keyword } => assert_eq!(keyword, "a"),
        other => panic!("{:?}", other),
    }
    app.complete(step.request, Reply::Hosts(hosts()));
    assert_eq!(app.host.items, hosts());
    type_text(&mut app, "20");
    let step = app.event(Key::Enter);
    app.complete(step.request, Reply::Hosts(hosts()));
    assert_eq!(
        app.host.items,
        vec![host("10.0.0.1", "alpha", "2", "200"), host("10.0.0.2", "beta", "2", "201")]
    );
    assert_eq!(app.query_input.history, vec!["20".to_string(), "a".to_string()]);
}

#[test]
fn an_address_in_the_process_search_fills_the_table_of_all_processes() {
    let mut app = app();
    app.event(Key::Char('2'));
    app.event(Key::Tab);
    type_text(&mut app, "*.*.201");
    let step = app.event(Key::Enter);
    match &step.request {
        Request::ProcsByAddress { sql } => assert_eq!(
            sql,
            "select * from hosts JOIN procs ON procs.proc_group_name = deploy.group_name and procs.func_id = '201' JOIN deploy WHERE hosts.id = deploy.host_id"
        ),
        other => panic!("{:?}", other),
    }
    app.complete(step.request, Reply::Rows(vec![row(7, "eta", 201, "gamesvr", 3)]));
    assert_eq!(
        app.total_proc.items,
        vec![TotalProc {
            func_id: "201".to_string(),
            inst_id: "3".to_string(),
            proc_name: "gamesvr".to_string(),
            group_name: "game".to_string(),
            inner_ip: "10.0.0.7".to_string(),
            host_name: "eta".to_string(),
            world_id: "2".to_string(),
            zone_id: "200".to_string(),
            work_path: "/data/run".to_string(),
            func_name: "gamesvr_fn".to_string(),
        }]
    );
    assert_eq!(app.host.items, hosts());
}

#[test]
fn a_keyword_in_the_process_search_filters_every_row() {
    let mut app = app();
    app.event(Key::Char('2'));
    app.event(Key::Tab);
    let step = app.event(Key::Up);
    assert!(matches!(step.request, Request::AllHosts));
    app.complete(step.request, Reply::Hosts(hosts()));
    type_text(&mut app, "dbsvr");
    let step = app.event(Key::Enter);
    match &step.request {
        Request::ProcsByKeyword { sql, keyword } => {
            assert_eq!(
                sql,
                "select * from hosts JOIN procs JOIN deploy WHERE hosts.id = deploy.host_id"
            );
            assert_eq!(keyword, "dbsvr");
        }
        other => panic!("{:?}", other),
    }
    app.complete(step.request, Reply::Rows(rows()));
    assert_eq!(app.total_proc.items.len(), 1);
    assert_eq!(app.total_proc.items[0].proc_name, "dbsvr");
    assert_eq!(app.total_proc.items[0].func_id, "202");
}

#[test]
fn a_switch_of_the_query_type_resets_hosts_and_history() {
    let mut app = app();
    app.event(Key::Tab);
    type_text(&mut app, "9.*");
    let step = app.event(Key::Enter);
    app.complete(step.request, Reply::Rows(Vec::new()));
    assert!(app.host.items.is_empty());
    assert_eq!(app.query_input.history.len(), 1);
    let step = app.event(Key::Up);
    assert_eq!(step.state, EventState::Consumed);
    assert!(matches!(step.request, Request::AllHosts));
    assert_eq!(app.query_input.query_type, QueryType::Text);
    assert_eq!(app.query_input.history.len(), 1);
    app.complete(step.request, Reply::Hosts(hosts()));
    assert_eq!(app.host.items, hosts());
    assert!(app.query_input.history.is_empty());
    let step = app.event(Key::Down);
    assert_eq!(app.query_input.query_type, QueryType::Tcm);
    assert!(matches!(step.request, Request::AllHosts));
}

#[test]
fn a_failed_query_puts_up_a_notice_and_keeps_the_records() {
    let mut app = app();
    app.event(Key::Tab);
    type_text(&mut app, "'.*");
    let step = app.event(Key::Enter);
    app.complete(step.request, Reply::Failed("near \"'\": syntax error".to_string()));
    assert!(app.error.visible);
    assert_eq!(app.error.error, "near \"'\": syntax error");
    assert_eq!(app.host.items, hosts());
    assert_eq!(app.focus(), Focus::Filter);
    let step = app.event(Key::Char('x'));
    assert_eq!(step.state, EventState::Consumed);
    assert!(app.error.visible);
    let step = app.event(Key::Esc);
    assert_eq!(step.state, EventState::Consumed);
    assert!(!app.error.visible);
    assert_eq!(app.error.error, "");
}

#[test]
fn a_failed_reset_keeps_the_history() {
    let mut app = app();
    app.event(Key::Tab);
    type_text(&mut app, "2");
    let step = app.event(Key::Enter);
    app.complete(step.request, Reply::Rows(rows()));
    let step = app.event(Key::Up);
    app.complete(step.request, Reply::Failed("no store".to_string()));
    assert_eq!(app.query_input.history, vec!["2".to_string()]);
    assert!(app.error.visible);
}

#[test]
fn a_reply_of_the_wrong_kind_is_a_notice() {
    let mut app = app();
    app.complete(
        Request::HostsByAddress { sql: "select 1".to_string() },
        Reply::Hosts(Vec::new()),
    );
    assert!(app.error.visible);
    assert_eq!(app.error.error, "the reply does not answer the request");
    assert_eq!(app.host.items, hosts());
    let mut app = self::app();
    app.complete(Request::Nothing, Reply::Rows(Vec::new()));
    assert!(app.error.visible);
    assert_eq!(app.total_proc.items.len(), 2);
}

#[test]
fn enter_on_a_selected_process_opens_its_file() {
    let mut app = app();
    app.event(Key::Char('2'));
    let step = app.event(Key::Enter);
    assert_eq!(step.state, EventState::NotConsumed);
    let step = app.event(Key::Down);
    assert_eq!(step.state, EventState::Consumed);
    assert_eq!(app.proc.selected, Some(1));
    assert_eq!(app.proc.select_item, Some(proc_info(202, "dbsvr", "./db")));
    let step = app.event(Key::Enter);
    assert_eq!(step.state, EventState::Consumed);
    match &step.request {
        Request::File { path } => assert_eq!(path, "./db/dbsvr"),
        other => panic!("{:?}", other),
    }
    assert_eq!(app.focus(), Focus::Proc);
    app.complete(step.request, Reply::File(Some(b"a\tb\nc\n".to_vec())));
    assert_eq!(app.focus(), Focus::File);
    assert_eq!(app.screen(), Screen::File);
    assert!(app.file.visible);
    assert_eq!(
        app.file.content,
        Some(("./db/dbsvr".to_string(), "a  b\nc\n".to_string()))
    );
}

#[test]
fn enter_on_a_selected_row_opens_the_file_of_its_process() {
    let mut app = app();
    app.event(Key::Char('2'));
    app.event(Key::Tab);
    type_text(&mut app, "*");
    let step = app.event(Key::Enter);
    app.complete(step.request, Reply::Rows(rows()));
    app.event(Key::Tab);
    assert_eq!(app.focus(), Focus::TotalProc);
    app.event(Key::Char('j'));
    let step = app.event(Key::Enter);
    match &step.request {
        Request::File { path } => assert_eq!(path, "/data/run/dbsvr"),
        other => panic!("{:?}", other),
    }
}

#[test]
fn a_missing_file_is_a_notice_and_keeps_the_focus() {
    let mut app = app();
    app.event(Key::Char('2'));
    app.event(Key::Down);
    let step = app.event(Key::Enter);
    app.complete(step.request, Reply::File(None));
    assert_eq!(app.focus(), Focus::Proc);
    assert!(app.error.visible);
    assert_eq!(app.error.error, "File -> [./db/dbsvr] not exist");
    assert!(app.file.content.is_none());
    assert!(!app.file.visible);
}

#[test]
fn a_binary_file_is_a_notice_and_keeps_the_focus() {
    let mut app = app();
    app.event(Key::Char('2'));
    app.event(Key::Down);
    let step = app.event(Key::Enter);
    let png = vec![0x89u8, 0x50, 0x4E, 0x47, 0x0D, 0x0A, 0x1A, 0x0A, 0, 0, 0, 13];
    app.complete(step.request, Reply::File(Some(png)));
    assert_eq!(app.focus(), Focus::Proc);
    assert!(app.error.visible);
    assert_eq!(app.error.error, "File -> [./db/dbsvr] is binary! \nCan't read!");
    assert!(app.file.content.is_none());
}

#[test]
fn escape_leaves_the_viewer_for_the_table_of_all_processes() {
    let mut app = app();
    app.event(Key::Char('2'));
    app.event(Key::Down);
    let step = app.event(Key::Enter);
    app.complete(step.request, Reply::File(Some(b"one\ntwo\n".to_vec())));
    app.file.rendered(100, 22);
    let step = app.event(Key::End);
    assert_eq!(step.state, EventState::Consumed);
    assert_eq!(app.file.offset(), 80);
    let step = app.event(Key::Esc);
    assert_eq!(step.state, EventState::Consumed);
    assert!(quiet(&step));
    assert_eq!(app.focus(), Focus::TotalProc);
    assert!(app.file.content.is_none());
    assert!(!app.file.visible);
    assert_eq!(app.file.offset(), 0);
}

#[test]
fn the_viewer_lets_a_switch_key_through_when_it_does_not_scroll() {
    let mut app = app();
    app.event(Key::Char('2'));
    app.event(Key::Down);
    let step = app.event(Key::Enter);
    app.complete(step.request, Reply::File(Some(b"one\n".to_vec())));
    assert_eq!(app.focus(), Focus::File);
    let step = app.event(Key::Char('1'));
    assert_eq!(step.state, EventState::Consumed);
    assert_eq!(app.tab(), SelectedTab::Tab1);
    assert_eq!(app.focus(), Focus::Host);
}

#[test]
fn the_help_opens_and_closes() {
    let mut app = app();
    let step = app.event(Key::Char('?'));
    assert_eq!(step.state, EventState::Consumed);
    assert!(app.help.visible);
    assert_eq!(app.help.cmds.len(), 9);
    assert_eq!(app.help.cmds[0].text.name, "Exit pop up [<Esc>]");
    assert_eq!(app.help.cmds[8].text.name, "Expand/Collapse [l,h]");
    let step = app.event(Key::Char('j'));
    assert_eq!(step.state, EventState::Consumed);
    assert_eq!(app.help.selection, 1);
    assert_eq!(app.host.selected, Some(0));
    let step = app.event(Key::Esc);
    assert_eq!(step.state, EventState::Consumed);
    assert!(!app.help.visible);
    let step = app.event(Key::Char('j'));
    assert_eq!(step.state, EventState::Consumed);
    assert_eq!(app.host.selected, Some(1));
}

#[test]
fn the_host_table_goes_round() {
    let mut app = app();
    app.event(Key::Down);
    app.event(Key::Down);
    assert_eq!(app.host.selected, Some(2));
    assert_eq!(app.host.scroll_position, 8);
    app.event(Key::Down);
    assert_eq!(app.host.selected, Some(0));
    app.event(Key::Up);
    assert_eq!(app.host.selected, Some(2));
    app.event(Key::Char('k'));
    assert_eq!(app.host.selected, Some(1));
    app.event(Key::Right);
    assert_eq!(app.host.color_index, 1);
    app.event(Key::Left);
    app.event(Key::Left);
    assert_eq!(app.host.color_index, 3);
    app.event(Key::Char('l'));
    assert_eq!(app.host.color_index, 0);
}

#[test]
fn an_empty_table_has_no_row_to_select() {
    let mut app = App::new(KeyConfig::default(), Vec::new(), Vec::new(), &Vec::new());
    let step = app.event(Key::Down);
    assert_eq!(step.state, EventState::Consumed);
    assert_eq!(app.host.selected, Some(0));
    app.event(Key::Up);
    assert_eq!(app.host.selected, Some(0));
    app.event(Key::Char('2'));
    app.event(Key::Down);
    assert_eq!(app.proc.select_item, None);
    let step = app.event(Key::Enter);
    assert_eq!(step.state, EventState::NotConsumed);
}
