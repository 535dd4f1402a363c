use crate::components::command::{
    databases_group, exit_pop_up, expand_collapse_name, extend_or_shorten_widget_width, filter,
    general_group, general_names, help, move_focus, scroll_to_top_bottom,
    scroll_up_down_multiple_lines, toggle_tabs, CommandInfo,
};
use crate::components::help::lemma_all_listed;
use crate::components::error::ErrorComponent;
use crate::components::help::HelpComponent;
use crate::components::host::{table_move_of, HostInfoComponent};
use crate::components::proc::ProcInfoComponent;
use crate::components::query_input::{InputColor, QueryInputComponents, QueryType};
use crate::components::syntax_text::{move_of_key, offset_after, SyntaxTextComponent};
use crate::components::tabs::{SelectedTab, TabComponent};
use crate::components::total_proc::{reads_row, TotalProc, TotalProcInfoComponent};
use crate::components::EventState;
use crate::config::KeyConfig;
use crate::database::{compiled_query, query_sql_join, TcmQueryResult};
use crate::event::Key;
use crate::tools::host::{host_of_row, HostInfo};
use crate::tools::proc::{joined_path, path_join, ProcInfo};
use crate::tools::search::{matching_indices, search_vec, Searchable};
use crate::utils::{content_of, expand_tabs, FileError};
use vstd::prelude::*;
use vstd::string::*;

verus! {

/// The pane that has the keyboard.
#[derive(Debug, Clone, Copy, PartialEq, Eq, Structural)]
pub enum Focus {
    Host,
    Filter,
    Proc,
    TotalProc,
    File,
}

/// What the screen shows below the query line.
#[derive(Debug, Clone, Copy, PartialEq, Eq, Structural)]
pub enum Screen {
    /// The table of hosts.
    Hosts,
    /// The table of process definitions.
    Procs,
    /// The table of all processes on all hosts.
    TotalProcs,
    /// The file viewer, alone.
    File,
}

/// Work on the record store or on a file that a key asks for. The session
/// does none of it itself: it hands the request out and takes the reply in
/// `App::complete`.
#[derive(Debug)]
pub enum Request {
    /// Nothing to do.
    Nothing,
    /// Run `sql`; the hosts of its rows become the table of hosts.
    HostsByAddress { sql: String },
    /// Fetch every host; those that match `keyword` become the table of
    /// hosts.
    HostsByKeyword { keyword: String },
    /// Run `sql`; its rows become the table of all processes.
    ProcsByAddress { sql: String },
    /// Run `sql`; those of its rows that match `keyword` become the table of
    /// all processes.
    ProcsByKeyword { sql: String, keyword: String },
    /// Fetch every host; they become the table of hosts, and the history is
    /// dropped.
    AllHosts,
    /// Read the file at `path` into the viewer.
    File { path: String },
}

/// What came of a request.
#[derive(Debug)]
pub enum Reply {
    /// The rows of a query.
    Rows(Vec<TcmQueryResult>),
    /// Every host of the store.
    Hosts(Vec<HostInfo>),
    /// The bytes of a file, or `None` where there is no file at the path.
    File(Option<Vec<u8>>),
    /// The work failed, with the reason.
    Failed(String),
}

/// What a key came to: whether it was consumed, and the work it asks for.
#[derive(Debug)]
pub struct Step {
    pub state: EventState,
    pub request: Request,
}

/// The session: the two modes, the pane that has the keyboard, and the views.
#[derive(Debug)]
pub struct App {
    pub focus: Focus,
    pub help: HelpComponent,
    pub error: ErrorComponent,
    pub config: KeyConfig,
    pub host: HostInfoComponent,
    pub query_input: QueryInputComponents,
    pub proc: ProcInfoComponent,
    pub total_proc: TotalProcInfoComponent,
    pub tabs: TabComponent,
    pub file: SyntaxTextComponent,
}

/// The key that switches to the search over hosts.
pub open spec fn host_search_key() -> Key {
    Key::Char('1')
}

/// The key that switches to the search over processes.
pub open spec fn process_search_key() -> Key {
    Key::Char('2')
}

/// The pane that a mode starts in.
pub open spec fn default_focus(tab: SelectedTab) -> Focus {
    match tab {
        SelectedTab::Tab1 => Focus::Host,
        SelectedTab::Tab2 => Focus::Proc,
    }
}

/// The table that queries run over.
pub open spec fn hosts_table() -> Seq<char> {
    "hosts"@
}

/// The address that matches every process on every host.
pub open spec fn every_address() -> Seq<char> {
    "*.*.*.*"@
}

/// What the notice says when a reply is not of the kind that the request
/// asks for.
pub open spec fn stray_reply() -> Seq<char> {
    "the reply does not answer the request"@
}

/// The request that a submitted query stands for: in the search over hosts
/// it fills the table of hosts, in the search over processes the table of
/// all processes; read as an address it is compiled and run, read as a
/// keyword it filters the full set.
pub open spec fn asks_for(
    request: Request,
    tab: SelectedTab,
    query_type: QueryType,
    entry: String,
) -> bool {
    match (tab, query_type) {
        (SelectedTab::Tab1, QueryType::Tcm) => {
            &&& request matches Request::HostsByAddress { sql }
            &&& sql@ == compiled_query(entry@, hosts_table())
        },
        (SelectedTab::Tab1, QueryType::Text) => {
            &&& request matches Request::HostsByKeyword { keyword }
            &&& keyword == entry
        },
        (SelectedTab::Tab2, QueryType::Tcm) => {
            &&& request matches Request::ProcsByAddress { sql }
            &&& sql@ == compiled_query(entry@, hosts_table())
        },
        (SelectedTab::Tab2, QueryType::Text) => {
            &&& request matches Request::ProcsByKeyword { sql, keyword }
            &&& sql@ == compiled_query(every_address(), hosts_table())
            &&& keyword == entry
        },
    }
}

/// The hosts of the rows of a query, in order.
pub open spec fn hosts_of_rows(rows: Seq<TcmQueryResult>) -> Seq<HostInfo> {
    Seq::new(rows.len(), |i: int| host_of_row(rows[i]))
}

/// `procs` are the rows `rows`, in order, with their numbers in decimal.
pub open spec fn read_rows(procs: Seq<TotalProc>, rows: Seq<TcmQueryResult>) -> bool {
    &&& procs.len() == rows.len()
    &&& forall|i: int| 0 <= i < procs.len() ==> reads_row(#[trigger] procs[i], rows[i])
}

/// `found` are the records of `all` that match `keyword`, in the order of
/// `all`.
pub open spec fn found_in<T: Searchable>(found: Seq<T>, all: Seq<T>, keyword: Seq<char>) -> bool {
    &&& found.len() == matching_indices(all, keyword, all.len()).len()
    &&& forall|j: int|
        0 <= j < found.len() ==> #[trigger] found[j] == all[matching_indices(
            all,
            keyword,
            all.len(),
        )[j]]
}

impl Step {
    /// A step that asks for no work.
    pub open spec fn quiet(self, state: EventState) -> bool {
        self.state == state && self.request is Nothing
    }
}

impl App {
    /// The session with other commands in its help.
    pub open spec fn with_commands(self, cmds: Vec<CommandInfo>) -> App {
        App { help: HelpComponent { cmds, ..self.help }, ..self }
    }

    /// The session went to the mode `tab`: the pane is the one that the mode
    /// starts in and the history is empty.
    pub open spec fn switched_from(self, before: App, tab: SelectedTab) -> bool {
        &&& self.focus == default_focus(tab)
        &&& self.tabs == TabComponent { selected_tab: tab, ..before.tabs }
        &&& self.query_input.tab == tab
        &&& self.query_input.history@ == Seq::<String>::empty()
        &&& self.query_input.input == before.query_input.input
        &&& self.query_input.cursor_position == before.query_input.cursor_position
        &&& self.query_input.query_type == before.query_input.query_type
        &&& self.query_input.key_config == before.query_input.key_config
        &&& self.query_input.color == before.query_input.color
        &&& self == App {
            focus: self.focus,
            tabs: self.tabs,
            query_input: self.query_input,
            ..before
        }
    }

    /// The keyboard went to the pane `focus`, and the query line took the
    /// colour `color`.
    pub open spec fn focused_from(self, before: App, focus: Focus, color: InputColor) -> bool {
        self == App {
            focus,
            query_input: QueryInputComponents { color, ..before.query_input },
            ..before
        }
    }

    /// What the session itself does with a key that no view consumed. The
    /// two keys that switch the mode always do so. The key that moves the
    /// keyboard goes between the list and the query line: in the search over
    /// processes the list is the table of all processes once a query was
    /// submitted, and the table of process definitions before. Any other key
    /// changes nothing and is not consumed.
    pub open spec fn refocused_from(self, before: App, key: Key, step: Step) -> bool {
        if key == host_search_key() {
            self.switched_from(before, SelectedTab::Tab1) && step.quiet(EventState::Consumed)
        } else if key == process_search_key() {
            self.switched_from(before, SelectedTab::Tab2) && step.quiet(EventState::Consumed)
        } else if key == Key::Tab {
            match (before.tabs.selected_tab, before.focus) {
                (SelectedTab::Tab1, Focus::Filter) => self.focused_from(
                    before,
                    Focus::Host,
                    InputColor::Reset,
                ) && step.quiet(EventState::Consumed),
                (SelectedTab::Tab1, Focus::Host) => self.focused_from(
                    before,
                    Focus::Filter,
                    InputColor::Red,
                ) && step.quiet(EventState::Consumed),
                (SelectedTab::Tab2, Focus::Filter) => self.focused_from(
                    before,
                    if before.query_input.history.len() > 0 {
                        Focus::TotalProc
                    } else {
                        Focus::Proc
                    },
                    InputColor::Reset,
                ) && step.quiet(EventState::Consumed),
                (SelectedTab::Tab2, Focus::TotalProc) => self.focused_from(
                    before,
                    Focus::Filter,
                    InputColor::Red,
                ) && step.quiet(EventState::Consumed),
                (SelectedTab::Tab2, Focus::Proc) => self.focused_from(
                    before,
                    Focus::Filter,
                    InputColor::Red,
                ) && step.quiet(EventState::Consumed),
                _ => self == before && step.quiet(EventState::NotConsumed),
            }
        } else {
            self == before && step.quiet(EventState::NotConsumed)
        }
    }

    /// Whether the view that has the keyboard, or a pop-up before it, uses
    /// the key up.
    pub open spec fn view_takes(self, key: Key) -> bool {
        ||| self.error.takes(key)
        ||| self.help.takes(key)
        ||| match self.focus {
            Focus::Host => table_move_of(key) is Some,
            Focus::Filter => QueryInputComponents::takes(key),
            Focus::Proc => (key == Key::Enter && self.proc.select_item is Some) || table_move_of(
                key,
            ) is Some,
            Focus::TotalProc => (key == Key::Enter && self.total_proc.select_item is Some)
                || table_move_of(key) is Some,
            Focus::File => key == Key::Esc || offset_after(
                move_of_key(key),
                self.file.paragraph_state,
            ) != self.file.paragraph_state.scroll.y,
        }
    }

    /// What a key does in the query line. The line is edited as the key
    /// asks. A submitted query asks for the records it stands for, and a
    /// switch of the query type asks for every host again.
    pub open spec fn filtered_from(self, before: App, key: Key, step: Step) -> bool {
        &&& self == App { query_input: self.query_input, ..before }
        &&& self.query_input.stepped_from(before.query_input, key)
        &&& step.state == EventState::Consumed
        &&& match key {
            Key::Enter => asks_for(
                step.request,
                before.tabs.selected_tab,
                before.query_input.query_type,
                before.query_input.input,
            ),
            Key::Up => step.request is AllHosts,
            Key::Down => step.request is AllHosts,
            _ => step.request is Nothing,
        }
    }

    /// What a key that a view uses up does.
    pub open spec fn viewed_from(self, before: App, key: Key, step: Step) -> bool {
        if before.error.takes(key) {
            &&& self == App { error: self.error, ..before }
            &&& self.error.stepped_from(before.error, key)
            &&& step.quiet(EventState::Consumed)
        } else if before.help.takes(key) {
            &&& self == App { help: self.help, ..before }
            &&& self.help.stepped_from(before.help, key)
            &&& step.quiet(EventState::Consumed)
        } else {
            match before.focus {
                Focus::Host => {
                    &&& self == App { host: self.host, ..before }
                    &&& self.host.stepped_from(before.host, key)
                    &&& step.quiet(EventState::Consumed)
                },
                Focus::Filter => self.filtered_from(before, key, step),
                Focus::Proc => if key == Key::Enter && before.proc.select_item is Some {
                    &&& self == before
                    &&& step.state == EventState::Consumed
                    &&& step.request matches Request::File { path }
                    &&& path@ == joined_path(
                        before.proc.select_item->0.work_path@,
                        before.proc.select_item->0.funcname@,
                    )
                } else {
                    &&& self == App { proc: self.proc, ..before }
                    &&& self.proc.stepped_from(before.proc, key)
                    &&& step.quiet(EventState::Consumed)
                },
                Focus::TotalProc => if key == Key::Enter && before.total_proc.select_item
                    is Some {
                    &&& self == before
                    &&& step.state == EventState::Consumed
                    &&& step.request matches Request::File { path }
                    &&& path@ == joined_path(
                        before.total_proc.select_item->0.work_path@,
                        before.total_proc.select_item->0.proc_name@,
                    )
                } else {
                    &&& self == App { total_proc: self.total_proc, ..before }
                    &&& self.total_proc.stepped_from(before.total_proc, key)
                    &&& step.quiet(EventState::Consumed)
                },
                Focus::File => if key == Key::Esc {
                    &&& self == App { focus: Focus::TotalProc, file: self.file, ..before }
                    &&& self.file.content is None
                    &&& !self.file.visible
                    &&& self.file.paragraph_state.scroll.y == 0
                    &&& self.file.paragraph_state.scroll.x == 0
                    &&& self.file.paragraph_state.lines == before.file.paragraph_state.lines
                    &&& self.file.paragraph_state.height == before.file.paragraph_state.height
                    &&& self.file.key_config == before.file.key_config
                    &&& step.quiet(EventState::Consumed)
                } else {
                    &&& self == App { file: self.file, ..before }
                    &&& self.file.content == before.file.content
                    &&& self.file.visible == before.file.visible
                    &&& self.file.key_config == before.file.key_config
                    &&& self.file.paragraph_state.lines == before.file.paragraph_state.lines
                    &&& self.file.paragraph_state.height == before.file.paragraph_state.height
                    &&& self.file.paragraph_state.scroll.y == offset_after(
                        move_of_key(key),
                        before.file.paragraph_state,
                    )
                    &&& step.quiet(EventState::Consumed)
                },
            }
        }
    }

    /// What a key does to the session. A pop-up that is open comes first,
    /// then the view that has the keyboard, then the session itself.
    pub open spec fn dispatched_from(self, before: App, key: Key, step: Step) -> bool {
        if before.view_takes(key) {
            self.viewed_from(before, key, step)
        } else {
            self.refocused_from(before, key, step)
        }
    }

    /// The notice shows `message`, and nothing else changed.
    pub open spec fn noticed_from(self, before: App, message: Seq<char>) -> bool {
        &&& self == App { error: self.error, ..before }
        &&& self.error.error@ == message
        &&& self.error.visible
        &&& self.error.key_config == before.error.key_config
    }

    /// The table of hosts holds `items`, and nothing else changed.
    pub open spec fn hosts_replaced_from(self, before: App) -> bool {
        self == App {
            host: HostInfoComponent { items: self.host.items, ..before.host },
            ..before
        }
    }

    /// The table of all processes holds other rows, and nothing else
    /// changed.
    pub open spec fn procs_replaced_from(self, before: App) -> bool {
        self == App {
            total_proc: TotalProcInfoComponent {
                items: self.total_proc.items,
                ..before.total_proc
            },
            ..before
        }
    }

    /// The viewer shows `text` as the file at `path`, open and with the
    /// keyboard, scrolled as it was.
    pub open spec fn opened_from(self, before: App, path: String, text: Seq<char>) -> bool {
        &&& self == App { focus: Focus::File, file: self.file, ..before }
        &&& self.file.content matches Some((shown, body))
        &&& shown == path
        &&& body@ == expand_tabs(text)
        &&& self.file.visible
        &&& self.file.paragraph_state == before.file.paragraph_state
        &&& self.file.key_config == before.file.key_config
    }

    /// What a reply does to the session. Records that come back take the
    /// place of the records of the table they are for, all of them at once. A
    /// file that can be read opens in the viewer. A failure, a file that
    /// cannot be shown, and a reply of the wrong kind put up a notice and
    /// change nothing else.
    pub open spec fn completed_from(self, before: App, request: Request, reply: Reply) -> bool {
        match (request, reply) {
            (_, Reply::Failed(message)) => self.noticed_from(before, message@),
            (Request::HostsByAddress { sql }, Reply::Rows(rows)) => {
                &&& self.hosts_replaced_from(before)
                &&& self.host.items@ == hosts_of_rows(rows@)
            },
            (Request::HostsByKeyword { keyword }, Reply::Hosts(all)) => {
                &&& self.hosts_replaced_from(before)
                &&& found_in(self.host.items@, all@, keyword@)
            },
            (Request::ProcsByAddress { sql }, Reply::Rows(rows)) => {
                &&& self.procs_replaced_from(before)
                &&& read_rows(self.total_proc.items@, rows@)
            },
            (Request::ProcsByKeyword { sql, keyword }, Reply::Rows(rows)) => {
                &&& self.procs_replaced_from(before)
                &&& exists|all: Seq<TotalProc>| #[trigger]
                    read_rows(all, rows@) && found_in(self.total_proc.items@, all, keyword@)
            },
            (Request::AllHosts, Reply::Hosts(all)) => {
                &&& self == App {
                    host: HostInfoComponent { items: all, ..before.host },
                    query_input: self.query_input,
                    ..before
                }
                &&& self.query_input.history@ == Seq::<String>::empty()
                &&& self.query_input.input == before.query_input.input
                &&& self.query_input.cursor_position == before.query_input.cursor_position
                &&& self.query_input.query_type == before.query_input.query_type
                &&& self.query_input.key_config == before.query_input.key_config
                &&& self.query_input.tab == before.query_input.tab
                &&& self.query_input.color == before.query_input.color
            },
            (Request::File { path }, Reply::File(found)) => match content_of(
                match found {
                    Some(bytes) => Some(bytes@),
                    None => None,
                },
            ) {
                Ok(text) => self.opened_from(before, path, text),
                Err(e) => self.noticed_from(before, e.spec_message(path@)),
            },
            _ => self.noticed_from(before, stray_reply()),
        }
    }

    /// The names of the commands of the session, in the order in which the
    /// help lists them: those that every view has, then that of the table of
    /// hosts.
    pub open spec fn command_names(self) -> Seq<Seq<char>> {
        general_names(self.config).push(expand_collapse_name(self.host.key_config))
    }

    /// Whether `cmds` are the commands of the session: each under its name
    /// and in its group, and none of them hidden from the help.
    pub open spec fn lists(self, cmds: Seq<CommandInfo>) -> bool {
        &&& cmds.len() == 9
        &&& forall|i: int|
            0 <= i < 9 ==> (#[trigger] cmds[i]).text.name@ == self.command_names()[i]
                && !cmds[i].text.hide_help && cmds[i].text.group@ == (if i < 8 {
                general_group()
            } else {
                databases_group()
            })
    }

    /// The pane fits the mode, and the query line knows the mode. The search
    /// over hosts has the table of hosts and the query line; the search over
    /// processes has the query line, the two tables of processes and the
    /// viewer.
    pub open spec fn well_placed(self) -> bool {
        &&& self.query_input.tab == self.tabs.selected_tab
        &&& match self.tabs.selected_tab {
            SelectedTab::Tab1 => self.focus == Focus::Host || self.focus == Focus::Filter,
            SelectedTab::Tab2 => self.focus != Focus::Host,
        }
    }

    /// What is on the screen.
    pub open spec fn spec_screen(self) -> Screen {
        match self.tabs.selected_tab {
            SelectedTab::Tab2 => match self.focus {
                Focus::File => Screen::File,
                _ => if self.query_input.history.len() > 0 {
                    Screen::TotalProcs
                } else {
                    Screen::Procs
                },
            },
            SelectedTab::Tab1 => Screen::Hosts,
        }
    }
}

/// The hosts of the rows of a query.
pub fn rows_to_hosts(rows: &Vec<TcmQueryResult>) -> (hosts: Vec<HostInfo>)
    ensures
        hosts@ == hosts_of_rows(rows@),
{
    let mut hosts: Vec<HostInfo> = Vec::new();
    let mut i: usize = 0;
    while i < rows.len()
        invariant
            i <= rows.len(),
            hosts@ == hosts_of_rows(rows@).take(i as int),
        decreases rows.len() - i,
    {
        let host = HostInfo::from(&rows[i]);
        hosts.push(host);
        i = i + 1;
        assert(hosts@ =~= hosts_of_rows(rows@).take(i as int));
    }
    assert(hosts_of_rows(rows@).take(rows.len() as int) =~= hosts_of_rows(rows@));
    hosts
}

/// The rows of a query as records of the table of all processes.
pub fn rows_to_procs(rows: &Vec<TcmQueryResult>) -> (procs: Vec<TotalProc>)
    ensures
        read_rows(procs@, rows@),
{
    let mut procs: Vec<TotalProc> = Vec::new();
    let mut i: usize = 0;
    while i < rows.len()
        invariant
            i <= rows.len(),
            procs.len() == i,
            forall|k: int| 0 <= k < i ==> reads_row(#[trigger] procs@[k], rows@[k]),
        decreases rows.len() - i,
    {
        procs.push(TotalProc::from_row(&rows[i]));
        i = i + 1;
    }
    procs
}

impl App {
    /// The session at its start: the search over hosts, with the keyboard in
    /// the table of hosts, nothing submitted, no pop-up and no file.
    pub fn new(
        config: KeyConfig,
        hosts: Vec<HostInfo>,
        procs: Vec<ProcInfo>,
        rows: &Vec<TcmQueryResult>,
    ) -> (app: App)
        ensures
            app.focus == Focus::Host,
            app.tabs.selected_tab == SelectedTab::Tab1,
            app.query_input.tab == SelectedTab::Tab1,
            app.query_input.history@ == Seq::<String>::empty(),
            app.query_input.input@ == Seq::<char>::empty(),
            app.query_input.query_type == QueryType::Tcm,
            app.query_input.color == InputColor::Reset,
            app.config == config,
            app.host.items == hosts,
            app.proc.items == procs,
            app.proc.select_item is None,
            read_rows(app.total_proc.items@, rows@),
            app.total_proc.select_item is None,
            !app.help.visible,
            !app.error.visible,
            app.file.content is None,
            !app.file.visible,
            app.file.paragraph_state.scroll.y == 0,
            app.help.key_config == config,
            app.error.key_config == config,
            app.host.key_config == config,
            app.help.cmds@ == Seq::<CommandInfo>::empty(),
            app.help.selection == 0,
            app.error.error@ == Seq::<char>::empty(),
            app.host.selected == Some(0usize),
            app.proc.selected == Some(0usize),
            app.total_proc.selected == Some(0usize),
            app.well_placed(),
    {
        let total = rows_to_procs(rows);
        App {
            error: ErrorComponent::new(config),
            config,
            focus: Focus::Host,
            help: HelpComponent::new(config),
            host: HostInfoComponent::new(hosts, config),
            proc: ProcInfoComponent::new(procs, config),
            total_proc: TotalProcInfoComponent::new(total, config),
            query_input: QueryInputComponents::new(config),
            tabs: TabComponent::new(config),
            file: SyntaxTextComponent::new(config),
        }
    }

    /// The pane that has the keyboard.
    pub fn focus(&self) -> (focus: Focus)
        ensures
            focus == self.focus,
    {
        self.focus
    }

    /// The mode of the session.
    pub fn tab(&self) -> (tab: SelectedTab)
        ensures
            tab == self.tabs.selected_tab,
    {
        self.tabs.selected_tab
    }

    /// What is on the screen: in the search over hosts the table of hosts;
    /// in the search over processes the viewer while it has the keyboard,
    /// else the table of all processes once a query was submitted and the
    /// table of process definitions before.
    pub fn screen(&self) -> (screen: Screen)
        ensures
            screen == self.spec_screen(),
    {
        match self.tabs.selected_tab {
            SelectedTab::Tab2 => match self.focus {
                Focus::File => Screen::File,
                _ => if self.query_input.history.len() > 0 {
                    Screen::TotalProcs
                } else {
                    Screen::Procs
                },
            },
            SelectedTab::Tab1 => Screen::Hosts,
        }
    }

    /// The commands of the session.
    pub fn commands(&self) -> (res: Vec<CommandInfo>)
        ensures
            self.lists(res@),
    {
        let mut res: Vec<CommandInfo> = Vec::new();
        res.push(CommandInfo::new(exit_pop_up(&self.config)));
        res.push(CommandInfo::new(filter(&self.config)));
        res.push(CommandInfo::new(help(&self.config)));
        res.push(CommandInfo::new(toggle_tabs(&self.config)));
        res.push(CommandInfo::new(scroll_to_top_bottom(&self.config)));
        res.push(CommandInfo::new(scroll_up_down_multiple_lines(&self.config)));
        res.push(CommandInfo::new(move_focus(&self.config)));
        res.push(CommandInfo::new(extend_or_shorten_widget_width(&self.config)));
        let ghost general = res@;
        proof {
            let names = general_names(self.config);
            assert(general[0].text.name@ == names[0]);
            assert(general[1].text.name@ == names[1]);
            assert(general[2].text.name@ == names[2]);
            assert(general[3].text.name@ == names[3]);
            assert(general[4].text.name@ == names[4]);
            assert(general[5].text.name@ == names[5]);
            assert(general[6].text.name@ == names[6]);
            assert(general[7].text.name@ == names[7]);
            assert(forall|i: int|
                0 <= i < 8 ==> !(#[trigger] general[i]).text.hide_help && general[i].text.group@
                    == general_group());
        }
        self.host.commands(&mut res);
        self.help.commands(&mut res);
        proof {
            assert(res@.take(8) == general);
            assert(res@.last() == res@[8]);
            assert forall|i: int| 0 <= i < 9 implies (#[trigger] res@[i]).text.name@
                == self.command_names()[i] && !res@[i].text.hide_help && res@[i].text.group@ == (
            if i < 8 {
                general_group()
            } else {
                databases_group()
            }) by {
                if i < 8 {
                    assert(res@[i] == res@.take(8)[i]);
                    assert(self.command_names()[i] == general_names(self.config)[i]);
                }
            }
        }
        res
    }

    /// Brings the help up to date with the commands of the session.
    pub fn update_commands(&mut self)
        ensures
            old(self).lists(final(self).help.cmds@),
            *final(self) == old(self).with_commands(final(self).help.cmds),
    {
        let cmds = self.commands();
        self.help.set_cmds(cmds);
        proof {
            lemma_all_listed(cmds@);
        }
    }
}

impl App {
    fn quiet_step(state: EventState) -> (step: Step)
        ensures
            step.quiet(state),
    {
        Step { state, request: Request::Nothing }
    }

    /// The request that the query submitted last stands for.
    fn submitted_request(&self) -> (request: Request)
        requires
            self.query_input.history.len() > 0,
        ensures
            asks_for(
                request,
                self.tabs.selected_tab,
                self.query_input.query_type,
                self.query_input.history[0],
            ),
    {
        let query_ast = self.query_input.history[0].clone();
        match self.tabs.selected_tab {
            SelectedTab::Tab1 => match self.query_input.query_type {
                QueryType::Tcm => Request::HostsByAddress {
                    sql: query_sql_join(query_ast.as_str(), "hosts"),
                },
                QueryType::Text => Request::HostsByKeyword { keyword: query_ast },
            },
            SelectedTab::Tab2 => match self.query_input.query_type {
                QueryType::Tcm => Request::ProcsByAddress {
                    sql: query_sql_join(query_ast.as_str(), "hosts"),
                },
                QueryType::Text => Request::ProcsByKeyword {
                    sql: query_sql_join("*.*.*.*", "hosts"),
                    keyword: query_ast,
                },
            },
        }
    }

    /// Hands the key to an open pop-up, then to the view that has the
    /// keyboard. A key that none of them uses up leaves the session as it
    /// was.
    pub fn components_event(&mut self, key: Key) -> (step: Step)
        ensures
            old(self).view_takes(key) ==> final(self).viewed_from(*old(self), key, step),
            !old(self).view_takes(key) ==> *final(self) == *old(self) && step.quiet(
                EventState::NotConsumed,
            ),
    {
        if self.error.event(key).is_consumed() {
            return Self::quiet_step(EventState::Consumed);
        }
        if self.help.event(key).is_consumed() {
            return Self::quiet_step(EventState::Consumed);
        }
        match self.focus {
            Focus::Host => {
                let state = self.host.event(key);
                Self::quiet_step(state)
            },
            Focus::Filter => {
                let state = self.query_input.event(key);
                if !state.is_consumed() {
                    return Self::quiet_step(EventState::NotConsumed);
                }
                match key {
                    Key::Enter => {
                        let request = self.submitted_request();
                        Step { state: EventState::Consumed, request }
                    },
                    Key::Up | Key::Down => Step {
                        state: EventState::Consumed,
                        request: Request::AllHosts,
                    },
                    _ => Self::quiet_step(EventState::Consumed),
                }
            },
            Focus::Proc => {
                if let Some(item) = &self.proc.select_item {
                    match key {
                        Key::Enter => {
                            let path = path_join(item.work_path.as_str(), item.funcname.as_str());
                            return Step {
                                state: EventState::Consumed,
                                request: Request::File { path },
                            };
                        },
                        _ => {},
                    }
                }
                let state = self.proc.event(key);
                Self::quiet_step(state)
            },
            Focus::TotalProc => {
                if let Some(item) = &self.total_proc.select_item {
                    match key {
                        Key::Enter => {
                            let path = path_join(
                                item.work_path.as_str(),
                                item.proc_name.as_str(),
                            );
                            return Step {
                                state: EventState::Consumed,
                                request: Request::File { path },
                            };
                        },
                        _ => {},
                    }
                }
                let state = self.total_proc.event(key);
                Self::quiet_step(state)
            },
            Focus::File => match key {
                Key::Esc => {
                    self.file.clear();
                    self.file.conceal();
                    self.focus = Focus::TotalProc;
                    Self::quiet_step(EventState::Consumed)
                },
                _ => {
                    let state = self.file.event(key);
                    Self::quiet_step(state)
                },
            },
        }
    }

    /// Goes to the mode `tab`.
    fn switch_to(&mut self, tab: SelectedTab)
        ensures
            final(self).switched_from(*old(self), tab),
    {
        self.query_input.tab = tab;
        self.focus = match tab {
            SelectedTab::Tab1 => Focus::Host,
            SelectedTab::Tab2 => Focus::Proc,
        };
        self.query_input.history = Vec::new();
        self.tabs.selected_tab = tab;
    }

    /// Switches the mode or moves the keyboard between the list and the
    /// query line, as the key asks.
    pub fn move_focus(&mut self, key: Key) -> (step: Step)
        ensures
            final(self).refocused_from(*old(self), key, step),
    {
        if key == Key::Char('1') {
            self.switch_to(SelectedTab::Tab1);
            return Self::quiet_step(EventState::Consumed);
        }
        if key == Key::Char('2') {
            self.switch_to(SelectedTab::Tab2);
            return Self::quiet_step(EventState::Consumed);
        }
        if key != Key::Tab {
            return Self::quiet_step(EventState::NotConsumed);
        }
        match self.tabs.selected_tab {
            SelectedTab::Tab1 => match self.focus {
                Focus::Filter => {
                    self.query_input.color = InputColor::Reset;
                    self.focus = Focus::Host;
                    Self::quiet_step(EventState::Consumed)
                },
                Focus::Host => {
                    self.focus = Focus::Filter;
                    self.query_input.color = InputColor::Red;
                    Self::quiet_step(EventState::Consumed)
                },
                _ => Self::quiet_step(EventState::NotConsumed),
            },
            SelectedTab::Tab2 => match self.focus {
                Focus::Filter => {
                    if self.query_input.history.len() > 0 {
                        self.focus = Focus::TotalProc;
                    } else {
                        self.focus = Focus::Proc;
                    }
                    self.query_input.color = InputColor::Reset;
                    Self::quiet_step(EventState::Consumed)
                },
                Focus::TotalProc => {
                    self.focus = Focus::Filter;
                    self.query_input.color = InputColor::Red;
                    Self::quiet_step(EventState::Consumed)
                },
                Focus::Proc => {
                    self.focus = Focus::Filter;
                    self.query_input.color = InputColor::Red;
                    Self::quiet_step(EventState::Consumed)
                },
                _ => Self::quiet_step(EventState::NotConsumed),
            },
        }
    }

    /// Takes one key. The help is brought up to date with the commands of
    /// the session, then the key goes to an open pop-up, to the view that
    /// has the keyboard, and to the session itself, until one uses it up.
    /// Work that the key asks for is handed out in the step.
    pub fn event(&mut self, key: Key) -> (step: Step)
        ensures
            old(self).lists(final(self).help.cmds@),
            final(self).dispatched_from(
                old(self).with_commands(final(self).help.cmds),
                key,
                step,
            ),
            old(self).well_placed() ==> final(self).well_placed(),
    {
        self.update_commands();
        let ghost listed = *self;
        let step = self.components_event(key);
        if step.state.is_consumed() {
            assert(listed.view_takes(key));
            assert(self.help.cmds == listed.help.cmds);
            return step;
        }
        assert(!listed.view_takes(key));
        let step = self.move_focus(key);
        assert(self.help.cmds == listed.help.cmds);
        step
    }

    /// Puts up a notice.
    fn notice(&mut self, message: String)
        ensures
            final(self).noticed_from(*old(self), message@),
    {
        self.error.set(message);
    }

    /// Takes the reply to a request that a step handed out.
    pub fn complete(&mut self, request: Request, reply: Reply)
        ensures
            final(self).completed_from(*old(self), request, reply),
    {
        match (request, reply) {
            (_, Reply::Failed(message)) => {
                self.notice(message);
            },
            (Request::HostsByAddress { sql: _ }, Reply::Rows(rows)) => {
                self.host.items = rows_to_hosts(&rows);
            },
            (Request::HostsByKeyword { keyword }, Reply::Hosts(all)) => {
                self.host.items = search_vec(&all, keyword.as_str());
            },
            (Request::ProcsByAddress { sql: _ }, Reply::Rows(rows)) => {
                self.total_proc.items = rows_to_procs(&rows);
            },
            (Request::ProcsByKeyword { sql: _, keyword }, Reply::Rows(rows)) => {
                let all = rows_to_procs(&rows);
                self.total_proc.items = search_vec(&all, keyword.as_str());
                assert(read_rows(all@, rows@) && found_in(
                    self.total_proc.items@,
                    all@,
                    keyword@,
                ));
            },
            (Request::AllHosts, Reply::Hosts(all)) => {
                self.host.items = all;
                self.query_input.history = Vec::new();
            },
            (Request::File { path }, Reply::File(found)) => {
                let shown = path.clone();
                match self.file.load_file(path, &found) {
                    Ok(()) => {
                        self.file.show();
                        self.focus = Focus::File;
                    },
                    Err(e) => {
                        self.notice(e.message(shown.as_str()));
                    },
                }
            },
            _ => {
                self.notice(String::from_str("the reply does not answer the request"));
            },
        }
    }
}

/// From the search over hosts with the keyboard in the table of hosts, the
/// key for the search over processes leads to the search over processes with
/// the keyboard in the table of process definitions and an empty history,
/// whatever was submitted or selected before. This holds wherever no open
/// pop-up is bound to that key.
pub proof fn law_process_search_key(before: App, after: App, step: Step)
    requires
        before.tabs.selected_tab == SelectedTab::Tab1,
        before.focus == Focus::Host,
        !before.error.takes(process_search_key()),
        !before.help.takes(process_search_key()),
        after.dispatched_from(before, process_search_key(), step),
    ensures
        after.tabs.selected_tab == SelectedTab::Tab2,
        after.focus == Focus::Proc,
        after.query_input.history@ == Seq::<String>::empty(),
        step.state == EventState::Consumed,
        step.request is Nothing,
{
}

/// With the bindings that a session starts with, no pop-up is bound to the
/// key for the search over processes.
pub proof fn law_process_search_key_is_free(app: App)
    requires
        app.error.key_config == crate::config::default_keys(),
        app.help.key_config == crate::config::default_keys(),
    ensures
        !app.error.takes(process_search_key()),
        !app.help.takes(process_search_key()),
{
}

/// A key leaves the session in exactly one mode and with the keyboard in
/// exactly one pane, and a key that nothing uses up changes nothing.
pub proof fn law_unused_key_changes_nothing(before: App, after: App, key: Key, step: Step)
    requires
        after.dispatched_from(before, key, step),
        step.state == EventState::NotConsumed,
    ensures
        after == before,
        step.request is Nothing,
{
}

/// A key leaves the pane fitting the mode.
pub proof fn law_step_keeps_focus_in_mode(before: App, after: App, key: Key, step: Step)
    requires
        before.well_placed(),
        after.dispatched_from(before, key, step),
    ensures
        after.well_placed(),
{
}

/// A reply leaves the pane fitting the mode. A file opens in the search over
/// processes only: that is where a step asks for one.
pub proof fn law_reply_keeps_focus_in_mode(before: App, after: App, request: Request, reply: Reply)
    requires
        before.well_placed(),
        request is File ==> before.tabs.selected_tab == SelectedTab::Tab2,
        after.completed_from(before, request, reply),
    ensures
        after.well_placed(),
{
}

/// A step asks for a file only from a table of processes, which only the
/// search over processes has.
pub proof fn law_files_open_in_process_search(before: App, after: App, key: Key, step: Step)
    requires
        before.well_placed(),
        after.dispatched_from(before, key, step),
        step.request is File,
    ensures
        after == before,
        before.tabs.selected_tab == SelectedTab::Tab2,
        before.focus == Focus::Proc || before.focus == Focus::TotalProc,
{
}

/// Records that come back replace the records of one table and touch
/// nothing else: neither the mode, nor the pane, nor the query line, nor the
/// other tables.
pub proof fn law_rows_replace_one_table(before: App, after: App, request: Request, rows: Seq<
    TcmQueryResult,
>, reply: Reply)
    requires
        reply matches Reply::Rows(r) && r@ == rows,
        request is HostsByAddress || request is ProcsByAddress || request is ProcsByKeyword,
        after.completed_from(before, request, reply),
    ensures
        after.focus == before.focus,
        after.tabs == before.tabs,
        after.query_input == before.query_input,
        after.proc == before.proc,
        after.error == before.error,
        request is HostsByAddress ==> after.total_proc == before.total_proc
            && after.host.items@.len() == rows.len(),
        !(request is HostsByAddress) ==> after.host == before.host,
        request is ProcsByAddress ==> after.total_proc.items@.len() == rows.len(),
{
}

} // verus!
