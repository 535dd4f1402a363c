use crate::components::command::{
    databases_group, expand_collapse, expand_collapse_name, CommandInfo,
};
use crate::components::{Component, EventState};
use crate::config::KeyConfig;
use crate::event::Key;
use vstd::prelude::*;
use vstd::string::*;

verus! {

/// Whether the session goes on.
#[derive(Debug, Clone, Copy, PartialEq, Eq, Structural)]
pub enum TabState {
    Running,
    Quitting,
}

/// The two modes of the explorer: the search over hosts and the search over
/// processes.
#[derive(Debug, Clone, Copy, PartialEq, Eq, Structural)]
pub enum SelectedTab {
    Tab1,
    Tab2,
}

impl SelectedTab {
    /// The tab before this one; the first tab has none and stays.
    pub fn previous(self) -> (tab: SelectedTab)
        ensures
            tab == SelectedTab::Tab1,
    {
        SelectedTab::Tab1
    }

    /// The tab after this one; the last tab has none and stays.
    pub fn next(self) -> (tab: SelectedTab)
        ensures
            tab == SelectedTab::Tab2,
    {
        SelectedTab::Tab2
    }

    /// The heading of the tab.
    pub open spec fn spec_title(self) -> Seq<char> {
        match self {
            SelectedTab::Tab1 => "主机搜索 [1]"@,
            SelectedTab::Tab2 => "进程搜索 [2]"@,
        }
    }

    /// The heading of the tab, with the key that opens it.
    pub fn title(self) -> (s: String)
        ensures
            s@ == self.spec_title(),
    {
        match self {
            SelectedTab::Tab1 => String::from_str("主机搜索 [1]"),
            SelectedTab::Tab2 => String::from_str("进程搜索 [2]"),
        }
    }

    /// The position of the tab in the row of tabs.
    pub fn index(self) -> (i: usize)
        ensures
            i == (if self == SelectedTab::Tab1 {
                0usize
            } else {
                1usize
            }),
    {
        match self {
            SelectedTab::Tab1 => 0,
            SelectedTab::Tab2 => 1,
        }
    }
}

/// The row of tabs.
#[derive(Debug, Clone, Copy, PartialEq, Eq, Structural)]
pub struct TabComponent {
    pub state: TabState,
    pub selected_tab: SelectedTab,
    pub key_config: KeyConfig,
}

impl TabComponent {
    pub fn new(key_config: KeyConfig) -> (tabs: TabComponent)
        ensures
            tabs.state == TabState::Running,
            tabs.selected_tab == SelectedTab::Tab1,
            tabs.key_config == key_config,
    {
        TabComponent { state: TabState::Running, selected_tab: SelectedTab::Tab1, key_config }
    }

    pub fn next_tab(&mut self)
        ensures
            final(self).selected_tab == SelectedTab::Tab2,
            final(self).state == old(self).state,
            final(self).key_config == old(self).key_config,
    {
        self.selected_tab = self.selected_tab.next();
    }

    pub fn previous_tab(&mut self)
        ensures
            final(self).selected_tab == SelectedTab::Tab1,
            final(self).state == old(self).state,
            final(self).key_config == old(self).key_config,
    {
        self.selected_tab = self.selected_tab.previous();
    }

    pub fn quit(&mut self)
        ensures
            final(self).state == TabState::Quitting,
            final(self).selected_tab == old(self).selected_tab,
            final(self).key_config == old(self).key_config,
    {
        self.state = TabState::Quitting;
    }

    /// Lists the command of the tabs in the help.
    pub fn commands(&self, out: &mut Vec<CommandInfo>)
        ensures
            final(out)@.len() == old(out)@.len() + 1,
            final(out)@.take(old(out)@.len() as int) == old(out)@,
            final(out)@.last().text.name@ == expand_collapse_name(self.key_config),
            final(out)@.last().text.group@ == databases_group(),
            !final(out)@.last().text.hide_help,
    {
        out.push(CommandInfo::new(expand_collapse(&self.key_config)));
        assert(out@.take(old(out)@.len() as int) =~= old(out)@);
    }

    /// The row of tabs takes no key itself.
    pub fn event(&mut self, _key: Key) -> (state: EventState)
        ensures
            state == EventState::NotConsumed,
            *final(self) == *old(self),
    {
        EventState::NotConsumed
    }
}

impl Component for TabComponent {
    /// The view is always on the screen: closing it changes nothing.
    open spec fn concealed_from(&self, before: &Self) -> bool {
        self == before
    }

    /// The view is always on the screen: opening it changes nothing.
    open spec fn opened_from(&self, before: &Self) -> bool {
        self == before
    }

    fn commands(&self, out: &mut Vec<CommandInfo>)
        ensures
            final(out)@.len() == old(out)@.len() + 1,
            final(out)@.take(old(out)@.len() as int) == old(out)@,
            final(out)@.last().text.name@ == expand_collapse_name(self.key_config),
    {
        TabComponent::commands(self, out)
    }

    fn event(&mut self, key: Key) -> (state: EventState)
        ensures
            state == EventState::NotConsumed,
            *final(self) == *old(self),
    {
        TabComponent::event(self, key)
    }

    fn conceal(&mut self) {
    }

    fn show(&mut self) {
    }
}

} // verus!
