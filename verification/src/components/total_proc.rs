use crate::components::command::{
    databases_group, expand_collapse, expand_collapse_name, CommandInfo,
};
use crate::components::host::{
    palette_after, palette_before, row_after, row_before, row_offset, scroll_position_of,
    table_move, table_move_of, TableMove, PALETTE_COUNT,
};
use crate::components::{Component, EventState};
use crate::config::KeyConfig;
use crate::database::TcmQueryResult;
use crate::event::Key;
use crate::text::{decimal, decimal_string, widest, wider};
use crate::tools::search::{FieldValue, Searchable};
use vstd::prelude::*;
use vstd::string::*;

verus! {

/// One process on one host: a row of the join of hosts, processes and
/// deployments, with every column as a text.
#[derive(Debug, PartialEq)]
pub struct TotalProc {
    pub func_id: String,
    pub inst_id: String,
    pub proc_name: String,
    pub group_name: String,
    pub inner_ip: String,
    pub host_name: String,
    pub world_id: String,
    pub zone_id: String,
    pub work_path: String,
    pub func_name: String,
}

impl Clone for TotalProc {
    fn clone(&self) -> (copy: TotalProc)
        ensures
            copy == *self,
    {
        TotalProc {
            func_id: self.func_id.clone(),
            inst_id: self.inst_id.clone(),
            proc_name: self.proc_name.clone(),
            group_name: self.group_name.clone(),
            inner_ip: self.inner_ip.clone(),
            host_name: self.host_name.clone(),
            world_id: self.world_id.clone(),
            zone_id: self.zone_id.clone(),
            work_path: self.work_path.clone(),
            func_name: self.func_name.clone(),
        }
    }
}

/// Whether `proc` is the row `value` with its numbers written in decimal.
pub open spec fn reads_row(proc: TotalProc, value: TcmQueryResult) -> bool {
    &&& proc.func_id@ == decimal(value.func_id as int)
    &&& proc.proc_name == value.proc_name
    &&& proc.group_name == value.proc_group_name
    &&& proc.inner_ip == value.inner_ip
    &&& proc.host_name == value.host_name
    &&& proc.world_id == value.world_id
    &&& proc.zone_id == value.zone_id
    &&& proc.work_path == value.work_path
    &&& proc.func_name == value.func_name
    &&& proc.inst_id@ == decimal(value.inst_id as int)
}

impl TotalProc {
    /// The row `value`, with its numbers written in decimal.
    pub fn from_row(value: &TcmQueryResult) -> (proc: TotalProc)
        ensures
            reads_row(proc, *value),
    {
        TotalProc {
            func_id: decimal_string(value.func_id),
            proc_name: value.proc_name.clone(),
            group_name: value.proc_group_name.clone(),
            inner_ip: value.inner_ip.clone(),
            host_name: value.host_name.clone(),
            world_id: value.world_id.clone(),
            zone_id: value.zone_id.clone(),
            work_path: value.work_path.clone(),
            func_name: value.func_name.clone(),
            inst_id: decimal_string(value.inst_id),
        }
    }

    /// The columns of a row, in the order in which the table shows them.
    pub fn ref_array(&self) -> (cells: [&str; 10])
        ensures
            cells[0]@ == self.func_id@,
            cells[1]@ == self.inst_id@,
            cells[2]@ == self.proc_name@,
            cells[3]@ == self.group_name@,
            cells[4]@ == self.inner_ip@,
            cells[5]@ == self.host_name@,
            cells[6]@ == self.world_id@,
            cells[7]@ == self.zone_id@,
            cells[8]@ == self.work_path@,
            cells[9]@ == self.func_name@,
    {
        [
            self.func_id.as_str(),
            self.inst_id.as_str(),
            self.proc_name.as_str(),
            self.group_name.as_str(),
            self.inner_ip.as_str(),
            self.host_name.as_str(),
            self.world_id.as_str(),
            self.zone_id.as_str(),
            self.work_path.as_str(),
            self.func_name.as_str(),
        ]
    }

    pub fn work_path(&self) -> (s: &str)
        ensures
            s@ == self.work_path@,
    {
        self.work_path.as_str()
    }

    pub fn proc_name(&self) -> (s: &str)
        ensures
            s@ == self.proc_name@,
    {
        self.proc_name.as_str()
    }

    pub fn func_id(&self) -> (s: &str)
        ensures
            s@ == self.func_id@,
    {
        self.func_id.as_str()
    }

    pub fn host_name(&self) -> (s: &str)
        ensures
            s@ == self.host_name@,
    {
        self.host_name.as_str()
    }

    pub fn inner_ip(&self) -> (s: &str)
        ensures
            s@ == self.inner_ip@,
    {
        self.inner_ip.as_str()
    }

    pub fn world_id(&self) -> (s: &str)
        ensures
            s@ == self.world_id@,
    {
        self.world_id.as_str()
    }

    pub fn zone_id(&self) -> (s: &str)
        ensures
            s@ == self.zone_id@,
    {
        self.zone_id.as_str()
    }

    pub fn inst_id(&self) -> (s: &str)
        ensures
            s@ == self.inst_id@,
    {
        self.inst_id.as_str()
    }

    pub fn func_name(&self) -> (s: &str)
        ensures
            s@ == self.func_name@,
    {
        self.func_name.as_str()
    }

    pub fn group_name(&self) -> (s: &str)
        ensures
            s@ == self.group_name@,
    {
        self.group_name.as_str()
    }
}

impl From<&TcmQueryResult> for TotalProc {
    fn from(value: &TcmQueryResult) -> (proc: TotalProc)
        ensures
            reads_row(proc, *value),
    {
        TotalProc::from_row(value)
    }
}

impl vstd::std_specs::convert::FromSpecImpl<&TcmQueryResult> for TotalProc {
    /// The conversion writes numbers out as new texts, which only `reads_row`
    /// describes.
    open spec fn obeys_from_spec() -> bool {
        false
    }

    open spec fn from_spec(value: &TcmQueryResult) -> TotalProc {
        arbitrary()
    }
}

impl Searchable for TotalProc {
    open spec fn field_texts(&self) -> Seq<Option<Seq<char>>> {
        seq![
            Some(self.func_id@),
            Some(self.inst_id@),
            Some(self.proc_name@),
            Some(self.group_name@),
            Some(self.inner_ip@),
            Some(self.host_name@),
            Some(self.world_id@),
            Some(self.zone_id@),
            Some(self.work_path@),
            Some(self.func_name@),
        ]
    }

    fn field_pairs(&self) -> (pairs: Vec<(String, FieldValue)>) {
        let mut pairs: Vec<(String, FieldValue)> = Vec::new();
        pairs.push((String::from_str("func_id"), FieldValue::Text(self.func_id.clone())));
        pairs.push((String::from_str("inst_id"), FieldValue::Text(self.inst_id.clone())));
        pairs.push((String::from_str("proc_name"), FieldValue::Text(self.proc_name.clone())));
        pairs.push((String::from_str("group_name"), FieldValue::Text(self.group_name.clone())));
        pairs.push((String::from_str("inner_ip"), FieldValue::Text(self.inner_ip.clone())));
        pairs.push((String::from_str("host_name"), FieldValue::Text(self.host_name.clone())));
        pairs.push((String::from_str("world_id"), FieldValue::Text(self.world_id.clone())));
        pairs.push((String::from_str("zone_id"), FieldValue::Text(self.zone_id.clone())));
        pairs.push((String::from_str("work_path"), FieldValue::Text(self.work_path.clone())));
        pairs.push((String::from_str("func_name"), FieldValue::Text(self.func_name.clone())));
        assert(crate::tools::search::pair_texts(pairs@) =~= self.field_texts());
        pairs
    }
}

/// Which pane of a table view has the keyboard.
#[derive(Debug, Clone, Copy, PartialEq, Eq, Structural)]
pub enum Focus {
    Filter,
    Tree,
}

/// One column of the table of all processes: the text that each row has in
/// it.
pub open spec fn total_column(items: Seq<TotalProc>, column: int) -> Seq<Seq<char>> {
    Seq::new(
        items.len(),
        |k: int|
            if column == 1 {
                items[k].inner_ip@
            } else if column == 2 {
                items[k].host_name@
            } else if column == 6 {
                items[k].proc_name@
            } else if column == 7 {
                items[k].func_name@
            } else if column == 8 {
                items[k].work_path@
            } else {
                items[k].group_name@
            },
    )
}

/// The width that each column of the table of all processes needs. The four
/// columns of ids take three cells each; every other column takes the width
/// of its widest cell, cut to 16 bits.
pub fn constraint_len_calculator(items: &Vec<TotalProc>) -> (lens: (
    u16,
    u16,
    u16,
    u16,
    u16,
    u16,
    u16,
    u16,
    u16,
    u16,
))
    ensures
        lens.0 == 3,
        lens.1 == widest(total_column(items@, 1), items.len() as nat) as u16,
        lens.2 == widest(total_column(items@, 2), items.len() as nat) as u16,
        lens.3 == 3,
        lens.4 == 3,
        lens.5 == 3,
        lens.6 == widest(total_column(items@, 6), items.len() as nat) as u16,
        lens.7 == widest(total_column(items@, 7), items.len() as nat) as u16,
        lens.8 == widest(total_column(items@, 8), items.len() as nat) as u16,
        lens.9 == widest(total_column(items@, 9), items.len() as nat) as u16,
{
    let mut proc_name_len: usize = 0;
    let mut proc_group_name: usize = 0;
    let mut work_path_len: usize = 0;
    let mut func_name: usize = 0;
    let mut inner_ip_len: usize = 0;
    let mut host_name_len: usize = 0;
    let mut i: usize = 0;
    while i < items.len()
        invariant
            i <= items.len(),
            inner_ip_len == widest(total_column(items@, 1), i as nat),
            host_name_len == widest(total_column(items@, 2), i as nat),
            proc_name_len == widest(total_column(items@, 6), i as nat),
            func_name == widest(total_column(items@, 7), i as nat),
            work_path_len == widest(total_column(items@, 8), i as nat),
            proc_group_name == widest(total_column(items@, 9), i as nat),
        decreases items.len() - i,
    {
        proc_name_len = wider(proc_name_len, items[i].proc_name());
        proc_group_name = wider(proc_group_name, items[i].group_name());
        work_path_len = wider(work_path_len, items[i].work_path());
        func_name = wider(func_name, items[i].func_name());
        inner_ip_len = wider(inner_ip_len, items[i].inner_ip());
        host_name_len = wider(host_name_len, items[i].host_name());
        i = i + 1;
    }
    (
        3,
        #[verifier::truncate]
        (inner_ip_len as u16),
        #[verifier::truncate]
        (host_name_len as u16),
        3,
        3,
        3,
        #[verifier::truncate]
        (proc_name_len as u16),
        #[verifier::truncate]
        (func_name as u16),
        #[verifier::truncate]
        (work_path_len as u16),
        #[verifier::truncate]
        (proc_group_name as u16),
    )
}

/// The table of all processes on all hosts: the rows, which of them is
/// selected, the record that was selected last, and how the table is shown.
#[derive(Debug)]
pub struct TotalProcInfoComponent {
    pub selected: Option<usize>,
    pub items: Vec<TotalProc>,
    pub select_item: Option<TotalProc>,
    pub longest_item_lens: (u16, u16, u16, u16, u16, u16, u16, u16, u16, u16),
    pub scroll_length: usize,
    pub scroll_position: usize,
    pub color_index: usize,
    pub key_config: KeyConfig,
}

impl TotalProcInfoComponent {
    /// What no key changes.
    pub open spec fn same_table(self, before: Self) -> bool {
        &&& self.items == before.items
        &&& self.longest_item_lens == before.longest_item_lens
        &&& self.scroll_length == before.scroll_length
        &&& self.key_config == before.key_config
    }

    /// The selection went to row `row`. Going forward takes the record of
    /// that row as the selected record; going back leaves the selected record
    /// as it was.
    pub open spec fn selected_from(self, before: Self, row: int, forward: bool) -> bool {
        &&& self.selected == Some(row as usize)
        &&& self.scroll_position == row_offset(row)
        &&& self.select_item == (if forward {
            Some(before.items[row])
        } else {
            before.select_item
        })
        &&& self.color_index == before.color_index
        &&& self.same_table(before)
    }

    /// The palette changed to `index`.
    pub open spec fn coloured_from(self, before: Self, index: int) -> bool {
        &&& self.color_index == index
        &&& self.selected == before.selected
        &&& self.scroll_position == before.scroll_position
        &&& self.select_item == before.select_item
        &&& self.same_table(before)
    }

    /// What a move does to the table. A table without rows has no row to
    /// select and stays as it is.
    pub open spec fn moved_from(self, before: Self, m: TableMove) -> bool {
        match m {
            TableMove::Next => if before.items.len() == 0 {
                self == before
            } else {
                self.selected_from(
                    before,
                    row_after(before.selected, before.items.len() as int),
                    true,
                )
            },
            TableMove::Previous => if before.items.len() == 0 {
                self == before
            } else {
                self.selected_from(
                    before,
                    row_before(before.selected, before.items.len() as int),
                    false,
                )
            },
            TableMove::NextColor => self.coloured_from(
                before,
                palette_after(before.color_index as int),
            ),
            TableMove::PreviousColor => self.coloured_from(
                before,
                palette_before(before.color_index as int),
            ),
        }
    }

    /// What a key does to the table.
    pub open spec fn stepped_from(self, before: Self, key: Key) -> bool {
        match table_move_of(key) {
            Some(m) => self.moved_from(before, m),
            None => self == before,
        }
    }

    /// The table over `items`, with the first row selected.
    pub fn new(items: Vec<TotalProc>, key_config: KeyConfig) -> (table: TotalProcInfoComponent)
        ensures
            table.selected == Some(0usize),
            table.items == items,
            table.scroll_position == 0,
            table.scroll_length == row_offset(
                if items.len() == 0 {
                    0
                } else {
                    items.len() - 1
                },
            ),
            table.color_index == 0,
            table.select_item is None,
            table.key_config == key_config,
            table.longest_item_lens.1 == widest(total_column(items@, 1), items.len() as nat) as u16,
            table.longest_item_lens.2 == widest(total_column(items@, 2), items.len() as nat) as u16,
            table.longest_item_lens.6 == widest(total_column(items@, 6), items.len() as nat) as u16,
            table.longest_item_lens.7 == widest(total_column(items@, 7), items.len() as nat) as u16,
            table.longest_item_lens.8 == widest(total_column(items@, 8), items.len() as nat) as u16,
            table.longest_item_lens.9 == widest(total_column(items@, 9), items.len() as nat) as u16,
            table.longest_item_lens.0 == 3 && table.longest_item_lens.3 == 3,
            table.longest_item_lens.4 == 3 && table.longest_item_lens.5 == 3,
    {
        let longest_item_lens = constraint_len_calculator(&items);
        let scroll_length = scroll_position_of(items.len().saturating_sub(1));
        TotalProcInfoComponent {
            selected: Some(0),
            longest_item_lens,
            scroll_length,
            scroll_position: 0,
            color_index: 0,
            items,
            select_item: None,
            key_config,
        }
    }

    pub fn previous(&mut self)
        ensures
            final(self).moved_from(*old(self), TableMove::Previous),
    {
        if self.items.len() == 0 {
            return ;
        }
        let i = match self.selected {
            Some(i) => {
                if i == 0 {
                    self.items.len() - 1
                } else {
                    i - 1
                }
            },
            None => 0,
        };
        self.selected = Some(i);
        self.scroll_position = scroll_position_of(i);
    }

    pub fn next_color(&mut self)
        ensures
            final(self).moved_from(*old(self), TableMove::NextColor),
    {
        self.color_index = (self.color_index % PALETTE_COUNT + 1) % PALETTE_COUNT;
    }

    pub fn previous_color(&mut self)
        ensures
            final(self).moved_from(*old(self), TableMove::PreviousColor),
    {
        let count = PALETTE_COUNT;
        self.color_index = (self.color_index % count + count - 1) % count;
    }

    pub fn next(&mut self)
        ensures
            final(self).moved_from(*old(self), TableMove::Next),
    {
        if self.items.len() == 0 {
            return ;
        }
        let i = match self.selected {
            Some(i) => {
                if i >= self.items.len() - 1 {
                    0
                } else {
                    i + 1
                }
            },
            None => 0,
        };
        self.selected = Some(i);
        self.scroll_position = scroll_position_of(i);
        self.select_item = Some(self.items[i].clone());
    }

    /// Lists the command of the table in the help.
    pub fn commands(&self, out: &mut Vec<CommandInfo>)
        ensures
            final(out)@.len() == old(out)@.len() + 1,
            final(out)@.take(old(out)@.len() as int) == old(out)@,
            final(out)@.last().text.name@ == expand_collapse_name(self.key_config),
            final(out)@.last().text.group@ == databases_group(),
            !final(out)@.last().text.hide_help,
    {
        out.push(CommandInfo::new(expand_collapse(&self.key_config)));
        assert(out@.take(old(out)@.len() as int) =~= old(out)@);
    }

    /// Moves the selection or changes the palette as the key asks. Any other
    /// key changes nothing and is not consumed.
    pub fn event(&mut self, key: Key) -> (state: EventState)
        ensures
            final(self).stepped_from(*old(self), key),
            state == (if table_move_of(key) is Some {
                EventState::Consumed
            } else {
                EventState::NotConsumed
            }),
    {
        match table_move(key) {
            Some(TableMove::Next) => self.next(),
            Some(TableMove::Previous) => self.previous(),
            Some(TableMove::NextColor) => self.next_color(),
            Some(TableMove::PreviousColor) => self.previous_color(),
            None => return EventState::NotConsumed,
        };
        EventState::Consumed
    }
}

impl Component for TotalProcInfoComponent {
    /// The view is always on the screen: closing it changes nothing.
    open spec fn concealed_from(&self, before: &Self) -> bool {
        self == before
    }

    /// The view is always on the screen: opening it changes nothing.
    open spec fn opened_from(&self, before: &Self) -> bool {
        self == before
    }

    fn commands(&self, out: &mut Vec<CommandInfo>)
        ensures
            final(out)@.len() == old(out)@.len() + 1,
            final(out)@.take(old(out)@.len() as int) == old(out)@,
            final(out)@.last().text.name@ == expand_collapse_name(self.key_config),
    {
        TotalProcInfoComponent::commands(self, out)
    }

    fn event(&mut self, key: Key) -> (state: EventState)
        ensures
            final(self).stepped_from(*old(self), key),
            state == (if table_move_of(key) is Some {
                EventState::Consumed
            } else {
                EventState::NotConsumed
            }),
    {
        TotalProcInfoComponent::event(self, key)
    }

    fn conceal(&mut self) {
    }

    fn show(&mut self) {
    }
}

} // verus!
