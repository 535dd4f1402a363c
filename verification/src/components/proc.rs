use crate::components::command::{
    databases_group, expand_collapse, expand_collapse_name, CommandInfo,
};
use crate::components::host::{
    palette_after, palette_before, row_after, row_before, row_offset, scroll_position_of,
    table_move, table_move_of, TableMove, PALETTE_COUNT,
};
use crate::components::{Component, EventState};
use crate::config::KeyConfig;
use crate::event::Key;
use crate::text::{decimal, dec_len, widest, wider};
use crate::tools::proc::ProcInfo;
use vstd::prelude::*;

verus! {

/// Which pane of a table view has the keyboard.
#[derive(Debug, Clone, Copy, PartialEq, Eq, Structural)]
pub enum Focus {
    Filter,
    Tree,
}

/// One text column of the process table: the text that each process has in
/// it.
pub open spec fn proc_column(items: Seq<ProcInfo>, column: int) -> Seq<Seq<char>> {
    Seq::new(
        items.len(),
        |k: int|
            if column == 0 {
                items[k].proc_name@
            } else if column == 2 {
                items[k].work_path@
            } else {
                items[k].group_name@
            },
    )
}

/// The largest number of characters that the function id of one of the
/// first `n` processes takes in decimal.
pub open spec fn longest_func_id(items: Seq<ProcInfo>, n: nat) -> nat
    decreases n,
{
    if n == 0 {
        0
    } else {
        let before = longest_func_id(items, (n - 1) as nat);
        let len = decimal(items[n - 1].func_id as int).len();
        if len > before {
            len
        } else {
            before
        }
    }
}

/// The width that each column of the process table needs: that of its widest
/// cell, cut to 16 bits. The function id counts with the characters of its
/// decimal form.
pub fn constraint_len_calculator(items: &Vec<ProcInfo>) -> (lens: (u16, u16, u16, u16))
    ensures
        lens.0 == widest(proc_column(items@, 0), items.len() as nat) as u16,
        lens.1 == longest_func_id(items@, items.len() as nat) as u16,
        lens.2 == widest(proc_column(items@, 2), items.len() as nat) as u16,
        lens.3 == widest(proc_column(items@, 3), items.len() as nat) as u16,
{
    let mut inner_ip_len: usize = 0;
    let mut world_id_len: usize = 0;
    let mut inst_id_len: usize = 0;
    let mut proc_group_name: usize = 0;
    let mut i: usize = 0;
    while i < items.len()
        invariant
            i <= items.len(),
            inner_ip_len == widest(proc_column(items@, 0), i as nat),
            world_id_len == longest_func_id(items@, i as nat),
            inst_id_len == widest(proc_column(items@, 2), i as nat),
            proc_group_name == widest(proc_column(items@, 3), i as nat),
        decreases items.len() - i,
    {
        inner_ip_len = wider(inner_ip_len, items[i].proc_name());
        let id_len = dec_len(items[i].func_id);
        if id_len > world_id_len {
            world_id_len = id_len;
        }
        inst_id_len = wider(inst_id_len, items[i].work_path());
        proc_group_name = wider(proc_group_name, items[i].proc_group_name());
        i = i + 1;
    }
    (
        #[verifier::truncate]
        (inner_ip_len as u16),
        #[verifier::truncate]
        (world_id_len as u16),
        #[verifier::truncate]
        (inst_id_len as u16),
        #[verifier::truncate]
        (proc_group_name as u16),
    )
}

/// The table of processes: the rows, which of them is selected, the record
/// that was selected last, and how the table is shown.
#[derive(Debug)]
pub struct ProcInfoComponent {
    pub selected: Option<usize>,
    pub items: Vec<ProcInfo>,
    pub select_item: Option<ProcInfo>,
    pub longest_item_lens: (u16, u16, u16, u16),
    pub scroll_length: usize,
    pub scroll_position: usize,
    pub color_index: usize,
    pub key_config: KeyConfig,
}

impl ProcInfoComponent {
    /// What no key changes.
    pub open spec fn same_table(self, before: Self) -> bool {
        &&& self.items == before.items
        &&& self.longest_item_lens == before.longest_item_lens
        &&& self.scroll_length == before.scroll_length
        &&& self.key_config == before.key_config
    }

    /// The selection went to row `row`. Going forward takes the record of
    /// that row as the selected record; going back leaves the selected record
    /// as it was.
    pub open spec fn selected_from(self, before: Self, row: int, forward: bool) -> bool {
        &&& self.selected == Some(row as usize)
        &&& self.scroll_position == row_offset(row)
        &&& self.select_item == (if forward {
            Some(before.items[row])
        } else {
            before.select_item
        })
        &&& self.color_index == before.color_index
        &&& self.same_table(before)
    }

    /// The palette changed to `index`.
    pub open spec fn coloured_from(self, before: Self, index: int) -> bool {
        &&& self.color_index == index
        &&& self.selected == before.selected
        &&& self.scroll_position == before.scroll_position
        &&& self.select_item == before.select_item
        &&& self.same_table(before)
    }

    /// What a move does to the table. A table without rows has no row to
    /// select and stays as it is.
    pub open spec fn moved_from(self, before: Self, m: TableMove) -> bool {
        match m {
            TableMove::Next => if before.items.len() == 0 {
                self == before
            } else {
                self.selected_from(
                    before,
                    row_after(before.selected, before.items.len() as int),
                    true,
                )
            },
            TableMove::Previous => if before.items.len() == 0 {
                self == before
            } else {
                self.selected_from(
                    before,
                    row_before(before.selected, before.items.len() as int),
                    false,
                )
            },
            TableMove::NextColor => self.coloured_from(
                before,
                palette_after(before.color_index as int),
            ),
            TableMove::PreviousColor => self.coloured_from(
                before,
                palette_before(before.color_index as int),
            ),
        }
    }

    /// What a key does to the table.
    pub open spec fn stepped_from(self, before: Self, key: Key) -> bool {
        match table_move_of(key) {
            Some(m) => self.moved_from(before, m),
            None => self == before,
        }
    }

    /// The table over `items`, with the first row selected.
    pub fn new(items: Vec<ProcInfo>, key_config: KeyConfig) -> (table: ProcInfoComponent)
        ensures
            table.selected == Some(0usize),
            table.items == items,
            table.scroll_position == 0,
            table.scroll_length == row_offset(
                if items.len() == 0 {
                    0
                } else {
                    items.len() - 1
                },
            ),
            table.color_index == 0,
            table.select_item is None,
            table.key_config == key_config,
            table.longest_item_lens.0 == widest(proc_column(items@, 0), items.len() as nat) as u16,
            table.longest_item_lens.1 == longest_func_id(items@, items.len() as nat) as u16,
            table.longest_item_lens.2 == widest(proc_column(items@, 2), items.len() as nat) as u16,
            table.longest_item_lens.3 == widest(proc_column(items@, 3), items.len() as nat) as u16,
    {
        let longest_item_lens = constraint_len_calculator(&items);
        let scroll_length = scroll_position_of(items.len().saturating_sub(1));
        ProcInfoComponent {
            selected: Some(0),
            longest_item_lens,
            scroll_length,
            scroll_position: 0,
            color_index: 0,
            items,
            select_item: None,
            key_config,
        }
    }

    pub fn previous(&mut self)
        ensures
            final(self).moved_from(*old(self), TableMove::Previous),
    {
        if self.items.len() == 0 {
            return ;
        }
        let i = match self.selected {
            Some(i) => {
                if i == 0 {
                    self.items.len() - 1
                } else {
                    i - 1
                }
            },
            None => 0,
        };
        self.selected = Some(i);
        self.scroll_position = scroll_position_of(i);
    }

    pub fn next_color(&mut self)
        ensures
            final(self).moved_from(*old(self), TableMove::NextColor),
    {
        self.color_index = (self.color_index % PALETTE_COUNT + 1) % PALETTE_COUNT;
    }

    pub fn previous_color(&mut self)
        ensures
            final(self).moved_from(*old(self), TableMove::PreviousColor),
    {
        let count = PALETTE_COUNT;
        self.color_index = (self.color_index % count + count - 1) % count;
    }

    pub fn next(&mut self)
        ensures
            final(self).moved_from(*old(self), TableMove::Next),
    {
        if self.items.len() == 0 {
            return ;
        }
        let i = match self.selected {
            Some(i) => {
                if i >= self.items.len() - 1 {
                    0
                } else {
                    i + 1
                }
            },
            None => 0,
        };
        self.selected = Some(i);
        self.scroll_position = scroll_position_of(i);
        self.select_item = Some(self.items[i].clone());
    }

    /// Lists the command of the table in the help.
    pub fn commands(&self, out: &mut Vec<CommandInfo>)
        ensures
            final(out)@.len() == old(out)@.len() + 1,
            final(out)@.take(old(out)@.len() as int) == old(out)@,
            final(out)@.last().text.name@ == expand_collapse_name(self.key_config),
            final(out)@.last().text.group@ == databases_group(),
            !final(out)@.last().text.hide_help,
    {
        out.push(CommandInfo::new(expand_collapse(&self.key_config)));
        assert(out@.take(old(out)@.len() as int) =~= old(out)@);
    }

    /// Moves the selection or changes the palette as the key asks. Any other
    /// key changes nothing and is not consumed.
    pub fn event(&mut self, key: Key) -> (state: EventState)
        ensures
            final(self).stepped_from(*old(self), key),
            state == (if table_move_of(key) is Some {
                EventState::Consumed
            } else {
                EventState::NotConsumed
            }),
    {
        match table_move(key) {
            Some(TableMove::Next) => self.next(),
            Some(TableMove::Previous) => self.previous(),
            Some(TableMove::NextColor) => self.next_color(),
            Some(TableMove::PreviousColor) => self.previous_color(),
            None => return EventState::NotConsumed,
        };
        EventState::Consumed
    }
}

impl Component for ProcInfoComponent {
    /// The view is always on the screen: closing it changes nothing.
    open spec fn concealed_from(&self, before: &Self) -> bool {
        self == before
    }

    /// The view is always on the screen: opening it changes nothing.
    open spec fn opened_from(&self, before: &Self) -> bool {
        self == before
    }

    fn commands(&self, out: &mut Vec<CommandInfo>)
        ensures
            final(out)@.len() == old(out)@.len() + 1,
            final(out)@.take(old(out)@.len() as int) == old(out)@,
            final(out)@.last().text.name@ == expand_collapse_name(self.key_config),
    {
        ProcInfoComponent::commands(self, out)
    }

    fn event(&mut self, key: Key) -> (state: EventState)
        ensures
            final(self).stepped_from(*old(self), key),
            state == (if table_move_of(key) is Some {
                EventState::Consumed
            } else {
                EventState::NotConsumed
            }),
    {
        ProcInfoComponent::event(self, key)
    }

    fn conceal(&mut self) {
    }

    fn show(&mut self) {
    }
}

} // verus!
