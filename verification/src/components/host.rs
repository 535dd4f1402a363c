use crate::components::command::{
    databases_group, expand_collapse, expand_collapse_name, CommandInfo,
};
use crate::components::{Component, EventState};
use crate::config::KeyConfig;
use crate::event::Key;
use crate::text::{lines_of, text_lines, widest, wider};
use crate::tools::host::HostInfo;
use vstd::prelude::*;

verus! {

/// The lines that one row of a table takes.
pub const ITEM_HEIGHT: usize = 4;

/// The number of palettes that a table can be shown in.
pub const PALETTE_COUNT: usize = 4;

/// The scrollbar position of row `i`: the row times the height of a row, and
/// the largest number where that does not fit.
pub open spec fn row_offset(i: int) -> int {
    if i * ITEM_HEIGHT <= usize::MAX {
        i * ITEM_HEIGHT
    } else {
        usize::MAX as int
    }
}

/// The row after `selected` in a list of `len` rows, going round from the
/// last to the first. With nothing selected it is the first.
pub open spec fn row_after(selected: Option<usize>, len: int) -> int {
    match selected {
        Some(i) => if i >= len - 1 {
            0
        } else {
            i + 1
        },
        None => 0,
    }
}

/// The row before `selected` in a list of `len` rows, going round from the
/// first to the last. With nothing selected it is the first.
pub open spec fn row_before(selected: Option<usize>, len: int) -> int {
    match selected {
        Some(i) => if i == 0 {
            len - 1
        } else {
            i - 1
        },
        None => 0,
    }
}

/// The palette after `index`, going round.
pub open spec fn palette_after(index: int) -> int {
    (index % 4 + 1) % 4
}

/// The palette before `index`, going round.
pub open spec fn palette_before(index: int) -> int {
    (index % 4 + 3) % 4
}

/// What a key asks of a table of records.
#[derive(Debug, Clone, Copy, PartialEq, Eq, Structural)]
pub enum TableMove {
    Next,
    Previous,
    NextColor,
    PreviousColor,
}

/// The move that a key asks of a table, if any.
pub open spec fn table_move_of(key: Key) -> Option<TableMove> {
    match key {
        Key::Char('j') => Some(TableMove::Next),
        Key::Down => Some(TableMove::Next),
        Key::Char('k') => Some(TableMove::Previous),
        Key::Up => Some(TableMove::Previous),
        Key::Char('l') => Some(TableMove::NextColor),
        Key::Right => Some(TableMove::NextColor),
        Key::Char('h') => Some(TableMove::PreviousColor),
        Key::Left => Some(TableMove::PreviousColor),
        _ => None,
    }
}

/// The move that a key asks of a table, if any.
pub fn table_move(key: Key) -> (m: Option<TableMove>)
    ensures
        m == table_move_of(key),
{
    match key {
        Key::Char('j') | Key::Down => Some(TableMove::Next),
        Key::Char('k') | Key::Up => Some(TableMove::Previous),
        Key::Char('l') | Key::Right => Some(TableMove::NextColor),
        Key::Char('h') | Key::Left => Some(TableMove::PreviousColor),
        _ => None,
    }
}

/// The scrollbar position of row `i`.
pub fn scroll_position_of(i: usize) -> (position: usize)
    ensures
        position == row_offset(i as int),
{
    match i.checked_mul(ITEM_HEIGHT) {
        Some(position) => position,
        None => usize::MAX,
    }
}

/// Which pane of a table view has the keyboard.
#[derive(Debug, Clone, Copy, PartialEq, Eq, Structural)]
pub enum Focus {
    Filter,
    Tree,
}

/// One column of the host table: the text that each host has in it.
pub open spec fn host_column(items: Seq<HostInfo>, column: int) -> Seq<Seq<char>> {
    Seq::new(
        items.len(),
        |k: int|
            if column == 0 {
                items[k].inner_ip@
            } else if column == 1 {
                items[k].world_id@
            } else if column == 2 {
                items[k].zone_id@
            } else {
                items[k].host_name@
            },
    )
}

/// The width of the widest line among the lines of the first `n` texts.
pub open spec fn widest_line(texts: Seq<Seq<char>>, n: nat) -> nat
    decreases n,
{
    if n == 0 {
        0
    } else {
        let before = widest_line(texts, (n - 1) as nat);
        let lines = text_lines(texts[n - 1]);
        let width = widest(lines, lines.len());
        if width > before {
            width
        } else {
            before
        }
    }
}

/// The larger of `current` and the width of the widest line of `text`.
pub fn wider_line(current: usize, text: &str) -> (w: usize)
    ensures
        w == (if widest(text_lines(text@), text_lines(text@).len()) > current {
            widest(text_lines(text@), text_lines(text@).len())
        } else {
            current as nat
        }),
{
    let lines = lines_of(text);
    let ghost all = text_lines(text@);
    let mut width: usize = 0;
    let mut i: usize = 0;
    while i < lines.len()
        invariant
            i <= lines.len(),
            lines@.len() == all.len(),
            forall|k: int| 0 <= k < lines@.len() ==> (#[trigger] lines@[k])@ == all[k],
            width == widest(all, i as nat),
        decreases lines.len() - i,
    {
        width = wider(width, lines[i].as_str());
        i = i + 1;
    }
    if width > current {
        width
    } else {
        current
    }
}

/// The width that each column of the host table needs: that of its widest
/// cell, cut to 16 bits. A world id of several lines counts with its widest
/// line.
pub fn constraint_len_calculator(items: &Vec<HostInfo>) -> (lens: (u16, u16, u16, u16))
    ensures
        lens.0 == widest(host_column(items@, 0), items.len() as nat) as u16,
        lens.1 == widest_line(host_column(items@, 1), items.len() as nat) as u16,
        lens.2 == widest(host_column(items@, 2), items.len() as nat) as u16,
        lens.3 == widest(host_column(items@, 3), items.len() as nat) as u16,
{
    let mut inner_ip_len: usize = 0;
    let mut world_id_len: usize = 0;
    let mut zone_id_len: usize = 0;
    let mut host_name_len: usize = 0;
    let mut i: usize = 0;
    while i < items.len()
        invariant
            i <= items.len(),
            inner_ip_len == widest(host_column(items@, 0), i as nat),
            world_id_len == widest_line(host_column(items@, 1), i as nat),
            zone_id_len == widest(host_column(items@, 2), i as nat),
            host_name_len == widest(host_column(items@, 3), i as nat),
        decreases items.len() - i,
    {
        inner_ip_len = wider(inner_ip_len, items[i].inner_ip());
        world_id_len = wider_line(world_id_len, items[i].world_id());
        zone_id_len = wider(zone_id_len, items[i].zone_id());
        host_name_len = wider(host_name_len, items[i].host_name());
        i = i + 1;
    }
    (
        #[verifier::truncate]
        (inner_ip_len as u16),
        #[verifier::truncate]
        (world_id_len as u16),
        #[verifier::truncate]
        (zone_id_len as u16),
        #[verifier::truncate]
        (host_name_len as u16),
    )
}

/// The table of hosts: the rows, which of them is selected, and how the
/// table is shown.
#[derive(Debug)]
pub struct HostInfoComponent {
    pub selected: Option<usize>,
    pub items: Vec<HostInfo>,
    pub longest_item_lens: (u16, u16, u16, u16),
    pub scroll_length: usize,
    pub scroll_position: usize,
    pub color_index: usize,
    pub key_config: KeyConfig,
}

impl HostInfoComponent {
    /// What no key changes.
    pub open spec fn same_table(self, before: Self) -> bool {
        &&& self.items == before.items
        &&& self.longest_item_lens == before.longest_item_lens
        &&& self.scroll_length == before.scroll_length
        &&& self.key_config == before.key_config
    }

    /// The selection went to row `row`.
    pub open spec fn selected_from(self, before: Self, row: int) -> bool {
        &&& self.selected == Some(row as usize)
        &&& self.scroll_position == row_offset(row)
        &&& self.color_index == before.color_index
        &&& self.same_table(before)
    }

    /// The palette changed to `index`.
    pub open spec fn coloured_from(self, before: Self, index: int) -> bool {
        &&& self.color_index == index
        &&& self.selected == before.selected
        &&& self.scroll_position == before.scroll_position
        &&& self.same_table(before)
    }

    /// What a move does to the table. A table without rows has no row to
    /// select and stays as it is.
    pub open spec fn moved_from(self, before: Self, m: TableMove) -> bool {
        match m {
            TableMove::Next => if before.items.len() == 0 {
                self == before
            } else {
                self.selected_from(before, row_after(before.selected, before.items.len() as int))
            },
            TableMove::Previous => if before.items.len() == 0 {
                self == before
            } else {
                self.selected_from(before, row_before(before.selected, before.items.len() as int))
            },
            TableMove::NextColor => self.coloured_from(
                before,
                palette_after(before.color_index as int),
            ),
            TableMove::PreviousColor => self.coloured_from(
                before,
                palette_before(before.color_index as int),
            ),
        }
    }

    /// What a key does to the table.
    pub open spec fn stepped_from(self, before: Self, key: Key) -> bool {
        match table_move_of(key) {
            Some(m) => self.moved_from(before, m),
            None => self == before,
        }
    }

    /// The table over `items`, with the first row selected.
    pub fn new(items: Vec<HostInfo>, key_config: KeyConfig) -> (table: HostInfoComponent)
        ensures
            table.selected == Some(0usize),
            table.items == items,
            table.scroll_position == 0,
            table.scroll_length == row_offset(
                if items.len() == 0 {
                    0
                } else {
                    items.len() - 1
                },
            ),
            table.color_index == 0,
            table.key_config == key_config,
            table.longest_item_lens.0 == widest(host_column(items@, 0), items.len() as nat) as u16,
            table.longest_item_lens.1 == widest_line(host_column(items@, 1), items.len() as nat)
                as u16,
            table.longest_item_lens.2 == widest(host_column(items@, 2), items.len() as nat) as u16,
            table.longest_item_lens.3 == widest(host_column(items@, 3), items.len() as nat) as u16,
    {
        let longest_item_lens = constraint_len_calculator(&items);
        let scroll_length = scroll_position_of(items.len().saturating_sub(1));
        HostInfoComponent {
            selected: Some(0),
            longest_item_lens,
            scroll_length,
            scroll_position: 0,
            color_index: 0,
            items,
            key_config,
        }
    }

    pub fn previous(&mut self)
        ensures
            final(self).moved_from(*old(self), TableMove::Previous),
    {
        if self.items.len() == 0 {
            return ;
        }
        let i = match self.selected {
            Some(i) => {
                if i == 0 {
                    self.items.len() - 1
                } else {
                    i - 1
                }
            },
            None => 0,
        };
        self.selected = Some(i);
        self.scroll_position = scroll_position_of(i);
    }

    pub fn next_color(&mut self)
        ensures
            final(self).moved_from(*old(self), TableMove::NextColor),
    {
        self.color_index = (self.color_index % PALETTE_COUNT + 1) % PALETTE_COUNT;
    }

    pub fn previous_color(&mut self)
        ensures
            final(self).moved_from(*old(self), TableMove::PreviousColor),
    {
        let count = PALETTE_COUNT;
        self.color_index = (self.color_index % count + count - 1) % count;
    }

    pub fn next(&mut self)
        ensures
            final(self).moved_from(*old(self), TableMove::Next),
    {
        if self.items.len() == 0 {
            return ;
        }
        let i = match self.selected {
            Some(i) => {
                if i >= self.items.len() - 1 {
                    0
                } else {
                    i + 1
                }
            },
            None => 0,
        };
        self.selected = Some(i);
        self.scroll_position = scroll_position_of(i);
    }

    /// Lists the command of the table in the help.
    pub fn commands(&self, out: &mut Vec<CommandInfo>)
        ensures
            final(out)@.len() == old(out)@.len() + 1,
            final(out)@.take(old(out)@.len() as int) == old(out)@,
            final(out)@.last().text.name@ == expand_collapse_name(self.key_config),
            final(out)@.last().text.group@ == databases_group(),
            !final(out)@.last().text.hide_help,
    {
        out.push(CommandInfo::new(expand_collapse(&self.key_config)));
        assert(out@.take(old(out)@.len() as int) =~= old(out)@);
    }

    /// Moves the selection or changes the palette as the key asks. Any other
    /// key changes nothing and is not consumed.
    pub fn event(&mut self, key: Key) -> (state: EventState)
        ensures
            final(self).stepped_from(*old(self), key),
            state == (if table_move_of(key) is Some {
                EventState::Consumed
            } else {
                EventState::NotConsumed
            }),
    {
        match table_move(key) {
            Some(TableMove::Next) => self.next(),
            Some(TableMove::Previous) => self.previous(),
            Some(TableMove::NextColor) => self.next_color(),
            Some(TableMove::PreviousColor) => self.previous_color(),
            None => return EventState::NotConsumed,
        };
        EventState::Consumed
    }
}

impl Component for HostInfoComponent {
    /// The view is always on the screen: closing it changes nothing.
    open spec fn concealed_from(&self, before: &Self) -> bool {
        self == before
    }

    /// The view is always on the screen: opening it changes nothing.
    open spec fn opened_from(&self, before: &Self) -> bool {
        self == before
    }

    fn commands(&self, out: &mut Vec<CommandInfo>)
        ensures
            final(out)@.len() == old(out)@.len() + 1,
            final(out)@.take(old(out)@.len() as int) == old(out)@,
            final(out)@.last().text.name@ == expand_collapse_name(self.key_config),
    {
        HostInfoComponent::commands(self, out)
    }

    fn event(&mut self, key: Key) -> (state: EventState)
        ensures
            final(self).stepped_from(*old(self), key),
            state == (if table_move_of(key) is Some {
                EventState::Consumed
            } else {
                EventState::NotConsumed
            }),
    {
        HostInfoComponent::event(self, key)
    }

    fn conceal(&mut self) {
    }

    fn show(&mut self) {
    }
}

} // verus!
