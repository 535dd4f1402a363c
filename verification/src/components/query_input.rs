use crate::components::command::{
    databases_group, expand_collapse, expand_collapse_name, CommandInfo,
};
use crate::components::tabs::SelectedTab;
use crate::components::{Component, EventState};
use crate::config::KeyConfig;
use crate::event::Key;
use crate::text::chars_of;
use vstd::prelude::*;

verus! {

/// How a submitted query is read: as an address or as a keyword.
#[derive(Debug, Clone, Copy, PartialEq, Eq, Structural)]
pub enum QueryType {
    Tcm,
    Text,
}

/// The colour of the input box: red marks it as the pane that has the
/// keyboard.
#[derive(Debug, Clone, Copy, PartialEq, Eq, Structural)]
pub enum InputColor {
    Reset,
    Red,
}

/// The query line: the text being typed, the cursor in it counted in
/// characters, and the queries submitted so far, the latest first.
#[derive(Debug)]
pub struct QueryInputComponents {
    pub query_type: QueryType,
    pub input: String,
    pub cursor_position: usize,
    pub history: Vec<String>,
    pub key_config: KeyConfig,
    pub tab: SelectedTab,
    pub color: InputColor,
}

/// The other way of reading a query.
pub open spec fn other_query_type(query_type: QueryType) -> QueryType {
    match query_type {
        QueryType::Tcm => QueryType::Text,
        QueryType::Text => QueryType::Tcm,
    }
}

/// A position brought into a text of `len` characters.
pub open spec fn clamped(position: int, len: int) -> int {
    if position < 0 {
        0
    } else if position > len {
        len
    } else {
        position
    }
}

/// `text` with `c` put in at the cursor.
pub open spec fn with_char(text: Seq<char>, cursor: int, c: char) -> Seq<char> {
    text.insert(clamped(cursor, text.len() as int), c)
}

/// `text` without the character before the cursor.
pub open spec fn without_char(text: Seq<char>, cursor: int) -> Seq<char> {
    if 1 <= cursor <= text.len() {
        text.remove(cursor - 1)
    } else {
        text
    }
}

impl QueryInputComponents {
    /// The cursor stands within the line.
    pub open spec fn cursor_in_line(self) -> bool {
        self.cursor_position <= self.input@.len()
    }

    /// What stays as it is whatever key comes.
    pub open spec fn same_settings(self, before: Self) -> bool {
        &&& self.key_config == before.key_config
        &&& self.tab == before.tab
        &&& self.color == before.color
    }

    /// The input was submitted: it stands first in the history, and the line
    /// is empty with the cursor at its start.
    pub open spec fn submitted_from(self, before: Self) -> bool {
        &&& self.history@ == before.history@.insert(0, before.input)
        &&& self.input@ == Seq::<char>::empty()
        &&& self.cursor_position == 0
        &&& self.query_type == before.query_type
        &&& self.same_settings(before)
    }

    /// The way of reading a query was switched.
    pub open spec fn toggled_from(self, before: Self) -> bool {
        &&& self.query_type == other_query_type(before.query_type)
        &&& self.input == before.input
        &&& self.cursor_position == before.cursor_position
        &&& self.history == before.history
        &&& self.same_settings(before)
    }

    /// `c` was typed at the cursor, and the cursor stands behind it.
    pub open spec fn typed_from(self, before: Self, c: char) -> bool {
        &&& self.input@ == with_char(before.input@, before.cursor_position as int, c)
        &&& self.cursor_position == clamped(
            before.cursor_position + 1,
            before.input@.len() as int + 1,
        )
        &&& self.query_type == before.query_type
        &&& self.history == before.history
        &&& self.same_settings(before)
    }

    /// The character before the cursor was taken out and the cursor moved
    /// left; at the start of the line nothing happens.
    pub open spec fn erased_from(self, before: Self) -> bool {
        &&& self.input@ == (if before.cursor_position == 0 {
            before.input@
        } else {
            without_char(before.input@, before.cursor_position as int)
        })
        &&& self.cursor_position == (if before.cursor_position == 0 {
            0
        } else {
            clamped(before.cursor_position - 1, self.input@.len() as int)
        })
        &&& self.query_type == before.query_type
        &&& self.history == before.history
        &&& self.same_settings(before)
    }

    /// The cursor moved by `by` within the line.
    pub open spec fn moved_from(self, before: Self, by: int) -> bool {
        &&& self.cursor_position == clamped(
            before.cursor_position + by,
            before.input@.len() as int,
        )
        &&& self.input == before.input
        &&& self.query_type == before.query_type
        &&& self.history == before.history
        &&& self.same_settings(before)
    }

    /// Whether the query line has a use for the key.
    pub open spec fn takes(key: Key) -> bool {
        match key {
            Key::Enter => true,
            Key::Up => true,
            Key::Down => true,
            Key::Char(_) => true,
            Key::Backspace => true,
            Key::Left => true,
            Key::Right => true,
            _ => false,
        }
    }

    /// What a key does to the query line.
    pub open spec fn stepped_from(self, before: Self, key: Key) -> bool {
        match key {
            Key::Enter => self.submitted_from(before),
            Key::Up => self.toggled_from(before),
            Key::Down => self.toggled_from(before),
            Key::Char(c) => self.typed_from(before, c),
            Key::Backspace => self.erased_from(before),
            Key::Left => self.moved_from(before, -1),
            Key::Right => self.moved_from(before, 1),
            _ => self == before,
        }
    }

    /// An empty query line that reads addresses.
    pub fn new(key_config: KeyConfig) -> (line: QueryInputComponents)
        ensures
            line.query_type == QueryType::Tcm,
            line.input@ == Seq::<char>::empty(),
            line.cursor_position == 0,
            line.history@ == Seq::<String>::empty(),
            line.key_config == key_config,
            line.tab == SelectedTab::Tab1,
            line.color == InputColor::Reset,
            line.cursor_in_line(),
    {
        QueryInputComponents {
            query_type: QueryType::Tcm,
            input: String::new(),
            cursor_position: 0,
            history: Vec::new(),
            key_config,
            tab: SelectedTab::Tab1,
            color: InputColor::Reset,
        }
    }

    pub fn swich_query_type(&mut self)
        ensures
            final(self).toggled_from(*old(self)),
    {
        match self.query_type {
            QueryType::Tcm => self.query_type = QueryType::Text,
            QueryType::Text => self.query_type = QueryType::Tcm,
        }
    }

    pub fn move_cursor_left(&mut self)
        ensures
            final(self).moved_from(*old(self), -1),
    {
        let cursor_moved_left = self.cursor_position.saturating_sub(1);
        self.cursor_position = self.clamp_cursor(cursor_moved_left);
    }

    pub fn move_cursor_right(&mut self)
        ensures
            final(self).moved_from(*old(self), 1),
    {
        let cursor_moved_right = self.cursor_position.saturating_add(1);
        self.cursor_position = self.clamp_cursor(cursor_moved_right);
    }

    pub fn enter_char(&mut self, new_char: char)
        ensures
            final(self).typed_from(*old(self), new_char),
    {
        let chars = chars_of(self.input.as_str());
        let at = self.clamp_cursor(self.cursor_position);
        let mut line = String::new();
        let mut i: usize = 0;
        while i < at
            invariant
                i <= at <= chars.len(),
                line@ == chars@.take(i as int),
            decreases at - i,
        {
            line.push(chars[i]);
            i = i + 1;
            assert(chars@.take(i as int) == chars@.take(i - 1).push(chars@[i - 1]));
        }
        line.push(new_char);
        while i < chars.len()
            invariant
                at <= i <= chars.len(),
                line@ == chars@.take(at as int).push(new_char) + chars@.subrange(
                    at as int,
                    i as int,
                ),
            decreases chars.len() - i,
        {
            line.push(chars[i]);
            i = i + 1;
            assert(chars@.subrange(at as int, i as int) == chars@.subrange(at as int, i - 1).push(
                chars@[i - 1],
            ));
        }
        assert(line@ =~= with_char(chars@, self.cursor_position as int, new_char));
        self.input = line;
        self.move_cursor_right();
    }

    pub fn delete_char(&mut self)
        ensures
            final(self).erased_from(*old(self)),
    {
        let is_not_cursor_leftmost = self.cursor_position != 0;
        if is_not_cursor_leftmost {
            let chars = chars_of(self.input.as_str());
            let current_index = self.cursor_position;
            let from_left_to_current_index = current_index - 1;
            let mut line = String::new();
            let mut i: usize = 0;
            while i < chars.len()
                invariant
                    i <= chars.len(),
                    from_left_to_current_index == current_index - 1,
                    line@ == (if i < current_index {
                        chars@.take(i as int)
                    } else {
                        chars@.take(i as int).remove(from_left_to_current_index as int)
                    }),
                decreases chars.len() - i,
            {
                if i != from_left_to_current_index {
                    line.push(chars[i]);
                }
                i = i + 1;
                assert(chars@.take(i as int) == chars@.take(i - 1).push(chars@[i - 1]));
                assert(line@ =~= (if i < current_index {
                    chars@.take(i as int)
                } else {
                    chars@.take(i as int).remove(from_left_to_current_index as int)
                }));
            }
            assert(chars@.take(chars.len() as int) == chars@);
            self.input = line;
            self.move_cursor_left();
        }
    }

    pub fn clamp_cursor(&self, new_cursor_pos: usize) -> (position: usize)
        ensures
            position == clamped(new_cursor_pos as int, self.input@.len() as int),
            self.input@.len() <= usize::MAX,
    {
        let len = self.input.as_str().unicode_len();
        if new_cursor_pos > len {
            len
        } else {
            new_cursor_pos
        }
    }

    pub fn reset_cursor(&mut self)
        ensures
            final(self).cursor_position == 0,
            final(self).input == old(self).input,
            final(self).query_type == old(self).query_type,
            final(self).history == old(self).history,
            final(self).same_settings(*old(self)),
    {
        self.cursor_position = 0;
    }

    pub fn submit_message(&mut self)
        ensures
            final(self).submitted_from(*old(self)),
    {
        let submitted = self.input.clone();
        self.history.insert(0, submitted);
        self.input = String::new();
        self.reset_cursor();
    }

    /// Lists the command of the query line in the help.
    pub fn commands(&self, out: &mut Vec<CommandInfo>)
        ensures
            final(out)@.len() == old(out)@.len() + 1,
            final(out)@.take(old(out)@.len() as int) == old(out)@,
            final(out)@.last().text.name@ == expand_collapse_name(self.key_config),
            final(out)@.last().text.group@ == databases_group(),
            !final(out)@.last().text.hide_help,
    {
        out.push(CommandInfo::new(expand_collapse(&self.key_config)));
        assert(out@.take(old(out)@.len() as int) =~= old(out)@);
    }

    /// Edits the line as the key asks. A key that the line has no use for
    /// changes nothing and is not consumed.
    pub fn event(&mut self, key: Key) -> (state: EventState)
        ensures
            final(self).stepped_from(*old(self), key),
            state == (if Self::takes(key) {
                EventState::Consumed
            } else {
                EventState::NotConsumed
            }),
    {
        match key {
            Key::Enter => self.submit_message(),
            Key::Up => self.swich_query_type(),
            Key::Down => self.swich_query_type(),
            Key::Char(to_insert) => {
                self.enter_char(to_insert);
            },
            Key::Backspace => {
                self.delete_char();
            },
            Key::Left => {
                self.move_cursor_left();
            },
            Key::Right => {
                self.move_cursor_right();
            },
            _ => return EventState::NotConsumed,
        }
        EventState::Consumed
    }
}

/// No key takes the cursor out of the line.
pub proof fn law_cursor_stays_in_line(
    before: QueryInputComponents,
    after: QueryInputComponents,
    key: Key,
)
    requires
        before.cursor_in_line(),
        after.stepped_from(before, key),
    ensures
        after.cursor_in_line(),
{
}

/// Typing a character and erasing it again gives back the line and the
/// cursor.
pub proof fn law_erase_undoes_typing(
    before: QueryInputComponents,
    typed: QueryInputComponents,
    erased: QueryInputComponents,
    c: char,
)
    requires
        before.cursor_in_line(),
        typed.stepped_from(before, Key::Char(c)),
        erased.stepped_from(typed, Key::Backspace),
    ensures
        erased.input@ == before.input@,
        erased.cursor_position == before.cursor_position,
{
    assert(erased.input@ =~= before.input@);
}

/// After a query is submitted it stands first in the history, before every
/// query submitted earlier.
pub proof fn law_history_is_latest_first(
    before: QueryInputComponents,
    after: QueryInputComponents,
)
    requires
        after.stepped_from(before, Key::Enter),
    ensures
        after.history@.len() == before.history@.len() + 1,
        after.history@[0] == before.input,
        forall|i: int|
            0 <= i < before.history@.len() ==> after.history@[i + 1] == before.history@[i],
{
}

impl Component for QueryInputComponents {
    /// The view is always on the screen: closing it changes nothing.
    open spec fn concealed_from(&self, before: &Self) -> bool {
        self == before
    }

    /// The view is always on the screen: opening it changes nothing.
    open spec fn opened_from(&self, before: &Self) -> bool {
        self == before
    }

    fn commands(&self, out: &mut Vec<CommandInfo>)
        ensures
            final(out)@.len() == old(out)@.len() + 1,
            final(out)@.take(old(out)@.len() as int) == old(out)@,
            final(out)@.last().text.name@ == expand_collapse_name(self.key_config),
    {
        QueryInputComponents::commands(self, out)
    }

    fn event(&mut self, key: Key) -> (state: EventState)
        ensures
            final(self).stepped_from(*old(self), key),
            state == (if Self::takes(key) {
                EventState::Consumed
            } else {
                EventState::NotConsumed
            }),
    {
        QueryInputComponents::event(self, key)
    }

    fn conceal(&mut self) {
    }

    fn show(&mut self) {
    }
}

} // verus!
