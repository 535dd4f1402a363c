use crate::components::command::{CommandInfo, CommandText};
use crate::components::{Component, EventState};
use crate::config::KeyConfig;
use crate::event::{key_label, Key};
use crate::utils::{content_of, expand_tabs, file_content, tabs_to_spaces, FileError};
use vstd::prelude::*;
use vstd::string::*;

verus! {

/// A direction in which the viewer can be asked to scroll.
#[derive(Debug, Clone, Copy, PartialEq, Eq, Structural)]
pub enum MoveSelection {
    Up,
    Down,
    Left,
    Right,
    Top,
    End,
    PageDown,
    PageUp,
}

/// The name of the help line for scrolling.
pub open spec fn scroll_name(key_config: KeyConfig) -> Seq<char> {
    "Scroll ["@ + key_label(key_config.scroll_up) + key_label(key_config.scroll_down) + "]"@
}

/// The help line for scrolling.
pub fn scroll(key_config: &KeyConfig) -> (text: CommandText)
    ensures
        text.name@ == scroll_name(*key_config),
        text.group@ == "scroll up or down in focused view"@,
        !text.hide_help,
{
    let mut name = String::from_str("Scroll [");
    name.append(key_config.scroll_up.label().as_str());
    name.append(key_config.scroll_down.label().as_str());
    name.append("]");
    CommandText::new(name, "scroll up or down in focused view")
}

/// Where the text stands in its window.
#[derive(Debug, Clone, Copy, PartialEq, Eq, Structural)]
pub struct ScrollPos {
    pub x: u16,
    pub y: u16,
}

/// What the last drawing of the text found: how many lines the text takes,
/// how high the window is, and where the text stands in it.
#[derive(Debug, Clone, Copy, PartialEq, Eq, Structural)]
pub struct ParagraphState {
    pub scroll: ScrollPos,
    pub lines: u16,
    pub height: u16,
}

/// The lines of a page: the height of the window without its two border
/// lines, and nothing where the window is lower than that.
pub open spec fn page_lines(height: int) -> int {
    if height >= 2 {
        height - 2
    } else {
        0
    }
}

/// The largest offset: the one that shows the last page of the text.
pub open spec fn max_offset(lines: int, height: int) -> int {
    if lines >= page_lines(height) {
        lines - page_lines(height)
    } else {
        0
    }
}

/// The offset into the range from 0 to the largest offset.
pub open spec fn clamp_offset(offset: int, lines: int, height: int) -> int {
    if offset < 0 {
        0
    } else if offset > max_offset(lines, height) {
        max_offset(lines, height)
    } else {
        offset
    }
}

/// The offset that a move asks for, before it is clamped.
pub open spec fn wanted_offset(nav: MoveSelection, offset: int, lines: int, height: int) -> int {
    match nav {
        MoveSelection::Down => offset + 1,
        MoveSelection::Up => offset - 1,
        MoveSelection::Top => 0,
        MoveSelection::End => max_offset(lines, height),
        MoveSelection::PageUp => offset - page_lines(height),
        MoveSelection::PageDown => offset + page_lines(height),
        MoveSelection::Left => offset,
        MoveSelection::Right => offset,
    }
}

/// The offset after a move.
pub open spec fn offset_after(nav: MoveSelection, state: ParagraphState) -> int {
    clamp_offset(
        wanted_offset(nav, state.scroll.y as int, state.lines as int, state.height as int),
        state.lines as int,
        state.height as int,
    )
}

/// The move that a key asks of the viewer. A key without a move of its own
/// asks for the top.
pub open spec fn move_of_key(key: Key) -> MoveSelection {
    match key {
        Key::Char('k') => MoveSelection::Up,
        Key::Up => MoveSelection::Up,
        Key::Char('j') => MoveSelection::Down,
        Key::Down => MoveSelection::Down,
        Key::Char('l') => MoveSelection::Left,
        Key::Left => MoveSelection::Left,
        Key::Char('h') => MoveSelection::Right,
        Key::Right => MoveSelection::Right,
        Key::PageDown => MoveSelection::PageDown,
        Key::Ctrl('f') => MoveSelection::PageDown,
        Key::PageUp => MoveSelection::PageUp,
        Key::Ctrl('b') => MoveSelection::PageUp,
        Key::End => MoveSelection::End,
        _ => MoveSelection::Top,
    }
}

impl ParagraphState {
    /// The state before anything was drawn.
    pub fn new() -> (state: ParagraphState)
        ensures
            state.scroll.x == 0,
            state.scroll.y == 0,
            state.lines == 0,
            state.height == 0,
    {
        ParagraphState { scroll: ScrollPos { x: 0, y: 0 }, lines: 0, height: 0 }
    }

    /// The largest offset for this text and window.
    pub fn max_scroll(&self) -> (max: u16)
        ensures
            max == max_offset(self.lines as int, self.height as int),
    {
        self.lines.saturating_sub(self.height.saturating_sub(2))
    }
}

/// The file viewer: the text of one file, or none, and where it is scrolled
/// to.
#[derive(Debug)]
pub struct SyntaxTextComponent {
    /// The path of the loaded file and its text.
    pub content: Option<(String, String)>,
    pub key_config: KeyConfig,
    pub visible: bool,
    pub paragraph_state: ParagraphState,
}

impl SyntaxTextComponent {
    /// A viewer with nothing loaded, hidden, at the top.
    pub fn new(key: KeyConfig) -> (viewer: SyntaxTextComponent)
        ensures
            viewer.content is None,
            viewer.key_config == key,
            !viewer.visible,
            viewer.paragraph_state.scroll.y == 0,
            viewer.paragraph_state.scroll.x == 0,
            viewer.paragraph_state.lines == 0,
            viewer.paragraph_state.height == 0,
    {
        SyntaxTextComponent {
            content: None,
            key_config: key,
            visible: false,
            paragraph_state: ParagraphState::new(),
        }
    }

    /// The current offset: the first line that is shown.
    pub fn offset(&self) -> (y: u16)
        ensures
            y == self.paragraph_state.scroll.y,
    {
        self.paragraph_state.scroll.y
    }

    /// Drops the loaded text and goes back to the top.
    pub fn clear(&mut self)
        ensures
            final(self).content is None,
            final(self).paragraph_state.scroll.y == 0,
            final(self).paragraph_state.scroll.x == 0,
            final(self).paragraph_state.lines == old(self).paragraph_state.lines,
            final(self).paragraph_state.height == old(self).paragraph_state.height,
            final(self).visible == old(self).visible,
            final(self).key_config == old(self).key_config,
    {
        self.content = None;
        self.paragraph_state.scroll = ScrollPos { x: 0, y: 0 };
    }

    /// What loading a file comes to. A file whose text can be read becomes
    /// the content, under its path and with two spaces for each tab; nothing
    /// else changes, the offset neither. A file that is missing or binary
    /// changes nothing.
    pub open spec fn loaded_from(
        self,
        before: Self,
        path: String,
        found: Option<Seq<u8>>,
        loaded: Result<(), FileError>,
    ) -> bool {
        match content_of(found) {
            Ok(text) => {
                &&& loaded is Ok
                &&& self.content matches Some((shown, body))
                &&& shown == path
                &&& body@ == expand_tabs(text)
                &&& self.paragraph_state == before.paragraph_state
                &&& self.visible == before.visible
                &&& self.key_config == before.key_config
            },
            Err(e) => loaded == Err::<(), FileError>(e) && self == before,
        }
    }

    /// Loads the file at `path` from what was found there: `None` where
    /// there is no file, else its bytes.
    pub fn load_file(&mut self, path: String, found: &Option<Vec<u8>>) -> (loaded: Result<
        (),
        FileError,
    >)
        ensures
            final(self).loaded_from(
                *old(self),
                path,
                match *found {
                    Some(bytes) => Some(bytes@),
                    None => None,
                },
                loaded,
            ),
    {
        match file_content(found) {
            Ok(text) => {
                let content = tabs_to_spaces(text);
                self.content = Some((path, content));
                Ok(())
            },
            Err(e) => Err(e),
        }
    }

    /// Records what a drawing found, the number of lines of the text and the
    /// height of the window, and brings the offset back into range.
    pub fn rendered(&mut self, lines: u16, height: u16)
        ensures
            final(self).paragraph_state.lines == lines,
            final(self).paragraph_state.height == height,
            final(self).paragraph_state.scroll.y == clamp_offset(
                old(self).paragraph_state.scroll.y as int,
                lines as int,
                height as int,
            ),
            final(self).content == old(self).content,
            final(self).visible == old(self).visible,
            final(self).key_config == old(self).key_config,
    {
        self.paragraph_state.lines = lines;
        self.paragraph_state.height = height;
        let y = self.paragraph_state.scroll.y;
        self.set_scroll(y);
    }

    /// Moves the text. Says whether the offset changed: a move that the
    /// clamping undoes is no move.
    pub fn scroll(&mut self, nav: MoveSelection) -> (moved: bool)
        ensures
            final(self).paragraph_state.scroll.y == offset_after(nav, old(self).paragraph_state),
            moved == (final(self).paragraph_state.scroll.y != old(self).paragraph_state.scroll.y),
            0 <= final(self).paragraph_state.scroll.y <= max_offset(
                old(self).paragraph_state.lines as int,
                old(self).paragraph_state.height as int,
            ),
            !moved ==> *final(self) == *old(self),
            final(self).paragraph_state.lines == old(self).paragraph_state.lines,
            final(self).paragraph_state.height == old(self).paragraph_state.height,
            final(self).content == old(self).content,
            final(self).visible == old(self).visible,
            final(self).key_config == old(self).key_config,
    {
        let state = self.paragraph_state;
        let page = state.height.saturating_sub(2);
        let new_scroll_pos = match nav {
            MoveSelection::Down => state.scroll.y.saturating_add(1),
            MoveSelection::Up => state.scroll.y.saturating_sub(1),
            MoveSelection::Top => 0,
            MoveSelection::End => state.lines.saturating_sub(page),
            MoveSelection::PageUp => state.scroll.y.saturating_sub(page),
            MoveSelection::PageDown => state.scroll.y.saturating_add(page),
            _ => state.scroll.y,
        };
        self.set_scroll(new_scroll_pos)
    }

    /// Sets the offset to `pos`, or to the largest offset where `pos` is
    /// beyond it. Says whether the offset changed.
    pub fn set_scroll(&mut self, pos: u16) -> (moved: bool)
        ensures
            final(self).paragraph_state.scroll.y == clamp_offset(
                pos as int,
                old(self).paragraph_state.lines as int,
                old(self).paragraph_state.height as int,
            ),
            moved == (final(self).paragraph_state.scroll.y != old(self).paragraph_state.scroll.y),
            !moved ==> *final(self) == *old(self),
            final(self).paragraph_state.lines == old(self).paragraph_state.lines,
            final(self).paragraph_state.height == old(self).paragraph_state.height,
            final(self).content == old(self).content,
            final(self).visible == old(self).visible,
            final(self).key_config == old(self).key_config,
    {
        let max = self.paragraph_state.max_scroll();
        let new_scroll_pos = if pos < max {
            pos
        } else {
            max
        };
        if new_scroll_pos == self.paragraph_state.scroll.y {
            return false;
        }
        self.paragraph_state.scroll = ScrollPos { x: 0, y: new_scroll_pos };
        true
    }

    /// Lists the viewer's command in the help.
    pub fn commands(&self, out: &mut Vec<CommandInfo>)
        ensures
            final(out)@.len() == old(out)@.len() + 1,
            final(out)@.take(old(out)@.len() as int) == old(out)@,
            final(out)@.last().text.name@ == scroll_name(self.key_config),
            !final(out)@.last().text.hide_help,
    {
        out.push(CommandInfo::new(scroll(&self.key_config)));
        assert(out@.take(old(out)@.len() as int) =~= old(out)@);
    }

    /// Scrolls as the key asks. The key is consumed when the text moved.
    pub fn event(&mut self, key: Key) -> (state: EventState)
        ensures
            final(self).paragraph_state.scroll.y == offset_after(
                move_of_key(key),
                old(self).paragraph_state,
            ),
            state == (if final(self).paragraph_state.scroll.y != old(
                self,
            ).paragraph_state.scroll.y {
                EventState::Consumed
            } else {
                EventState::NotConsumed
            }),
            state == EventState::NotConsumed ==> *final(self) == *old(self),
            final(self).paragraph_state.lines == old(self).paragraph_state.lines,
            final(self).paragraph_state.height == old(self).paragraph_state.height,
            final(self).content == old(self).content,
            final(self).visible == old(self).visible,
            final(self).key_config == old(self).key_config,
    {
        let nav = match key {
            Key::Char('k') | Key::Up => MoveSelection::Up,
            Key::Char('j') | Key::Down => MoveSelection::Down,
            Key::Char('l') | Key::Left => MoveSelection::Left,
            Key::Char('h') | Key::Right => MoveSelection::Right,
            Key::PageDown | Key::Ctrl('f') => MoveSelection::PageDown,
            Key::PageUp | Key::Ctrl('b') => MoveSelection::PageUp,
            Key::End => MoveSelection::End,
            _ => MoveSelection::Top,
        };
        if self.scroll(nav) {
            EventState::Consumed
        } else {
            EventState::NotConsumed
        }
    }

    pub fn conceal(&mut self)
        ensures
            !final(self).visible,
            final(self).content == old(self).content,
            final(self).paragraph_state == old(self).paragraph_state,
            final(self).key_config == old(self).key_config,
    {
        self.visible = false;
    }

    pub fn show(&mut self)
        ensures
            final(self).visible,
            final(self).content == old(self).content,
            final(self).paragraph_state == old(self).paragraph_state,
            final(self).key_config == old(self).key_config,
    {
        self.visible = true;
    }
}

/// `End` brings the offset to the largest offset: with a window of at least
/// two lines, to the number of lines less the height without its borders, or
/// to 0 where that is negative.
pub proof fn law_end_reaches_last_page(state: ParagraphState)
    ensures
        offset_after(MoveSelection::End, state) == max_offset(
            state.lines as int,
            state.height as int,
        ),
        state.height >= 2 ==> offset_after(MoveSelection::End, state) == (if state.lines - (
        state.height - 2) > 0 {
            state.lines - (state.height - 2)
        } else {
            0
        }),
{
}

/// A second `End` changes nothing.
pub proof fn law_end_is_idempotent(state: ParagraphState)
    ensures
        ({
            let once = ParagraphState {
                scroll: ScrollPos { x: 0, y: offset_after(MoveSelection::End, state) as u16 },
                ..state
            };
            offset_after(MoveSelection::End, once) == offset_after(MoveSelection::End, state)
        }),
{
}

/// No move leaves the offset outside the range from 0 to the largest offset.
pub proof fn law_offset_stays_in_range(nav: MoveSelection, state: ParagraphState)
    ensures
        0 <= offset_after(nav, state) <= max_offset(state.lines as int, state.height as int),
{
}

impl Component for SyntaxTextComponent {
    /// Closed, and otherwise as before.
    open spec fn concealed_from(&self, before: &Self) -> bool {
        &&& !self.visible
        &&& self.content == before.content
        &&& self.paragraph_state == before.paragraph_state
        &&& self.key_config == before.key_config
    }

    /// Open, and otherwise as before.
    open spec fn opened_from(&self, before: &Self) -> bool {
        &&& self.visible
        &&& self.content == before.content
        &&& self.paragraph_state == before.paragraph_state
        &&& self.key_config == before.key_config
    }

    fn commands(&self, out: &mut Vec<CommandInfo>)
        ensures
            final(out)@.len() == old(out)@.len() + 1,
            final(out)@.take(old(out)@.len() as int) == old(out)@,
            final(out)@.last().text.name@ == scroll_name(self.key_config),
    {
        SyntaxTextComponent::commands(self, out)
    }

    fn event(&mut self, key: Key) -> (state: EventState)
        ensures
            final(self).paragraph_state.scroll.y == offset_after(
                move_of_key(key),
                old(self).paragraph_state,
            ),
            state == (if final(self).paragraph_state.scroll.y != old(
                self,
            ).paragraph_state.scroll.y {
                EventState::Consumed
            } else {
                EventState::NotConsumed
            }),
            state == EventState::NotConsumed ==> *final(self) == *old(self),
    {
        SyntaxTextComponent::event(self, key)
    }

    fn conceal(&mut self) {
        SyntaxTextComponent::conceal(self)
    }

    fn show(&mut self) {
        SyntaxTextComponent::show(self)
    }
}

} // verus!
