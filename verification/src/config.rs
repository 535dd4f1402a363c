use crate::event::Key;
use vstd::prelude::*;

verus! {

/// The keys that the views are bound to.
#[derive(Debug, Clone, Copy, PartialEq, Eq, Structural)]
pub struct KeyConfig {
    pub scroll_up: Key,
    pub scroll_down: Key,
    pub scroll_right: Key,
    pub scroll_left: Key,
    pub scroll_down_multiple_lines: Key,
    pub scroll_up_multiple_lines: Key,
    pub scroll_to_top: Key,
    pub scroll_to_bottom: Key,
    pub filter: Key,
    pub focus_right: Key,
    pub focus_left: Key,
    pub extend_or_shorten_widget_width_to_right: Key,
    pub extend_or_shorten_widget_width_to_left: Key,
    pub tab_records: Key,
    pub tab_properties: Key,
    pub tab_sql_editor: Key,
    pub open_help: Key,
    pub exit_popup: Key,
    pub quit: Key,
    pub exit: Key,
}

/// The bindings that a session starts with.
pub open spec fn default_keys() -> KeyConfig {
    KeyConfig {
        scroll_up: Key::Char('k'),
        scroll_down: Key::Char('j'),
        scroll_right: Key::Char('l'),
        scroll_left: Key::Char('h'),
        scroll_down_multiple_lines: Key::Ctrl('d'),
        scroll_up_multiple_lines: Key::Ctrl('u'),
        scroll_to_top: Key::Char('g'),
        scroll_to_bottom: Key::Char('G'),
        filter: Key::Char('/'),
        focus_right: Key::Right,
        focus_left: Key::Left,
        extend_or_shorten_widget_width_to_right: Key::Char('>'),
        extend_or_shorten_widget_width_to_left: Key::Char('<'),
        tab_records: Key::Char('1'),
        tab_properties: Key::Char('4'),
        tab_sql_editor: Key::Char('2'),
        open_help: Key::Char('?'),
        exit_popup: Key::Esc,
        quit: Key::Char('q'),
        exit: Key::Ctrl('c'),
    }
}

impl Default for KeyConfig {
    fn default() -> (config: KeyConfig)
        ensures
            config == default_keys(),
    {
        KeyConfig {
            scroll_up: Key::Char('k'),
            scroll_down: Key::Char('j'),
            scroll_right: Key::Char('l'),
            scroll_left: Key::Char('h'),
            scroll_down_multiple_lines: Key::Ctrl('d'),
            scroll_up_multiple_lines: Key::Ctrl('u'),
            scroll_to_top: Key::Char('g'),
            scroll_to_bottom: Key::Char('G'),
            filter: Key::Char('/'),
            focus_right: Key::Right,
            focus_left: Key::Left,
            extend_or_shorten_widget_width_to_right: Key::Char('>'),
            extend_or_shorten_widget_width_to_left: Key::Char('<'),
            tab_records: Key::Char('1'),
            tab_properties: Key::Char('4'),
            tab_sql_editor: Key::Char('2'),
            open_help: Key::Char('?'),
            exit_popup: Key::Esc,
            quit: Key::Char('q'),
            exit: Key::Ctrl('c'),
        }
    }
}

} // verus!
