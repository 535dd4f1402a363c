use crate::config::KeyConfig;
use crate::event::{key_label, Key};
use vstd::prelude::*;
use vstd::string::*;

verus! {

/// The group of the commands that every view has.
pub open spec fn general_group() -> Seq<char> {
    "-- General --"@
}

/// The group of the commands of the record lists.
pub open spec fn databases_group() -> Seq<char> {
    "-- Databases --"@
}

/// One line of the help: what a command does and the keys it is bound to,
/// under the heading of its group.
#[derive(Debug)]
pub struct CommandText {
    pub name: String,
    pub group: &'static str,
    pub hide_help: bool,
}

impl CommandText {
    pub fn new(name: String, group: &'static str) -> (text: CommandText)
        ensures
            text.name == name,
            text.group == group,
            !text.hide_help,
    {
        CommandText { name, group, hide_help: false }
    }
}

impl Clone for CommandText {
    fn clone(&self) -> (copy: CommandText)
        ensures
            copy == *self,
    {
        CommandText { name: self.name.clone(), group: self.group, hide_help: self.hide_help }
    }
}

/// A command as the help lists it.
#[derive(Debug)]
pub struct CommandInfo {
    pub text: CommandText,
}

impl CommandInfo {
    pub fn new(text: CommandText) -> (info: CommandInfo)
        ensures
            info.text == text,
    {
        CommandInfo { text }
    }
}

impl Clone for CommandInfo {
    fn clone(&self) -> (copy: CommandInfo)
        ensures
            copy == *self,
    {
        CommandInfo { text: self.text.clone() }
    }
}

/// A title followed by one key in square brackets.
pub open spec fn titled_key(title: Seq<char>, key: Key) -> Seq<char> {
    title + " ["@ + key_label(key) + "]"@
}

/// A title followed by two keys in square brackets, with a comma between.
pub open spec fn titled_keys(title: Seq<char>, first: Key, second: Key) -> Seq<char> {
    title + " ["@ + key_label(first) + ","@ + key_label(second) + "]"@
}

fn name_with_key(title: &str, key: &Key) -> (out: String)
    ensures
        out@ == titled_key(title@, *key),
{
    let mut out = String::from_str(title);
    out.append(" [");
    out.append(key.label().as_str());
    out.append("]");
    out
}

fn name_with_keys(title: &str, first: &Key, second: &Key) -> (out: String)
    ensures
        out@ == titled_keys(title@, *first, *second),
{
    let mut out = String::from_str(title);
    out.append(" [");
    out.append(first.label().as_str());
    out.append(",");
    out.append(second.label().as_str());
    out.append("]");
    out
}

pub fn scroll_up_down_multiple_lines(key: &KeyConfig) -> (text: CommandText)
    ensures
        text.name@ == titled_keys(
            "Scroll up/down multiple lines"@,
            key.scroll_up_multiple_lines,
            key.scroll_down_multiple_lines,
        ),
        text.group@ == general_group(),
        !text.hide_help,
{
    CommandText::new(
        name_with_keys(
            "Scroll up/down multiple lines",
            &key.scroll_up_multiple_lines,
            &key.scroll_down_multiple_lines,
        ),
        "-- General --",
    )
}

pub fn scroll_to_top_bottom(key: &KeyConfig) -> (text: CommandText)
    ensures
        text.name@ == titled_keys(
            "Scroll to top/bottom"@,
            key.scroll_to_top,
            key.scroll_to_bottom,
        ),
        text.group@ == general_group(),
        !text.hide_help,
{
    CommandText::new(
        name_with_keys("Scroll to top/bottom", &key.scroll_to_top, &key.scroll_to_bottom),
        "-- General --",
    )
}

pub fn expand_collapse(key: &KeyConfig) -> (text: CommandText)
    ensures
        text.name@ == titled_keys("Expand/Collapse"@, key.scroll_right, key.scroll_left),
        text.group@ == databases_group(),
        !text.hide_help,
{
    CommandText::new(
        name_with_keys("Expand/Collapse", &key.scroll_right, &key.scroll_left),
        "-- Databases --",
    )
}

pub fn filter(key: &KeyConfig) -> (text: CommandText)
    ensures
        text.name@ == titled_key("Filter"@, key.filter),
        text.group@ == general_group(),
        !text.hide_help,
{
    CommandText::new(name_with_key("Filter", &key.filter), "-- General --")
}

pub fn move_focus(key: &KeyConfig) -> (text: CommandText)
    ensures
        text.name@ == titled_keys("Move focus to left/right"@, key.focus_left, key.focus_right),
        text.group@ == general_group(),
        !text.hide_help,
{
    CommandText::new(
        name_with_keys("Move focus to left/right", &key.focus_left, &key.focus_right),
        "-- General --",
    )
}

pub fn extend_or_shorten_widget_width(key: &KeyConfig) -> (text: CommandText)
    ensures
        text.name@ == titled_keys(
            "Extend/shorten widget width to left/right"@,
            key.extend_or_shorten_widget_width_to_left,
            key.extend_or_shorten_widget_width_to_right,
        ),
        text.group@ == general_group(),
        !text.hide_help,
{
    CommandText::new(
        name_with_keys(
            "Extend/shorten widget width to left/right",
            &key.extend_or_shorten_widget_width_to_left,
            &key.extend_or_shorten_widget_width_to_right,
        ),
        "-- General --",
    )
}

pub fn toggle_tabs(key_config: &KeyConfig) -> (text: CommandText)
    ensures
        text.name@ == toggle_tabs_name(*key_config),
        text.group@ == general_group(),
        !text.hide_help,
{
    let mut name = String::from_str("Tab [");
    name.append(key_config.tab_records.label().as_str());
    name.append(",");
    name.append(key_config.tab_properties.label().as_str());
    name.append(",");
    name.append(key_config.tab_sql_editor.label().as_str());
    name.append("]");
    CommandText::new(name, "-- General --")
}

pub fn help(key_config: &KeyConfig) -> (text: CommandText)
    ensures
        text.name@ == titled_key("Help"@, key_config.open_help),
        text.group@ == general_group(),
        !text.hide_help,
{
    CommandText::new(name_with_key("Help", &key_config.open_help), "-- General --")
}

pub fn exit_pop_up(key_config: &KeyConfig) -> (text: CommandText)
    ensures
        text.name@ == titled_key("Exit pop up"@, key_config.exit_popup),
        text.group@ == general_group(),
        !text.hide_help,
{
    CommandText::new(name_with_key("Exit pop up", &key_config.exit_popup), "-- General --")
}

/// The name of the help line for the keys that switch the tab.
pub open spec fn toggle_tabs_name(key_config: KeyConfig) -> Seq<char> {
    "Tab ["@ + key_label(key_config.tab_records) + ","@ + key_label(key_config.tab_properties)
        + ","@ + key_label(key_config.tab_sql_editor) + "]"@
}

/// The name of the help line of a table of records.
pub open spec fn expand_collapse_name(key: KeyConfig) -> Seq<char> {
    titled_keys("Expand/Collapse"@, key.scroll_right, key.scroll_left)
}

/// The names of the help lines that every view has, in the order in which
/// the help lists them.
pub open spec fn general_names(key: KeyConfig) -> Seq<Seq<char>> {
    seq![
        titled_key("Exit pop up"@, key.exit_popup),
        titled_key("Filter"@, key.filter),
        titled_key("Help"@, key.open_help),
        toggle_tabs_name(key),
        titled_keys("Scroll to top/bottom"@, key.scroll_to_top, key.scroll_to_bottom),
        titled_keys(
            "Scroll up/down multiple lines"@,
            key.scroll_up_multiple_lines,
            key.scroll_down_multiple_lines,
        ),
        titled_keys("Move focus to left/right"@, key.focus_left, key.focus_right),
        titled_keys(
            "Extend/shorten widget width to left/right"@,
            key.extend_or_shorten_widget_width_to_left,
            key.extend_or_shorten_widget_width_to_right,
        ),
    ]
}

} // verus!
