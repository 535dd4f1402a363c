use vstd::prelude::*;
use vstd::string::*;

verus! {

/// One key press, as the terminal reports it.
#[derive(Debug, Clone, Copy, PartialEq, Eq, Structural)]
pub enum Key {
    Enter,
    Tab,
    Backspace,
    Esc,
    Left,
    Right,
    Up,
    Down,
    Ins,
    Delete,
    Home,
    End,
    PageUp,
    PageDown,
    Char(char),
    Ctrl(char),
    Alt(char),
    Unknown,
}

/// How a character reads inside a key's label: the space is spelt out.
pub open spec fn char_label(c: char) -> Seq<char> {
    if c == ' ' {
        "Space"@
    } else {
        seq![c]
    }
}

/// The label under which a key is shown in help texts.
pub open spec fn key_label(key: Key) -> Seq<char> {
    match key {
        Key::Enter => "<Enter>"@,
        Key::Tab => "<Tab>"@,
        Key::Backspace => "<Backspace>"@,
        Key::Esc => "<Esc>"@,
        Key::Left => "<Left Arrow Key>"@,
        Key::Right => "<Right Arrow Key>"@,
        Key::Up => "<Up Arrow Key>"@,
        Key::Down => "<Down Arrow Key>"@,
        Key::Ins => "<Ins>"@,
        Key::Delete => "<Delete>"@,
        Key::Home => "<Home>"@,
        Key::End => "<End>"@,
        Key::PageUp => "<PageUp>"@,
        Key::PageDown => "<PageDown>"@,
        Key::Char(c) => if c == ' ' {
            "<Space>"@
        } else {
            seq![c]
        },
        Key::Ctrl(c) => "<Ctrl+"@ + char_label(c) + ">"@,
        Key::Alt(c) => "<Alt+"@ + char_label(c) + ">"@,
        Key::Unknown => "Unknown"@,
    }
}

fn push_char_label(out: &mut String, c: char)
    ensures
        final(out)@ == old(out)@ + char_label(c),
{
    if c == ' ' {
        out.append("Space");
    } else {
        out.push(c);
        assert(out@ =~= old(out)@ + char_label(c));
    }
}

impl Key {
    /// The label of this key.
    pub fn label(&self) -> (out: String)
        ensures
            out@ == key_label(*self),
    {
        match *self {
            Key::Enter => String::from_str("<Enter>"),
            Key::Tab => String::from_str("<Tab>"),
            Key::Backspace => String::from_str("<Backspace>"),
            Key::Esc => String::from_str("<Esc>"),
            Key::Left => String::from_str("<Left Arrow Key>"),
            Key::Right => String::from_str("<Right Arrow Key>"),
            Key::Up => String::from_str("<Up Arrow Key>"),
            Key::Down => String::from_str("<Down Arrow Key>"),
            Key::Ins => String::from_str("<Ins>"),
            Key::Delete => String::from_str("<Delete>"),
            Key::Home => String::from_str("<Home>"),
            Key::End => String::from_str("<End>"),
            Key::PageUp => String::from_str("<PageUp>"),
            Key::PageDown => String::from_str("<PageDown>"),
            Key::Char(c) => {
                if c == ' ' {
                    String::from_str("<Space>")
                } else {
                    let mut out = String::new();
                    out.push(c);
                    assert(out@ =~= seq![c]);
                    out
                }
            },
            Key::Ctrl(c) => {
                let mut out = String::from_str("<Ctrl+");
                push_char_label(&mut out, c);
                out.append(">");
                out
            },
            Key::Alt(c) => {
                let mut out = String::from_str("<Alt+");
                push_char_label(&mut out, c);
                out.append(">");
                out
            },
            Key::Unknown => String::from_str("Unknown"),
        }
    }
}

} // verus!
