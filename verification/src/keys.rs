use vstd::prelude::*;

use crate::text::{
    ascii_capital, decimal, is_ascii_lower, is_ascii_upper, push_decimal, uppercase_of,
    uppercase_string,
};

verus! {

/// A key of the keyboard, as the terminal reports it.
#[derive(Debug, Clone, Copy, PartialEq, Eq, Structural)]
pub enum KeyCode {
    Char(char),
    F(u8),
    Backspace,
    Enter,
    Left,
    Right,
    Up,
    Down,
    Home,
    End,
    PageUp,
    PageDown,
    Tab,
    BackTab,
    Delete,
    Insert,
    Esc,
    /// Any other key (media keys, lone modifiers, lock keys, ...).
    Other,
}

/// Which modifier keys are held.
#[derive(Debug, Clone, Copy, PartialEq, Eq, Structural)]
pub struct KeyModifiers {
    pub control: bool,
    pub shift: bool,
    pub alt: bool,
}

/// A key press.
#[derive(Debug, Clone, Copy, PartialEq, Eq, Structural)]
pub struct KeyEvent {
    pub code: KeyCode,
    pub modifiers: KeyModifiers,
}

/// The name under which a key appears in a shortcut, or `None` for keys that
/// shortcuts do not name. A character key is named by its uppercase form: the
/// ASCII capital for an ASCII letter.
pub open spec fn key_name(code: KeyCode) -> Option<Seq<char>> {
    match code {
        KeyCode::Char(c) => Some(
            if is_ascii_lower(c) || is_ascii_upper(c) {
                seq![ascii_capital(c)]
            } else {
                uppercase_of(c)
            },
        ),
        KeyCode::F(n) => Some("F"@ + decimal(n as nat)),
        KeyCode::Backspace => Some("Backspace"@),
        KeyCode::Enter => Some("Enter"@),
        KeyCode::Left => Some("Left"@),
        KeyCode::Right => Some("Right"@),
        KeyCode::Up => Some("Up"@),
        KeyCode::Down => Some("Down"@),
        KeyCode::Home => Some("Home"@),
        KeyCode::End => Some("End"@),
        KeyCode::PageUp => Some("PageUp"@),
        KeyCode::PageDown => Some("PageDown"@),
        KeyCode::Tab => Some("Tab"@),
        KeyCode::BackTab => Some("BackTab"@),
        KeyCode::Delete => Some("Delete"@),
        KeyCode::Insert => Some("Insert"@),
        KeyCode::Esc => Some("Esc"@),
        KeyCode::Other => None,
    }
}

/// The names of the held modifiers, in the order Ctrl, Shift, Alt.
pub open spec fn modifier_names(m: KeyModifiers) -> Seq<Seq<char>> {
    (if m.control { seq!["Ctrl"@] } else { seq![] }) + (if m.shift { seq!["Shift"@] } else { seq![] })
        + (if m.alt { seq!["Alt"@] } else { seq![] })
}

/// `parts` written one after another with `sep` between each two.
pub open spec fn joined(parts: Seq<Seq<char>>, sep: Seq<char>) -> Seq<char>
    decreases parts.len(),
{
    if parts.len() == 0 {
        Seq::empty()
    } else if parts.len() == 1 {
        parts[0]
    } else {
        joined(parts.drop_last(), sep) + sep + parts.last()
    }
}

/// How a key press is written as a shortcut: the held modifiers and the key's
/// name joined by `+`, or `Unknown` for a key that shortcuts do not name.
pub open spec fn key_label(key: KeyEvent) -> Seq<char> {
    match key_name(key.code) {
        Some(name) => joined(modifier_names(key.modifiers).push(name), "+"@),
        None => "Unknown"@,
    }
}

fn key_name_text(code: KeyCode) -> (name: Option<String>)
    ensures
        match name {
            Some(s) => key_name(code) == Some(s@),
            None => key_name(code) is None,
        },
{
    match code {
        KeyCode::Char(c) => Some(uppercase_string(c)),
        KeyCode::F(n) => {
            let mut s = String::from_str("F");
            push_decimal(&mut s, n as usize);
            Some(s)
        },
        KeyCode::Backspace => Some(String::from_str("Backspace")),
        KeyCode::Enter => Some(String::from_str("Enter")),
        KeyCode::Left => Some(String::from_str("Left")),
        KeyCode::Right => Some(String::from_str("Right")),
        KeyCode::Up => Some(String::from_str("Up")),
        KeyCode::Down => Some(String::from_str("Down")),
        KeyCode::Home => Some(String::from_str("Home")),
        KeyCode::End => Some(String::from_str("End")),
        KeyCode::PageUp => Some(String::from_str("PageUp")),
        KeyCode::PageDown => Some(String::from_str("PageDown")),
        KeyCode::Tab => Some(String::from_str("Tab")),
        KeyCode::BackTab => Some(String::from_str("BackTab")),
        KeyCode::Delete => Some(String::from_str("Delete")),
        KeyCode::Insert => Some(String::from_str("Insert")),
        KeyCode::Esc => Some(String::from_str("Esc")),
        KeyCode::Other => None,
    }
}

/// `parts` joined by `sep`, as `[String]::join` writes them.
pub fn join_parts(parts: &Vec<String>, sep: &str) -> (text: String)
    ensures
        text@ == joined(parts@.map_values(|p: String| p@), sep@),
{
    let ghost views = parts@.map_values(|p: String| p@);
    let mut text = String::new();
    let mut i: usize = 0;
    while i < parts.len()
        invariant
            i <= parts@.len(),
            views == parts@.map_values(|p: String| p@),
            text@ == joined(views.subrange(0, i as int), sep@),
        decreases parts@.len() - i,
    {
        if i > 0 {
            text.append(sep);
        }
        text.append(parts[i].as_str());
        proof {
            let prefix = views.subrange(0, i + 1);
            assert(prefix.drop_last() =~= views.subrange(0, i as int));
            if i == 0 {
                assert(text@ =~= prefix[0]);
            } else {
                assert(text@ =~= joined(prefix.drop_last(), sep@) + sep@ + prefix.last());
            }
        }
        i = i + 1;
    }
    assert(views.subrange(0, parts@.len() as int) =~= views);
    text
}

/// Writes a key press as a shortcut: `Ctrl`, `Shift` and `Alt` for the held
/// modifiers, then the key's name, joined by `+` (`Ctrl+Shift+S`, `F5`);
/// `Unknown` for keys that shortcuts do not name.
pub fn format_key_event(key: &KeyEvent) -> (label: String)
    ensures
        label@ == key_label(*key),
{
    let mut parts: Vec<String> = Vec::new();
    if key.modifiers.control {
        parts.push(String::from_str("Ctrl"));
    }
    if key.modifiers.shift {
        parts.push(String::from_str("Shift"));
    }
    if key.modifiers.alt {
        parts.push(String::from_str("Alt"));
    }
    assert(parts@.map_values(|p: String| p@) =~= modifier_names(key.modifiers));
    match key_name_text(key.code) {
        Some(name) => {
            let ghost before = parts@;
            parts.push(name);
            assert(parts@.map_values(|p: String| p@) =~= before.map_values(|p: String| p@).push(
                name@,
            ));
            join_parts(&parts, "+")
        },
        None => String::from_str("Unknown"),
    }
}

} // verus!
