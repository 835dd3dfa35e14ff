//! Keyboard shortcuts and what the Edit menu asks of the text area.
use vstd::prelude::*;

verus! {

/// The keys that the editor gives a meaning to; every other key is `Other`.
#[derive(Clone, Copy, Debug, PartialEq, Eq, Structural)]
pub enum Key {
    A,
    C,
    N,
    O,
    S,
    V,
    X,
    Y,
    Z,
    Delete,
    Equals,
    Plus,
    Minus,
    Escape,
    Other,
}

/// The modifier keys that the editor looks at. `command` is the platform's
/// command key: Cmd on macOS, Ctrl elsewhere.
#[derive(Clone, Copy, Debug, PartialEq, Eq, Structural)]
pub struct Modifiers {
    pub ctrl: bool,
    pub shift: bool,
    pub command: bool,
}

/// A key going down or up, with the modifiers held at the time.
#[derive(Clone, Copy, Debug, PartialEq, Eq, Structural)]
pub struct KeyEvent {
    pub key: Key,
    pub pressed: bool,
    pub modifiers: Modifiers,
}

/// The editor commands that a keyboard shortcut can run.
#[derive(Clone, Copy, Debug, PartialEq, Eq, Structural)]
pub enum Command {
    NewFile,
    OpenFile,
    SaveFile,
    SaveFileAs,
    IncreaseFontSize,
    DecreaseFontSize,
    CloseAbout,
}

/// A recognised shortcut: the command to run, and the modifiers and key of
/// the key press to take out of the input so that the text area does not
/// see it as well.
#[derive(Clone, Copy, Debug, PartialEq, Eq, Structural)]
pub struct Shortcut {
    pub command: Command,
    pub consume_modifiers: Modifiers,
    pub consume_key: Key,
}

/// The items of the Edit menu.
#[derive(Clone, Copy, Debug, PartialEq, Eq, Structural)]
pub enum EditAction {
    Undo,
    Redo,
    Cut,
    Copy,
    Paste,
    Delete,
    SelectAll,
}

/// What the Edit menu asks of the text area: a clipboard request of the
/// window (cut, copy or paste), or a key press that the text area acts on.
#[derive(Clone, Copy, Debug, PartialEq, Eq, Structural)]
pub enum EditRequest {
    Cut,
    Copy,
    Paste,
    Press(KeyEvent),
}

/// Ctrl alone.
pub open spec fn ctrl() -> Modifiers {
    Modifiers { ctrl: true, shift: false, command: false }
}

/// Ctrl and Shift together.
pub open spec fn ctrl_shift() -> Modifiers {
    Modifiers { ctrl: true, shift: true, command: false }
}

/// The command key alone.
pub open spec fn command_key() -> Modifiers {
    Modifiers { ctrl: false, shift: false, command: true }
}

/// No modifier.
pub open spec fn no_modifiers() -> Modifiers {
    Modifiers { ctrl: false, shift: false, command: false }
}

/// The shortcut that `event` stands for, if any: Ctrl+N new file, Ctrl+O
/// open, Ctrl+Shift+S save as, Ctrl+S save, Ctrl++ or Ctrl+= larger font,
/// Ctrl+- smaller font, and, while the About window is open, Escape to
/// close it. Only key presses count, not releases.
pub open spec fn spec_shortcut(event: KeyEvent, about_open: bool) -> Option<Shortcut> {
    if !event.pressed {
        None
    } else if event.key == Key::Escape {
        if about_open {
            Some(
                Shortcut {
                    command: Command::CloseAbout,
                    consume_modifiers: event.modifiers,
                    consume_key: Key::Escape,
                },
            )
        } else {
            None
        }
    } else if !event.modifiers.ctrl {
        None
    } else {
        match event.key {
            Key::N => Some(
                Shortcut { command: Command::NewFile, consume_modifiers: ctrl(), consume_key: Key::N },
            ),
            Key::O => Some(
                Shortcut {
                    command: Command::OpenFile,
                    consume_modifiers: ctrl(),
                    consume_key: Key::O,
                },
            ),
            Key::S => if event.modifiers.shift {
                Some(
                    Shortcut {
                        command: Command::SaveFileAs,
                        consume_modifiers: ctrl_shift(),
                        consume_key: Key::S,
                    },
                )
            } else {
                Some(
                    Shortcut {
                        command: Command::SaveFile,
                        consume_modifiers: ctrl(),
                        consume_key: Key::S,
                    },
                )
            },
            Key::Plus => Some(
                Shortcut {
                    command: Command::IncreaseFontSize,
                    consume_modifiers: ctrl(),
                    consume_key: Key::Plus,
                },
            ),
            Key::Equals => Some(
                Shortcut {
                    command: Command::IncreaseFontSize,
                    consume_modifiers: ctrl(),
                    consume_key: Key::Equals,
                },
            ),
            Key::Minus => Some(
                Shortcut {
                    command: Command::DecreaseFontSize,
                    consume_modifiers: ctrl(),
                    consume_key: Key::Minus,
                },
            ),
            _ => None,
        }
    }
}

/// The shortcuts in `events`, in the order of the events.
pub open spec fn spec_shortcuts(events: Seq<KeyEvent>, about_open: bool) -> Seq<Shortcut>
    decreases events.len(),
{
    if events.len() == 0 {
        Seq::empty()
    } else {
        let before = spec_shortcuts(events.drop_last(), about_open);
        match spec_shortcut(events.last(), about_open) {
            Some(s) => before.push(s),
            None => before,
        }
    }
}

/// What the Edit menu item `action` asks of the text area: cut, copy and
/// paste go through the window's clipboard requests; undo is Cmd+Z, redo
/// Cmd+Y, select all Cmd+A (Cmd being Ctrl outside macOS), and delete the
/// Delete key.
pub open spec fn spec_edit_request(action: EditAction) -> EditRequest {
    match action {
        EditAction::Undo => EditRequest::Press(
            KeyEvent { key: Key::Z, pressed: true, modifiers: command_key() },
        ),
        EditAction::Redo => EditRequest::Press(
            KeyEvent { key: Key::Y, pressed: true, modifiers: command_key() },
        ),
        EditAction::Cut => EditRequest::Cut,
        EditAction::Copy => EditRequest::Copy,
        EditAction::Paste => EditRequest::Paste,
        EditAction::Delete => EditRequest::Press(
            KeyEvent { key: Key::Delete, pressed: true, modifiers: no_modifiers() },
        ),
        EditAction::SelectAll => EditRequest::Press(
            KeyEvent { key: Key::A, pressed: true, modifiers: command_key() },
        ),
    }
}

/// The shortcut that `event` stands for, if any, with the About window open
/// or not.
pub fn shortcut_for(event: &KeyEvent, about_open: bool) -> (shortcut: Option<Shortcut>)
    ensures
        shortcut == spec_shortcut(*event, about_open),
{
    if !event.pressed {
        return None;
    }
    if event.key == Key::Escape {
        if about_open {
            return Some(
                Shortcut {
                    command: Command::CloseAbout,
                    consume_modifiers: event.modifiers,
                    consume_key: Key::Escape,
                },
            );
        }
        return None;
    }
    if !event.modifiers.ctrl {
        return None;
    }
    let ctrl = Modifiers { ctrl: true, shift: false, command: false };
    match event.key {
        Key::N => Some(Shortcut { command: Command::NewFile, consume_modifiers: ctrl, consume_key: Key::N }),
        Key::O => Some(Shortcut { command: Command::OpenFile, consume_modifiers: ctrl, consume_key: Key::O }),
        Key::S => {
            if event.modifiers.shift {
                Some(
                    Shortcut {
                        command: Command::SaveFileAs,
                        consume_modifiers: Modifiers { ctrl: true, shift: true, command: false },
                        consume_key: Key::S,
                    },
                )
            } else {
                Some(Shortcut { command: Command::SaveFile, consume_modifiers: ctrl, consume_key: Key::S })
            }
        },
        Key::Plus => Some(
            Shortcut {
                command: Command::IncreaseFontSize,
                consume_modifiers: ctrl,
                consume_key: Key::Plus,
            },
        ),
        Key::Equals => Some(
            Shortcut {
                command: Command::IncreaseFontSize,
                consume_modifiers: ctrl,
                consume_key: Key::Equals,
            },
        ),
        Key::Minus => Some(
            Shortcut {
                command: Command::DecreaseFontSize,
                consume_modifiers: ctrl,
                consume_key: Key::Minus,
            },
        ),
        _ => None,
    }
}

/// The shortcuts among the key events of one frame, in order. The caller
/// runs each command in turn and then takes every listed key press out of
/// the input.
pub fn handle_keyboard_shortcuts(events: &Vec<KeyEvent>, about_open: bool) -> (shortcuts: Vec<
    Shortcut,
>)
    ensures
        shortcuts@ == spec_shortcuts(events@, about_open),
{
    let mut shortcuts: Vec<Shortcut> = Vec::new();
    let n = events.len();
    let mut i: usize = 0;
    while i < n
        invariant
            n == events@.len(),
            i <= n,
            shortcuts@ == spec_shortcuts(events@.take(i as int), about_open),
        decreases n - i,
    {
        assert(events@.take(i + 1).drop_last() =~= events@.take(i as int));
        match shortcut_for(&events[i], about_open) {
            Some(s) => shortcuts.push(s),
            None => {},
        }
        i = i + 1;
    }
    assert(events@.take(n as int) =~= events@);
    shortcuts
}

/// What the Edit menu item `action` asks of the text area.
pub fn edit_request(action: EditAction) -> (request: EditRequest)
    ensures
        request == spec_edit_request(action),
{
    let command = Modifiers { ctrl: false, shift: false, command: true };
    match action {
        EditAction::Undo => EditRequest::Press(KeyEvent { key: Key::Z, pressed: true, modifiers: command }),
        EditAction::Redo => EditRequest::Press(KeyEvent { key: Key::Y, pressed: true, modifiers: command }),
        EditAction::Cut => EditRequest::Cut,
        EditAction::Copy => EditRequest::Copy,
        EditAction::Paste => EditRequest::Paste,
        EditAction::Delete => EditRequest::Press(
            KeyEvent {
                key: Key::Delete,
                pressed: true,
                modifiers: Modifiers { ctrl: false, shift: false, command: false },
            },
        ),
        EditAction::SelectAll => EditRequest::Press(
            KeyEvent { key: Key::A, pressed: true, modifiers: command },
        ),
    }
}

} // verus!
