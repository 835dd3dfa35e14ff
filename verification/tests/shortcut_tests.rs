use noterust::shortcuts::{
    edit_request, handle_keyboard_shortcuts, shortcut_for, Command, EditAction, EditRequest, Key,
    KeyEvent, Modifiers, Shortcut,
};

fn press(key: Key, ctrl: bool, shift: bool) -> KeyEvent {
    KeyEvent { key, pressed: true, modifiers: Modifiers { ctrl, shift, command: ctrl } }
}

const CTRL: Modifiers = Modifiers { ctrl: true, shift: false, command: false };
const CTRL_SHIFT: Modifiers = Modifiers { ctrl: true, shift: true, command: false };
const COMMAND: Modifiers = Modifiers { ctrl: false, shift: false, command: true };
const NONE: Modifiers = Modifiers { ctrl: false, shift: false, command: false };

#[test]
fn ctrl_shortcuts_map_to_commands() {
    let cases = [
        (Key::N, Command::NewFile),
        (Key::O, Command::OpenFile),
        (Key::S, Command::SaveFile),
        (Key::Equals, Command::IncreaseFontSize),
        (Key::Plus, Command::IncreaseFontSize),
        (Key::Minus, Command::DecreaseFontSize),
    ];
    for (key, command) in cases.iter() {
        assert_eq!(
            shortcut_for(&press(*key, true, false), false),
            Some(Shortcut { command: *command, consume_modifiers: CTRL, consume_key: *key })
        );
    }
}

#[test]
fn ctrl_shift_s_is_save_as() {
    assert_eq!(
        shortcut_for(&press(Key::S, true, true), false),
        Some(Shortcut {
            command: Command::SaveFileAs,
            consume_modifiers: CTRL_SHIFT,
            consume_key: Key::S
        })
    );
}

#[test]
fn shift_does_not_matter_except_for_save() {
    assert_eq!(shortcut_for(&press(Key::N, true, true), false).map(|s| s.command), Some(Command::NewFile));
}

#[test]
fn no_shortcut_without_ctrl_or_on_release() {
    assert_eq!(shortcut_for(&press(Key::S, false, false), false), None);
    assert_eq!(shortcut_for(&press(Key::N, false, true), false), None);
    let release = KeyEvent { key: Key::S, pressed: false, modifiers: CTRL };
    assert_eq!(shortcut_for(&release, false), None);
    assert_eq!(shortcut_for(&press(Key::Other, true, false), false), None);
    assert_eq!(shortcut_for(&press(Key::Z, true, false), false), None);
}

#[test]
fn shortcuts_come_out_in_event_order() {
    let events = vec![
        press(Key::O, true, false),
        press(Key::Other, false, false),
        KeyEvent { key: Key::N, pressed: false, modifiers: CTRL },
        press(Key::S, true, true),
        press(Key::Equals, true, false),
        press(Key::Minus, false, false),
        press(Key::N, true, false),
    ];
    let commands: Vec<Command> =
        handle_keyboard_shortcuts(&events, false).iter().map(|s| s.command).collect();
    assert_eq!(
        commands,
        vec![Command::OpenFile, Command::SaveFileAs, Command::IncreaseFontSize, Command::NewFile]
    );
    assert!(handle_keyboard_shortcuts(&Vec::new(), false).is_empty());
}

#[test]
fn edit_menu_asks_for_what_the_text_area_acts_on() {
    assert_eq!(edit_request(EditAction::Cut), EditRequest::Cut);
    assert_eq!(edit_request(EditAction::Copy), EditRequest::Copy);
    assert_eq!(edit_request(EditAction::Paste), EditRequest::Paste);
    let presses = [
        (EditAction::Undo, Key::Z, COMMAND),
        (EditAction::Redo, Key::Y, COMMAND),
        (EditAction::Delete, Key::Delete, NONE),
        (EditAction::SelectAll, Key::A, COMMAND),
    ];
    for (action, key, modifiers) in presses.iter() {
        let event = KeyEvent { key: *key, pressed: true, modifiers: *modifiers };
        assert_eq!(edit_request(*action), EditRequest::Press(event));
        assert_eq!(shortcut_for(&event, false), None);
        assert_eq!(shortcut_for(&event, true), None);
    }
}

#[test]
fn ctrl_plus_increases_the_font_and_is_consumed() {
    let event = KeyEvent {
        key: Key::Plus,
        pressed: true,
        modifiers: Modifiers { ctrl: true, shift: true, command: true },
    };
    assert_eq!(
        shortcut_for(&event, false),
        Some(Shortcut {
            command: Command::IncreaseFontSize,
            consume_modifiers: CTRL,
            consume_key: Key::Plus
        })
    );
    assert_eq!(shortcut_for(&press(Key::Plus, false, true), false), None);
}

#[test]
fn escape_closes_the_about_window_only_when_open() {
    let escape = press(Key::Escape, false, false);
    assert_eq!(shortcut_for(&escape, false), None);
    assert_eq!(
        shortcut_for(&escape, true),
        Some(Shortcut { command: Command::CloseAbout, consume_modifiers: NONE, consume_key: Key::Escape })
    );
    let release = KeyEvent { key: Key::Escape, pressed: false, modifiers: NONE };
    assert_eq!(shortcut_for(&release, true), None);
}

#[test]
fn shortcuts_of_joined_runs_are_joined() {
    let first = vec![press(Key::S, true, false), press(Key::A, false, false)];
    let second = vec![press(Key::Minus, true, false), press(Key::O, true, true)];
    let mut both = first.clone();
    both.extend(second.iter().copied());
    let mut expected = handle_keyboard_shortcuts(&first, false);
    expected.extend(handle_keyboard_shortcuts(&second, false));
    assert_eq!(handle_keyboard_shortcuts(&both, false), expected);
    assert_eq!(expected.len(), 3);
}
