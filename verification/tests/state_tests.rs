use noterust::path::PathStyle;
use noterust::shortcuts::{handle_keyboard_shortcuts, Command, Key, KeyEvent, Modifiers};
use noterust::state::{
    AppState, FileRequest, OpenOutcome, SaveAsOutcome, SavePlan, DEFAULT_FONT_SIZE,
    MAX_FONT_SIZE, MIN_FONT_SIZE,
};

fn state_with(text: &str, path: Option<&str>, dirty: bool) -> AppState {
    let mut s = AppState::default();
    s.text = text.to_string();
    s.file_path = path.map(|p| p.to_string());
    s.dirty = dirty;
    s
}

#[test]
fn default_state_is_empty_untitled_and_clean() {
    let s = AppState::default();
    assert_eq!(s.text, "");
    assert_eq!(s.file_path, None);
    assert!(!s.dirty);
    assert!(s.show_line_numbers);
    assert!(s.word_wrap);
    assert_eq!(s.font_size, 14);
    assert_eq!(DEFAULT_FONT_SIZE, 14);
    assert!(!s.show_about);
    assert_eq!(s.file_name(PathStyle::Unix), "Untitled");
    assert_eq!(s.window_title(PathStyle::Unix), "Untitled - NoteRust");
}

#[test]
fn new_file_forgets_document_and_keeps_settings() {
    let mut s = state_with("hello", Some("/tmp/a.txt"), true);
    s.show_line_numbers = false;
    s.word_wrap = false;
    s.font_size = 20;
    s.show_about = true;
    s.new_file();
    assert_eq!(s.text, "");
    assert_eq!(s.file_path, None);
    assert!(!s.dirty);
    assert!(!s.show_line_numbers);
    assert!(!s.word_wrap);
    assert_eq!(s.font_size, 20);
    assert!(s.show_about);
    assert_eq!(s.window_title(PathStyle::Unix), "Untitled - NoteRust");
}

#[test]
fn open_file_loads_content_and_path() {
    let mut s = state_with("old", None, true);
    let report = s.open_file(OpenOutcome::Loaded {
        path: "/home/me/notes.txt".to_string(),
        content: "line 1\nline 2".to_string(),
    });
    assert!(report.is_none());
    assert_eq!(s.text, "line 1\nline 2");
    assert_eq!(s.file_path.as_deref(), Some("/home/me/notes.txt"));
    assert!(!s.dirty);
    assert_eq!(s.file_name(PathStyle::Unix), "notes.txt");
    assert_eq!(s.window_title(PathStyle::Unix), "notes.txt - NoteRust");
}

#[test]
fn open_file_failure_keeps_state_and_reports() {
    let mut s = state_with("keep me", Some("/a/b.txt"), true);
    let report = s.open_file(OpenOutcome::Failed("permission denied".to_string()));
    assert_eq!(report.as_deref(), Some("Failed to open file: permission denied"));
    assert_eq!(s.text, "keep me");
    assert_eq!(s.file_path.as_deref(), Some("/a/b.txt"));
    assert!(s.dirty);
}

#[test]
fn open_file_cancelled_changes_nothing() {
    let mut s = state_with("keep me", None, true);
    let report = s.open_file(OpenOutcome::Cancelled);
    assert!(report.is_none());
    assert_eq!(s.text, "keep me");
    assert_eq!(s.file_path, None);
    assert!(s.dirty);
}

#[test]
fn save_file_writes_to_current_path() {
    let s = state_with("x", Some("/a/b.txt"), true);
    match s.save_file() {
        SavePlan::WriteTo(p) => assert_eq!(p, "/a/b.txt"),
        SavePlan::AskForPath => panic!("expected a write to the current file"),
    }
}

#[test]
fn save_file_without_path_asks_for_one() {
    let s = state_with("x", None, true);
    assert!(matches!(s.save_file(), SavePlan::AskForPath));
}

#[test]
fn finish_save_success_clears_dirty() {
    let mut s = state_with("x", Some("/a/b.txt"), true);
    assert_eq!(s.window_title(PathStyle::Unix), "* b.txt - NoteRust");
    let report = s.finish_save(Ok(()));
    assert!(report.is_none());
    assert!(!s.dirty);
    assert_eq!(s.file_path.as_deref(), Some("/a/b.txt"));
    assert_eq!(s.window_title(PathStyle::Unix), "b.txt - NoteRust");
}

#[test]
fn finish_save_failure_keeps_dirty_and_reports() {
    let mut s = state_with("x", Some("/a/b.txt"), true);
    let report = s.finish_save(Err("disk full".to_string()));
    assert_eq!(report.as_deref(), Some("Failed to save file: disk full"));
    assert!(s.dirty);
}

#[test]
fn save_file_as_sets_path_and_clears_dirty() {
    let mut s = state_with("x", None, true);
    let report = s.save_file_as(SaveAsOutcome::Written("/docs/report.md".to_string()));
    assert!(report.is_none());
    assert_eq!(s.file_path.as_deref(), Some("/docs/report.md"));
    assert!(!s.dirty);
    assert_eq!(s.window_title(PathStyle::Unix), "report.md - NoteRust");
    match s.save_file() {
        SavePlan::WriteTo(p) => assert_eq!(p, "/docs/report.md"),
        SavePlan::AskForPath => panic!("Save should now write to the saved-as file"),
    }
}

#[test]
fn save_file_as_failure_and_cancel_keep_state() {
    let mut s = state_with("x", Some("/a/b.txt"), true);
    let report = s.save_file_as(SaveAsOutcome::Failed("read-only".to_string()));
    assert_eq!(report.as_deref(), Some("Failed to save file: read-only"));
    assert_eq!(s.file_path.as_deref(), Some("/a/b.txt"));
    assert!(s.dirty);
    let report = s.save_file_as(SaveAsOutcome::Cancelled);
    assert!(report.is_none());
    assert_eq!(s.file_path.as_deref(), Some("/a/b.txt"));
    assert!(s.dirty);
}

#[test]
fn file_name_falls_back_to_untitled() {
    assert_eq!(state_with("", Some("/"), false).file_name(PathStyle::Unix), "Untitled");
    assert_eq!(state_with("", Some("/a/.."), false).file_name(PathStyle::Unix), "Untitled");
    assert_eq!(state_with("", Some(""), false).file_name(PathStyle::Unix), "Untitled");
    assert_eq!(state_with("", Some("/a/dir/"), false).file_name(PathStyle::Unix), "dir");
    assert_eq!(state_with("", Some("笔记.txt"), false).file_name(PathStyle::Unix), "笔记.txt");
}

#[test]
fn increase_font_size_steps_up_to_the_maximum() {
    let mut s = AppState::default();
    s.increase_font_size();
    assert_eq!(s.font_size, 15);
    s.font_size = 31;
    s.increase_font_size();
    assert_eq!(s.font_size, 32);
    s.increase_font_size();
    assert_eq!(s.font_size, MAX_FONT_SIZE);
    s.font_size = 40;
    s.increase_font_size();
    assert_eq!(s.font_size, 32);
    s.font_size = 3;
    s.increase_font_size();
    assert_eq!(s.font_size, 4);
    s.font_size = u32::MAX;
    s.increase_font_size();
    assert_eq!(s.font_size, 32);
}

#[test]
fn decrease_font_size_steps_down_to_the_minimum() {
    let mut s = AppState::default();
    s.decrease_font_size();
    assert_eq!(s.font_size, 13);
    s.font_size = 9;
    s.decrease_font_size();
    assert_eq!(s.font_size, 8);
    s.decrease_font_size();
    assert_eq!(s.font_size, MIN_FONT_SIZE);
    s.font_size = 0;
    s.decrease_font_size();
    assert_eq!(s.font_size, 8);
    s.font_size = 40;
    s.decrease_font_size();
    assert_eq!(s.font_size, 39);
}

#[test]
fn font_size_steps_undo_each_other_within_range() {
    for size in MIN_FONT_SIZE..=MAX_FONT_SIZE {
        let mut s = AppState::default();
        s.font_size = size;
        s.increase_font_size();
        assert!(s.font_size >= MIN_FONT_SIZE && s.font_size <= MAX_FONT_SIZE);
        s.decrease_font_size();
        if size < MAX_FONT_SIZE {
            assert_eq!(s.font_size, size);
        }
        let mut t = AppState::default();
        t.font_size = size;
        t.decrease_font_size();
        assert!(t.font_size >= MIN_FONT_SIZE && t.font_size <= MAX_FONT_SIZE);
        t.increase_font_size();
        if size > MIN_FONT_SIZE {
            assert_eq!(t.font_size, size);
        }
    }
}

#[test]
fn configure_appearance_happens_once() {
    let mut s = AppState::default();
    assert!(s.configure_appearance());
    assert!(!s.configure_appearance());
    assert!(!s.configure_appearance());
    assert_eq!(s.window_title(PathStyle::Unix), "Untitled - NoteRust");
}

#[test]
fn editing_marks_dirty_and_title_shows_star() {
    let mut s = state_with("abc", Some("/x/y.rs"), false);
    assert_eq!(s.window_title(PathStyle::Unix), "y.rs - NoteRust");
    s.mark_dirty();
    assert!(s.dirty);
    assert_eq!(s.window_title(PathStyle::Unix), "* y.rs - NoteRust");
    s.mark_dirty();
    assert_eq!(s.window_title(PathStyle::Unix), "* y.rs - NoteRust");
    s.new_file();
    assert_eq!(s.window_title(PathStyle::Unix), "Untitled - NoteRust");
}

#[test]
fn ctrl_plus_in_a_frame_makes_the_font_larger() {
    let mut s = AppState::default();
    let events = vec![KeyEvent {
        key: Key::Plus,
        pressed: true,
        modifiers: Modifiers { ctrl: true, shift: false, command: false },
    }];
    let shortcuts = handle_keyboard_shortcuts(&events, s.show_about());
    assert_eq!(shortcuts.len(), 1);
    for shortcut in &shortcuts {
        assert_eq!(s.run_command(shortcut.command), None);
    }
    assert_eq!(s.font_size(), 15);
}

#[test]
fn run_command_applies_or_asks_for_file_work() {
    let mut s = state_with("text", Some("/a/b.txt"), true);
    assert_eq!(s.run_command(Command::OpenFile), Some(FileRequest::Open));
    assert_eq!(s.run_command(Command::SaveFile), Some(FileRequest::Save));
    assert_eq!(s.run_command(Command::SaveFileAs), Some(FileRequest::SaveAs));
    assert_eq!(s.text(), "text");
    assert_eq!(s.file_path(), Some("/a/b.txt"));
    assert!(s.dirty());
    assert_eq!(s.run_command(Command::IncreaseFontSize), None);
    assert_eq!(s.font_size(), 15);
    assert_eq!(s.run_command(Command::DecreaseFontSize), None);
    assert_eq!(s.run_command(Command::DecreaseFontSize), None);
    assert_eq!(s.font_size(), 13);
    s.set_show_about(true);
    assert_eq!(s.run_command(Command::CloseAbout), None);
    assert!(!s.show_about());
    assert_eq!(s.run_command(Command::NewFile), None);
    assert_eq!(s.text(), "");
    assert_eq!(s.file_path(), None);
    assert!(!s.dirty());
    assert_eq!(s.font_size(), 13);
}

#[test]
fn settings_setters_and_getters() {
    let mut s = AppState::default();
    assert!(s.show_line_numbers());
    assert!(s.word_wrap());
    assert!(!s.show_about());
    s.set_show_line_numbers(false);
    s.set_word_wrap(false);
    s.set_show_about(true);
    assert!(!s.show_line_numbers());
    assert!(!s.word_wrap());
    assert!(s.show_about());
    assert_eq!(s.window_title(PathStyle::Unix), "Untitled - NoteRust");
    assert_eq!(s.font_size(), 14);
}

#[test]
fn font_stays_in_range_over_many_commands() {
    let mut s = AppState::default();
    let commands = [
        Command::IncreaseFontSize,
        Command::DecreaseFontSize,
        Command::NewFile,
        Command::CloseAbout,
        Command::SaveFile,
    ];
    for i in 0..500usize {
        let c = if i % 7 < 4 { commands[0] } else { commands[(i * 3) % 5] };
        s.run_command(c);
        assert!(s.font_size() >= MIN_FONT_SIZE && s.font_size() <= MAX_FONT_SIZE);
    }
    for _ in 0..40 {
        s.run_command(Command::DecreaseFontSize);
        assert!(s.font_size() >= MIN_FONT_SIZE && s.font_size() <= MAX_FONT_SIZE);
    }
    assert_eq!(s.font_size(), MIN_FONT_SIZE);
}

#[test]
fn window_title_uses_the_platform_path_style() {
    let s = state_with("x", Some("C:\\Users\\me\\notes.txt"), true);
    assert_eq!(s.window_title(PathStyle::Windows), "* notes.txt - NoteRust");
    assert_eq!(s.file_name(PathStyle::Windows), "notes.txt");
    let t = state_with("x", Some("D:"), false);
    assert_eq!(t.window_title(PathStyle::Windows), "Untitled - NoteRust");
}
