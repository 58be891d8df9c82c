use hecto::command::{Command, Edit, InputEvent, KeyCode, KeyPress, Modifiers, Move, System};
use hecto::editor::Editor;
use hecto::size::Size;
use hecto::uicomponent::UIComponent;

const T0: u64 = 1_000;

fn sized_editor() -> Editor {
    let mut editor = Editor::default();
    editor.resize(Size { columns: 80, rows: 24 });
    editor
}

fn type_text(editor: &mut Editor, text: &str) {
    for ch in text.chars() {
        editor.process_command(Command::Edit(Edit::Insert(ch)), T0);
    }
}

#[test]
fn quit_unmodified_buffer_quits_immediately() {
    let mut editor = sized_editor();
    assert!(!editor.should_quit());
    editor.process_command(Command::System(System::Quit), T0);
    assert!(editor.should_quit());
}

#[test]
fn quit_modified_buffer_takes_three_commands() {
    let mut editor = sized_editor();
    type_text(&mut editor, "x");
    assert!(editor.view().buffer().dirty);
    editor.process_command(Command::System(System::Quit), T0);
    assert!(!editor.should_quit());
    assert_eq!(
        editor.message_bar().current_text(),
        "WARNING! File has unsaved changes. Press Ctrl-q 2 more times to quit."
    );
    editor.process_command(Command::System(System::Quit), T0);
    assert!(!editor.should_quit());
    assert_eq!(
        editor.message_bar().current_text(),
        "WARNING! File has unsaved changes. Press Ctrl-q 1 more times to quit."
    );
    editor.process_command(Command::System(System::Quit), T0);
    assert!(editor.should_quit());
}

#[test]
fn other_commands_reset_the_quit_count() {
    let mut editor = sized_editor();
    type_text(&mut editor, "x");
    editor.process_command(Command::System(System::Quit), T0);
    editor.process_command(Command::System(System::Quit), T0);
    editor.process_command(Command::Move(Move::Right), T0);
    editor.process_command(Command::System(System::Quit), T0);
    assert!(!editor.should_quit());
    editor.process_command(Command::System(System::Quit), T0);
    assert!(!editor.should_quit());
    editor.process_command(Command::System(System::Quit), T0);
    assert!(editor.should_quit());
}

#[test]
fn save_without_association_prompts_and_confirms() {
    // Save with no file association, enter a name, confirm: the modified
    // flag clears, the association becomes that name, and a success
    // message is shown.
    let mut editor = sized_editor();
    type_text(&mut editor, "hi");
    let request = editor.process_command(Command::System(System::Save), T0);
    assert!(request.is_none());
    assert!(editor.command_bar().is_some());
    type_text(&mut editor, "out.txt");
    let request = editor.process_command(Command::Edit(Edit::InsertNewline), T0);
    let request = request.expect("confirming the prompt must request a save");
    assert_eq!(request.file_name, "out.txt");
    assert!(request.rebind);
    assert_eq!(request.content, "hi\n");
    assert!(editor.command_bar().is_none());
    editor.finish_save(Some(request.file_name.as_str()), true, T0);
    assert!(!editor.view().buffer().dirty);
    assert_eq!(editor.view().buffer().file_info.get_path(), Some("out.txt"));
    assert_eq!(editor.message_bar().current_text(), "File saved successfully.");
}

#[test]
fn save_with_association_requests_write_in_place() {
    let mut editor = sized_editor();
    editor.load_file("notes.txt", "one\ntwo\n");
    type_text(&mut editor, "X");
    let request = editor.process_command(Command::System(System::Save), T0);
    let request = request.expect("a buffer with a file association saves in place");
    assert_eq!(request.file_name, "notes.txt");
    assert!(!request.rebind);
    assert_eq!(request.content, "Xone\ntwo\n");
    editor.finish_save(None, true, T0);
    assert!(!editor.view().buffer().dirty);
    assert_eq!(editor.view().buffer().file_info.get_path(), Some("notes.txt"));
}

#[test]
fn failed_save_keeps_buffer_modified() {
    let mut editor = sized_editor();
    editor.load_file("notes.txt", "one\n");
    type_text(&mut editor, "X");
    let request = editor.process_command(Command::System(System::Save), T0);
    assert!(request.is_some());
    editor.finish_save(None, false, T0);
    assert!(editor.view().buffer().dirty);
    assert_eq!(editor.message_bar().current_text(), "Error writing file");
}

#[test]
fn dismiss_aborts_the_save_prompt() {
    let mut editor = sized_editor();
    type_text(&mut editor, "hi");
    editor.process_command(Command::System(System::Save), T0);
    assert!(editor.command_bar().is_some());
    editor.process_command(Command::System(System::Dismiss), T0);
    assert!(editor.command_bar().is_none());
    assert_eq!(editor.message_bar().current_text(), "save aborted");
    assert!(editor.view().buffer().dirty);
}

#[test]
fn quit_is_ignored_while_prompt_is_open() {
    let mut editor = sized_editor();
    type_text(&mut editor, "hi");
    editor.process_command(Command::System(System::Save), T0);
    editor.process_command(Command::System(System::Quit), T0);
    editor.process_command(Command::System(System::Quit), T0);
    editor.process_command(Command::System(System::Quit), T0);
    assert!(!editor.should_quit());
    assert!(editor.command_bar().is_some());
}

#[test]
fn prompt_edits_go_to_the_command_bar() {
    let mut editor = sized_editor();
    type_text(&mut editor, "hi");
    editor.process_command(Command::System(System::Save), T0);
    type_text(&mut editor, "nam");
    editor.process_command(Command::Edit(Edit::DeleteBackward), T0);
    type_text(&mut editor, "me");
    match editor.command_bar() {
        Some(bar) => assert_eq!(bar.value(), "name"),
        None => panic!("the prompt must still be open"),
    }
    // The document itself was not edited while the prompt was open.
    assert_eq!(editor.view().buffer().lines[0].to_string(), "hi");
}

#[test]
fn resize_reserves_two_rows_for_bars() {
    let mut editor = sized_editor();
    editor.process_command(
        Command::System(System::Resize(Size { columns: 60, rows: 20 })),
        T0,
    );
    assert_eq!(editor.view().size().columns, 60);
    assert_eq!(editor.view().size().rows, 18);
}

#[test]
fn evaluate_event_filters_input() {
    let mut editor = sized_editor();
    let release = InputEvent::Key(KeyPress {
        code: KeyCode::Char('a'),
        modifiers: Modifiers::Plain,
        is_press: false,
    });
    editor.evaluate_event(release, T0);
    assert!(editor.view().buffer().is_empty());
    let unbound = InputEvent::Key(KeyPress {
        code: KeyCode::Char('z'),
        modifiers: Modifiers::Control,
        is_press: true,
    });
    editor.evaluate_event(unbound, T0);
    assert!(editor.view().buffer().is_empty());
    let typed = InputEvent::Key(KeyPress {
        code: KeyCode::Char('a'),
        modifiers: Modifiers::Plain,
        is_press: true,
    });
    editor.evaluate_event(typed, T0);
    assert_eq!(editor.view().buffer().lines[0].to_string(), "a");
}

#[test]
fn refresh_statusbar_proposes_title_once() {
    let mut editor = sized_editor();
    editor.load_file("dir/notes.txt", "x\n");
    let title = editor.refresh_statusbar().expect("a fresh title is proposed");
    assert_eq!(title, "notes.txt - hecto");
    editor.record_title(title.as_str());
    assert!(editor.refresh_statusbar().is_none());
}

#[test]
fn message_expires_and_clears_once() {
    let mut bar = hecto::messagebar::Messagebar::default();
    bar.update_message("hello", T0);
    assert!(bar.needs_redraw());
    let drawn = bar.render().expect("a fresh message needs drawing");
    assert_eq!(drawn[0], "hello");
    assert!(!bar.needs_redraw());
    bar.tick(T0 + 6_000);
    assert!(bar.needs_redraw());
    let drawn = bar.render().expect("an expired message is cleared once");
    assert_eq!(drawn[0], "");
    assert!(!bar.needs_redraw());
    bar.tick(T0 + 7_000);
    assert!(!bar.needs_redraw());
}

#[test]
fn prompt_bar_draws_prompt_and_value() {
    let mut editor = sized_editor();
    type_text(&mut editor, "hi");
    editor.process_command(Command::System(System::Save), T0);
    type_text(&mut editor, "out.txt");
    match editor.command_bar() {
        Some(bar) => {
            assert_eq!(bar.draw_text(), "Save as:out.txt");
            assert_eq!(bar.caret_position_end(), 15);
        },
        None => panic!("the prompt must be open"),
    }
}

#[test]
fn shrinking_the_window_rescrolls_to_the_cursor() {
    let mut editor = sized_editor();
    editor.load_file("f.txt", "abcdefghij\n");
    editor.process_command(Command::Move(Move::EndofLine), T0);
    editor.process_command(
        Command::System(System::Resize(Size { columns: 4, rows: 10 })),
        T0,
    );
    let offset = editor.view().scroll_offset();
    assert_eq!(offset.column, 7);
    assert!(editor.view().caret_position().column < 4);
}
