use ollama_code::ui::{App, InputMode, Key, UiAction, UiFrame};

fn editing(text: &str) -> App {
    let mut app = App::new();
    assert_eq!(app.run(Key::Char('e'), true), UiAction::Nothing);
    for c in text.chars() {
        app.run(Key::Char(c), true);
    }
    app
}

#[test]
fn new_screen_is_empty_and_normal() {
    let app = App::new();
    assert_eq!(app.input(), "");
    assert_eq!(app.character_index(), 0);
    assert_eq!(app.input_mode(), InputMode::Normal);
    assert!(!app.is_busy());
}

#[test]
fn keys_in_normal_mode() {
    let mut app = App::new();
    assert_eq!(app.run(Key::Char('x'), true), UiAction::Nothing);
    assert_eq!(app.input(), "");
    assert_eq!(app.run(Key::Enter, true), UiAction::Nothing);
    assert_eq!(app.run(Key::Char('q'), true), UiAction::Quit);
    assert_eq!(app.input_mode(), InputMode::Normal);
    assert_eq!(app.run(Key::Char('e'), false), UiAction::Nothing);
    assert_eq!(app.input_mode(), InputMode::Editing);
}

#[test]
fn typing_puts_characters_at_the_cursor() {
    let mut app = editing("hllo");
    assert_eq!(app.input(), "hllo");
    assert_eq!(app.character_index(), 4);
    app.run(Key::Left, true);
    app.run(Key::Left, true);
    app.run(Key::Left, true);
    assert_eq!(app.character_index(), 1);
    app.run(Key::Char('\u{e9}'), true);
    assert_eq!(app.input(), "h\u{e9}llo");
    assert_eq!(app.character_index(), 2);
    assert_eq!(app.byte_index(), 3);
}

#[test]
fn typing_q_while_editing_does_not_quit() {
    let mut app = editing("");
    assert_eq!(app.run(Key::Char('q'), true), UiAction::Nothing);
    assert_eq!(app.input(), "q");
}

#[test]
fn released_keys_do_not_edit() {
    let mut app = editing("ab");
    assert_eq!(app.run(Key::Char('c'), false), UiAction::Nothing);
    assert_eq!(app.run(Key::Backspace, false), UiAction::Nothing);
    assert_eq!(app.run(Key::Enter, false), UiAction::Nothing);
    assert_eq!(app.input(), "ab");
    assert!(!app.is_busy());
}

#[test]
fn backspace_deletes_in_front_of_the_cursor() {
    let mut app = editing("a\u{e9}c");
    app.run(Key::Left, true);
    app.run(Key::Backspace, true);
    assert_eq!(app.input(), "ac");
    assert_eq!(app.character_index(), 1);
    app.run(Key::Backspace, true);
    assert_eq!(app.input(), "c");
    assert_eq!(app.character_index(), 0);
    app.run(Key::Backspace, true);
    assert_eq!(app.input(), "c");
    assert_eq!(app.character_index(), 0);
}

#[test]
fn cursor_stays_within_the_line() {
    let mut app = editing("ab");
    app.run(Key::Right, true);
    assert_eq!(app.character_index(), 2);
    app.run(Key::Left, true);
    app.run(Key::Left, true);
    app.run(Key::Left, true);
    assert_eq!(app.character_index(), 0);
    app.move_cursor_right();
    assert_eq!(app.character_index(), 1);
    app.move_cursor_left();
    assert_eq!(app.character_index(), 0);
    assert_eq!(app.clamp_cursor(7), 2);
    assert_eq!(app.clamp_cursor(1), 1);
}

#[test]
fn escape_ends_editing() {
    let mut app = editing("ab");
    assert_eq!(app.run(Key::Esc, true), UiAction::Nothing);
    assert_eq!(app.input_mode(), InputMode::Normal);
    assert_eq!(app.input(), "ab");
    assert_eq!(app.run(Key::Other, true), UiAction::Nothing);
}

#[test]
fn enter_submits_the_line() {
    let mut app = editing("hello");
    assert_eq!(app.run(Key::Enter, true), UiAction::Submit);
    assert!(app.is_busy());
    assert_eq!(app.input(), "hello");
    assert_eq!(app.run(Key::Char('x'), true), UiAction::Nothing);
    assert_eq!(app.run(Key::Enter, true), UiAction::Nothing);
    assert_eq!(app.input(), "hello");
    app.receive(Some("hi there".to_string()));
    assert!(!app.is_busy());
    assert_eq!(app.input(), "");
    assert_eq!(app.character_index(), 0);
    assert_eq!(app.draw().messages, vec!["0: hi there".to_string()]);
}

#[test]
fn submit_message_hands_the_line_over() {
    let mut app = editing("ask");
    assert_eq!(app.submit_message(), "ask");
    assert!(app.is_busy());
    app.receive(None);
    assert!(!app.is_busy());
    assert_eq!(app.input(), "");
    assert_eq!(app.draw().messages, Vec::<String>::new());
}

#[test]
fn busy_screen_does_not_start_editing() {
    let mut app = editing("a");
    app.run(Key::Enter, true);
    app.run(Key::Esc, true);
    assert_eq!(app.input_mode(), InputMode::Editing);
}

#[test]
fn enter_char_and_delete_char_edit_the_line() {
    let mut app = App::new();
    app.enter_char('b');
    app.reset_cursor();
    app.enter_char('a');
    assert_eq!(app.input(), "ab");
    assert_eq!(app.character_index(), 1);
    app.delete_char();
    assert_eq!(app.input(), "b");
    assert_eq!(app.character_index(), 0);
    app.delete_char();
    assert_eq!(app.input(), "b");
}

#[test]
fn draw_shows_the_state() {
    let mut app = App::new();
    assert_eq!(
        app.draw(),
        UiFrame {
            input: String::new(),
            highlighted: false,
            busy: false,
            cursor: None,
            messages: vec![],
        }
    );
    app.run(Key::Char('e'), true);
    app.run(Key::Char('h'), true);
    app.run(Key::Char('i'), true);
    app.run(Key::Left, true);
    assert_eq!(
        app.draw(),
        UiFrame {
            input: "hi".to_string(),
            highlighted: true,
            busy: false,
            cursor: Some(2),
            messages: vec![],
        }
    );
    app.run(Key::Enter, true);
    assert!(app.draw().busy);
    app.receive(Some("one".to_string()));
    app.submit_message();
    app.receive(Some("two".to_string()));
    assert_eq!(app.draw().messages, vec!["0: one".to_string(), "1: two".to_string()]);
    assert_eq!(app.draw().cursor, Some(1));
}
