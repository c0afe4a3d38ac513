use shellfm::console::{Console, Show};

#[test]
fn new_console_is_hidden_with_colon() {
    let c = Console::new();
    assert_eq!(c.input(), ":");
    assert_eq!(c.character_index(), 1);
    assert_eq!(c.display(), Show::Hidden);
}

#[test]
fn show_console_shows_colon_prompt() {
    let mut c = Console::new();
    c.show_console();
    assert_eq!(c.input(), ":");
    assert_eq!(c.character_index(), 1);
    assert_eq!(c.display(), Show::Visible);
}

#[test]
fn set_prefix_counts_characters_not_bytes() {
    let mut c = Console::new();
    c.set_prefix("Größe:");
    assert_eq!(c.input(), "Größe:");
    assert_eq!(c.character_index(), 6);
    assert_eq!(c.display(), Show::Visible);
}

#[test]
fn typing_multibyte_characters_keeps_text_whole() {
    let mut c = Console::new();
    c.show_console();
    c.enter_char('é');
    c.enter_char('日');
    c.enter_char('🦀');
    assert_eq!(c.input(), ":é日🦀");
    assert_eq!(c.character_index(), 4);
    c.cursor_left();
    c.cursor_left();
    c.enter_char('ß');
    assert_eq!(c.input(), ":éß日🦀");
    assert_eq!(c.character_index(), 3);
    c.delete_char();
    assert_eq!(c.input(), ":é日🦀");
    assert_eq!(c.character_index(), 2);
    c.delete_char();
    assert_eq!(c.input(), ":日🦀");
    assert_eq!(c.character_index(), 1);
}

#[test]
fn delete_at_start_does_nothing() {
    let mut c = Console::new();
    c.set_prefix("ab");
    c.cursor_left();
    c.cursor_left();
    c.cursor_left();
    assert_eq!(c.character_index(), 0);
    c.delete_char();
    assert_eq!(c.input(), "ab");
    assert_eq!(c.character_index(), 0);
}

#[test]
fn cursor_right_stops_at_end() {
    let mut c = Console::new();
    c.set_prefix("é");
    c.cursor_right();
    assert_eq!(c.character_index(), 1);
    c.cursor_left();
    c.cursor_right();
    assert_eq!(c.character_index(), 1);
}

#[test]
fn insert_then_delete_restores_text() {
    let mut c = Console::new();
    c.set_prefix("a日b");
    c.cursor_left();
    c.enter_char('x');
    assert_eq!(c.input(), "a日xb");
    c.delete_char();
    assert_eq!(c.input(), "a日b");
    assert_eq!(c.character_index(), 2);
}

#[test]
fn submit_returns_text_and_resets() {
    let mut c = Console::new();
    c.show_console();
    c.enter_char('q');
    let text = c.submit_command();
    assert_eq!(text, ":q");
    assert_eq!(c.input(), ":");
    assert_eq!(c.character_index(), 1);
    assert_eq!(c.display(), Show::Hidden);
}

#[test]
fn submit_of_unknown_text_also_resets() {
    let mut c = Console::new();
    c.set_prefix("nonsense");
    assert_eq!(c.submit_command(), "nonsense");
    assert_eq!(c.input(), ":");
    assert_eq!(c.character_index(), 1);
    assert_eq!(c.display(), Show::Hidden);
}

#[test]
fn hide_then_show_matches_fresh_console() {
    let mut used = Console::new();
    used.set_prefix("Enter File Name:");
    used.enter_char('z');
    used.hide_console();
    assert_eq!(used.input(), ":");
    assert_eq!(used.display(), Show::Hidden);
    used.set_prefix("Enter Directory Name:");
    let mut fresh = Console::new();
    fresh.set_prefix("Enter Directory Name:");
    assert_eq!(used.input(), fresh.input());
    assert_eq!(used.character_index(), fresh.character_index());
    assert_eq!(used.display(), fresh.display());
}
