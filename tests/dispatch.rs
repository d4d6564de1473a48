use twitch_tui::app::{Action, App, Event, Key, LayoutError, Screen, State};
use twitch_tui::config::{Alignment, Config};
use twitch_tui::layout::{column_titles, column_widths, message_cells, ColumnWidth};
use twitch_tui::message::ChatMessage;
use twitch_tui::text::{align_text, blanks};

fn config(date_shown: bool, input: bool, username: &str) -> Config {
    Config {
        tick_delay: 30,
        maximum_messages: 150,
        date_shown,
        date_format: "%a %b %e %T %Y".to_string(),
        username_alignment: Alignment::Right,
        maximum_username_length: 26,
        input,
        username: username.to_string(),
    }
}

fn remote(content: &str) -> ChatMessage {
    ChatMessage::new("12:00".to_string(), "bob".to_string(), content.to_string(), true)
}

fn press_all(app: &mut App, cfg: &Config, keys: &[Key]) -> Vec<Action> {
    keys.iter().map(|k| app.handle_key(*k, cfg)).collect()
}

#[test]
fn submit_in_input_mode_echoes_locally() {
    let cfg = config(true, true, "alice");
    let mut app = App::new(150);
    assert_eq!(app.init_layout(&cfg), Ok(()));
    let actions = press_all(
        &mut app,
        &cfg,
        &[Key::Char('i'), Key::Char('h'), Key::Char('i'), Key::Enter],
    );
    assert!(matches!(&actions[3], Action::Send(s) if s == "hi"));
    assert_eq!(app.state(), State::Input);
    let first = &app.messages()[0];
    assert_eq!(first.author, "alice");
    assert_eq!(first.content, "hi");
    assert!(!first.is_remote);
    assert_eq!(app.input_text(), "");
}

#[test]
fn help_then_escape_returns_to_normal_then_quits() {
    let cfg = config(false, true, "alice");
    let mut app = App::new(10);
    assert!(matches!(app.handle_key(Key::Char('?'), &cfg), Action::Continue));
    assert_eq!(app.state(), State::KeybindHelp);
    assert!(matches!(app.handle_key(Key::Esc, &cfg), Action::Continue));
    assert_eq!(app.state(), State::Normal);
    assert!(matches!(app.handle_key(Key::Esc, &cfg), Action::Quit));
    assert_eq!(app.state(), State::Normal);
}

#[test]
fn input_disabled_keeps_normal_mode() {
    let cfg = config(false, false, "alice");
    let mut app = App::new(10);
    assert!(matches!(app.handle_key(Key::Char('i'), &cfg), Action::Continue));
    assert_eq!(app.state(), State::Normal);
    app.handle_key(Key::Char('?'), &cfg);
    app.handle_key(Key::Char('i'), &cfg);
    assert_eq!(app.state(), State::KeybindHelp);
}

#[test]
fn typing_then_erasing_keeps_prefix() {
    let cfg = config(false, true, "alice");
    let mut app = App::new(10);
    app.handle_key(Key::Char('i'), &cfg);
    press_all(
        &mut app,
        &cfg,
        &[Key::Char('a'), Key::Char('b'), Key::Char('c'), Key::Backspace, Key::Backspace],
    );
    assert_eq!(app.input_text(), "a");
    press_all(&mut app, &cfg, &[Key::Backspace, Key::Backspace, Key::Backspace]);
    assert_eq!(app.input_text(), "");
    assert_eq!(app.state(), State::Input);
}

#[test]
fn submit_grows_history_by_one() {
    let cfg = config(false, true, "alice");
    let mut app = App::new(10);
    app.receive(Some(remote("hello")));
    app.handle_key(Key::Char('i'), &cfg);
    press_all(&mut app, &cfg, &[Key::Char('y'), Key::Char('o')]);
    let before = app.messages().len();
    app.handle_key(Key::Enter, &cfg);
    assert_eq!(app.messages().len(), before + 1);
    assert_eq!(app.messages()[0].content, "yo");
    assert_eq!(app.messages()[1].content, "hello");
    assert_eq!(app.input_text(), "");
}

#[test]
fn submit_empty_buffer_sends_empty_text() {
    let cfg = config(false, true, "alice");
    let mut app = App::new(10);
    app.handle_key(Key::Char('i'), &cfg);
    assert!(matches!(app.handle_key(Key::Enter, &cfg), Action::Send(s) if s.is_empty()));
    assert_eq!(app.messages().len(), 1);
    assert_eq!(app.messages()[0].content, "");
}

#[test]
fn submit_stamps_with_configured_format() {
    let mut cfg = config(false, true, "alice");
    cfg.date_format = "%Y".to_string();
    let mut app = App::new(10);
    app.handle_key(Key::Char('i'), &cfg);
    app.handle_key(Key::Enter, &cfg);
    let stamp = &app.messages()[0].timestamp;
    assert_eq!(stamp.len(), 4);
    assert!(stamp.chars().all(|c| c.is_ascii_digit()));
}

#[test]
fn submit_with_rejected_format_has_empty_timestamp() {
    let mut cfg = config(false, true, "alice");
    cfg.date_format = "%".to_string();
    let mut app = App::new(10);
    app.handle_key(Key::Char('i'), &cfg);
    app.handle_key(Key::Char('x'), &cfg);
    app.handle_key(Key::Enter, &cfg);
    assert_eq!(app.messages()[0].timestamp, "");
    assert_eq!(app.messages()[0].content, "x");
}

#[test]
fn unlisted_keys_change_nothing() {
    let cfg = config(false, true, "alice");
    let mut app = App::new(10);
    for k in [Key::Char('x'), Key::Backspace, Key::Enter, Key::Other] {
        assert!(matches!(app.handle_key(k, &cfg), Action::Continue));
        assert_eq!(app.state(), State::Normal);
        assert_eq!(app.messages().len(), 0);
        assert_eq!(app.input_text(), "");
    }
    app.handle_key(Key::Char('i'), &cfg);
    app.handle_key(Key::Other, &cfg);
    assert_eq!(app.state(), State::Input);
    assert_eq!(app.input_text(), "");
}

#[test]
fn normal_mode_keys_switch_modes() {
    let cfg = config(false, true, "alice");
    let mut app = App::new(10);
    app.handle_key(Key::Char('?'), &cfg);
    assert_eq!(app.screen(), Screen::KeybindHelp);
    app.handle_key(Key::Char('c'), &cfg);
    assert_eq!(app.screen(), Screen::Chat);
    app.handle_key(Key::Char('?'), &cfg);
    app.handle_key(Key::Char('i'), &cfg);
    assert_eq!(app.screen(), Screen::ChatWithInput);
    app.handle_key(Key::Char('?'), &cfg);
    assert_eq!(app.input_text(), "?");
    assert!(matches!(app.handle_key(Key::Esc, &cfg), Action::Continue));
    assert_eq!(app.state(), State::Normal);
}

#[test]
fn tick_changes_nothing() {
    let cfg = config(false, true, "alice");
    let mut app = App::new(10);
    app.handle_event(Event::KeyPress(Key::Char('i')), &cfg);
    assert!(matches!(app.handle_event(Event::Tick, &cfg), Action::Continue));
    assert_eq!(app.state(), State::Input);
    assert!(matches!(app.handle_event(Event::KeyPress(Key::Esc), &cfg), Action::Continue));
    assert!(matches!(app.handle_event(Event::KeyPress(Key::Esc), &cfg), Action::Quit));
}

#[test]
fn history_drops_oldest_beyond_bound() {
    let mut app = App::new(2);
    app.receive(Some(remote("one")));
    app.receive(Some(remote("two")));
    app.receive(None);
    app.push_message(remote("three"));
    let contents: Vec<&str> = app.messages().iter().map(|m| m.content.as_str()).collect();
    assert_eq!(contents, vec!["three", "two"]);
    assert_eq!(app.maximum_messages(), 2);
}

#[test]
fn zero_bound_keeps_nothing() {
    let mut app = App::new(0);
    app.receive(Some(remote("one")));
    assert_eq!(app.messages().len(), 0);
}

#[test]
fn layout_with_time_column() {
    let mut cfg = config(true, true, "alice");
    cfg.date_format = "%Y-%m-%d".to_string();
    cfg.maximum_username_length = 10;
    let mut app = App::new(10);
    assert!(app.column_titles().is_none());
    assert!(app.table_constraints().is_none());
    assert_eq!(app.init_layout(&cfg), Ok(()));
    let titles = app.column_titles().unwrap();
    let widths = app.table_constraints().unwrap();
    assert_eq!(titles.len(), 3);
    assert_eq!(widths.len(), 3);
    assert_eq!(titles[0], "Time");
    assert_eq!(titles[1], "  Username");
    assert_eq!(titles[2], "Message content");
    assert_eq!(
        widths,
        &vec![ColumnWidth::Length(10), ColumnWidth::Length(10), ColumnWidth::Percentage(100)]
    );
}

#[test]
fn layout_without_time_column() {
    let mut cfg = config(false, true, "alice");
    cfg.username_alignment = Alignment::Left;
    cfg.maximum_username_length = 4;
    let mut app = App::new(10);
    assert_eq!(app.init_layout(&cfg), Ok(()));
    assert_eq!(app.column_titles().unwrap(), &vec!["Username".to_string(), "Message content".to_string()]);
    assert_eq!(
        app.table_constraints().unwrap(),
        &vec![ColumnWidth::Length(4), ColumnWidth::Percentage(100)]
    );
}

#[test]
fn layout_with_empty_format_has_zero_width_time() {
    let mut cfg = config(true, true, "alice");
    cfg.date_format = String::new();
    let mut app = App::new(10);
    assert_eq!(app.init_layout(&cfg), Ok(()));
    assert_eq!(app.table_constraints().unwrap()[0], ColumnWidth::Length(0));
}

#[test]
fn layout_with_rejected_format_fails() {
    let mut cfg = config(true, true, "alice");
    cfg.date_format = "%".to_string();
    let mut app = App::new(10);
    assert_eq!(app.init_layout(&cfg), Err(LayoutError::DateFormatRejected));
    assert!(app.column_titles().is_none());
    assert!(app.table_constraints().is_none());
}

#[test]
fn column_widths_cap_time_width() {
    let cfg = config(true, true, "alice");
    assert_eq!(column_widths(&cfg, 70000)[0], ColumnWidth::Length(65535));
    assert_eq!(column_widths(&cfg, 8)[0], ColumnWidth::Length(8));
    assert_eq!(column_titles(&cfg).len(), 3);
}

#[test]
fn align_text_places_title() {
    assert_eq!(align_text("ab", Alignment::Left, 5), "ab   ");
    assert_eq!(align_text("ab", Alignment::Right, 5), "   ab");
    assert_eq!(align_text("ab", Alignment::Center, 5), " ab  ");
    assert_eq!(align_text("abcdef", Alignment::Center, 3), "abcdef");
    assert_eq!(align_text("", Alignment::Right, 0), "");
    assert_eq!(blanks(3), "   ");
}

#[test]
fn message_cells_follow_columns() {
    let m = remote("hey");
    assert_eq!(message_cells(&m, true), vec!["12:00", "bob", "hey"]);
    assert_eq!(message_cells(&m, false), vec!["bob", "hey"]);
}

#[test]
fn submit_into_full_history_keeps_echo_first() {
    let cfg = config(false, true, "alice");
    let mut app = App::new(1);
    app.receive(Some(remote("old")));
    app.handle_key(Key::Char('i'), &cfg);
    app.handle_key(Key::Char('z'), &cfg);
    app.handle_key(Key::Enter, &cfg);
    assert_eq!(app.messages().len(), 1);
    assert_eq!(app.messages()[0].content, "z");
    assert_eq!(app.messages()[0].author, "alice");
    assert!(!app.messages()[0].is_remote);
}
