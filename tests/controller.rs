use ratatui::crossterm::event::{KeyCode as TermCode, KeyEvent, KeyEventKind, KeyModifiers};
use tally::controller::{App, Mode, Sign};
use tally::keys::{Key, KeyCode, KeyKind, SHIFT_BIT};
use tally::store::Counter;

fn press(code: TermCode) -> Key {
    Key::from_event(KeyEvent::new(code, KeyModifiers::NONE))
}

fn ch(c: char) -> Key {
    press(TermCode::Char(c))
}

fn counts(app: &App) -> Vec<i64> {
    app.list().counters().iter().map(|c| c.count).collect()
}

fn names(app: &App) -> Vec<String> {
    app.list().counters().iter().map(|c| c.name.clone()).collect()
}

fn type_text(app: &mut App, text: &str) {
    for c in text.chars() {
        app.handle_key(&ch(c));
    }
}

#[test]
fn key_events_are_classified() {
    let k = ch('x').info();
    assert_eq!(k.code, KeyCode::Char('x'));
    assert_eq!(k.kind, KeyKind::Press);
    assert_eq!(k.modifiers, 0);
    assert_eq!(press(TermCode::Up).info().code, KeyCode::Up);
    assert_eq!(press(TermCode::Backspace).info().code, KeyCode::Backspace);
    assert_eq!(press(TermCode::Tab).info().code, KeyCode::Other);
    let r = Key::from_event(KeyEvent::new_with_kind(TermCode::Enter, KeyModifiers::NONE, KeyEventKind::Release));
    assert_eq!(r.info().code, KeyCode::Enter);
    assert_eq!(r.info().kind, KeyKind::Release);
    let shifted = Key::from_event(KeyEvent::new(TermCode::Char('T'), KeyModifiers::SHIFT));
    assert_eq!(shifted.info().modifiers, SHIFT_BIT);
    let event = KeyEvent::new(TermCode::Left, KeyModifiers::CONTROL);
    assert_eq!(*Key::from_event(event).event(), event);
}

#[test]
fn subtracting_fifty_from_ten_gives_minus_forty() {
    let mut app = App::with_counters(vec![Counter::new("x")]);
    app.handle_key(&ch('j'));
    app.handle_key(&press(TermCode::Right));
    for _ in 0..9 {
        app.handle_key(&ch('l'));
    }
    assert_eq!(counts(&app), vec![10]);
    app.handle_key(&ch('s'));
    app.handle_key(&ch('5'));
    app.handle_key(&ch('0'));
    assert_eq!(app.entry_text(), Some("50".to_string()));
    app.handle_key(&press(TermCode::Enter));
    assert_eq!(counts(&app), vec![-40]);
    assert_eq!(app.entry_text(), Some(String::new()));
    assert!(matches!(app.mode(), Mode::EnteringAmount(_, Sign::Decrease)));
}

#[test]
fn naming_coffee_appends_one_counter() {
    let mut app = App::new();
    app.handle_key(&ch('n'));
    type_text(&mut app, "Coffee");
    assert_eq!(app.entry_text(), Some("Coffee".to_string()));
    app.handle_key(&press(TermCode::Enter));
    assert_eq!(names(&app), vec!["Coffee"]);
    assert_eq!(counts(&app), vec![0]);
    assert_eq!(app.entry_text(), Some(String::new()));
    assert!(matches!(app.mode(), Mode::EnteringName(_)));
}

#[test]
fn name_entry_edits_with_the_cursor() {
    let mut app = App::new();
    app.handle_key(&ch('n'));
    type_text(&mut app, "Tae");
    app.handle_key(&press(TermCode::Left));
    app.handle_key(&press(TermCode::Backspace));
    type_text(&mut app, "e");
    assert_eq!(app.entry_text(), Some("Tee".to_string()));
    type_text(&mut app, "q");
    assert!(!app.should_exit());
    assert_eq!(app.entry_text(), Some("Teqe".to_string()));
}

#[test]
fn esc_leaves_name_entry_without_adding() {
    let mut app = App::new();
    app.handle_key(&ch('n'));
    type_text(&mut app, "Tea");
    app.handle_key(&press(TermCode::Esc));
    assert!(matches!(app.mode(), Mode::Normal));
    assert_eq!(app.entry_text(), None);
    assert_eq!(app.list().len(), 0);
    app.handle_key(&ch('n'));
    assert_eq!(app.entry_text(), Some(String::new()));
}

#[test]
fn esc_leaves_amount_entry_without_changing_counts() {
    let mut app = App::with_counters(vec![Counter::new("a")]);
    app.handle_key(&ch('j'));
    app.handle_key(&ch('a'));
    type_text(&mut app, "12");
    app.handle_key(&press(TermCode::Esc));
    assert!(matches!(app.mode(), Mode::Normal));
    assert_eq!(counts(&app), vec![0]);
    assert_eq!(app.list().selected(), Some(0));
}

#[test]
fn q_exits_only_from_normal_mode() {
    let mut app = App::with_counters(vec![Counter::new("a")]);
    app.handle_key(&ch('a'));
    app.handle_key(&ch('q'));
    assert!(!app.should_exit());
    assert_eq!(app.entry_text(), Some(String::new()));
    app.handle_key(&press(TermCode::Esc));
    app.handle_key(&ch('n'));
    app.handle_key(&ch('q'));
    assert!(!app.should_exit());
    app.handle_key(&press(TermCode::Esc));
    app.handle_key(&ch('q'));
    assert!(app.should_exit());
}

#[test]
fn amount_entry_ignores_other_characters() {
    let mut app = App::with_counters(vec![Counter::new("a")]);
    app.handle_key(&ch('j'));
    app.handle_key(&ch('a'));
    type_text(&mut app, "1x2d\u{663}");
    assert_eq!(app.entry_text(), Some("12".to_string()));
    assert_eq!(app.list().len(), 1);
    app.handle_key(&press(TermCode::Enter));
    assert_eq!(counts(&app), vec![12]);
}

#[test]
fn switching_sign_keeps_the_typed_amount() {
    let mut app = App::with_counters(vec![Counter::new("a")]);
    app.handle_key(&ch('j'));
    app.handle_key(&ch('a'));
    type_text(&mut app, "3");
    app.handle_key(&ch('s'));
    assert!(matches!(app.mode(), Mode::EnteringAmount(_, Sign::Decrease)));
    assert_eq!(app.entry_text(), Some("3".to_string()));
    app.handle_key(&press(TermCode::Enter));
    assert_eq!(counts(&app), vec![-3]);
}

#[test]
fn amount_without_selection_clears_the_text() {
    let mut app = App::with_counters(vec![Counter::new("a")]);
    app.handle_key(&ch('a'));
    type_text(&mut app, "4");
    app.handle_key(&press(TermCode::Enter));
    assert_eq!(counts(&app), vec![0]);
    assert_eq!(app.entry_text(), Some(String::new()));
    assert!(matches!(app.mode(), Mode::EnteringAmount(_, Sign::Increase)));
    app.handle_key(&ch('k'));
    assert_eq!(app.list().selected(), Some(0));
    type_text(&mut app, "4");
    app.handle_key(&press(TermCode::Enter));
    assert_eq!(counts(&app), vec![4]);
}

#[test]
fn modifiers_decide_what_is_typed() {
    let mut app = App::new();
    app.handle_key(&ch('n'));
    let shifted = Key::from_event(KeyEvent::new(TermCode::Char('T'), KeyModifiers::SHIFT));
    app.handle_key(&shifted);
    let ctrl = Key::from_event(KeyEvent::new(TermCode::Char('x'), KeyModifiers::CONTROL));
    app.handle_key(&ctrl);
    assert_eq!(app.entry_text(), Some("T".to_string()));
    let shift_back = Key::from_event(KeyEvent::new(TermCode::Backspace, KeyModifiers::SHIFT));
    app.handle_key(&shift_back);
    assert_eq!(app.entry_text(), Some("T".to_string()));
    app.handle_key(&press(TermCode::Backspace));
    assert_eq!(app.entry_text(), Some(String::new()));
}

#[test]
fn empty_amount_is_a_no_op() {
    let mut app = App::with_counters(vec![Counter::new("a")]);
    app.handle_key(&ch('j'));
    app.handle_key(&ch('s'));
    app.handle_key(&press(TermCode::Enter));
    assert_eq!(counts(&app), vec![0]);
}

#[test]
fn amount_entry_edits_with_the_cursor() {
    let mut app = App::with_counters(vec![Counter::new("a")]);
    app.handle_key(&ch('j'));
    app.handle_key(&ch('a'));
    type_text(&mut app, "19");
    app.handle_key(&press(TermCode::Left));
    app.handle_key(&press(TermCode::Left));
    app.handle_key(&press(TermCode::Left));
    type_text(&mut app, "2");
    app.handle_key(&press(TermCode::Right));
    app.handle_key(&press(TermCode::Backspace));
    app.handle_key(&press(TermCode::Right));
    app.handle_key(&press(TermCode::Right));
    type_text(&mut app, "0");
    assert_eq!(app.entry_text(), Some("290".to_string()));
    app.handle_key(&press(TermCode::Enter));
    assert_eq!(counts(&app), vec![290]);
}

#[test]
fn repeats_are_ignored() {
    let mut app = App::new();
    let repeat = Key::from_event(KeyEvent::new_with_kind(
        TermCode::Char('n'),
        KeyModifiers::NONE,
        KeyEventKind::Repeat,
    ));
    app.handle_key(&repeat);
    assert!(matches!(app.mode(), Mode::Normal));
}

#[test]
fn releases_are_ignored() {
    let mut app = App::new();
    let release = Key::from_event(KeyEvent::new_with_kind(
        TermCode::Char('q'),
        KeyModifiers::NONE,
        KeyEventKind::Release,
    ));
    app.handle_key(&release);
    assert!(!app.should_exit());
}

#[test]
fn normal_mode_keys_edit_and_delete() {
    let mut app = App::with_counters(vec![Counter::new("a"), Counter::new("b")]);
    app.handle_key(&ch('l'));
    assert_eq!(counts(&app), vec![0, 0]);
    app.handle_key(&press(TermCode::Down));
    app.handle_key(&ch('j'));
    app.handle_key(&ch(';'));
    app.handle_key(&press(TermCode::Left));
    assert_eq!(counts(&app), vec![0, -2]);
    app.handle_key(&ch('k'));
    app.handle_key(&ch('d'));
    assert_eq!(names(&app), vec!["b"]);
    assert_eq!(app.list().selected(), Some(0));
    app.handle_key(&press(TermCode::Esc));
    assert_eq!(app.list().selected(), None);
    app.handle_key(&ch('d'));
    assert_eq!(names(&app), vec!["b"]);
}
