use user_input::{run_app, App, AppState, Event, Key, Signal};

fn keys(text: &str) -> Vec<Event> {
    text.chars().map(|c| Event::Key(Key::Char(c))).collect()
}

#[test]
fn starts_in_normal_mode_with_nothing_typed() {
    let app = App::new();
    assert_eq!(app.input_mode(), AppState::Normal);
    assert_eq!(app.input(), "");
    assert!(app.messages().is_empty());
    let app = App::default();
    assert_eq!(app.input_mode(), AppState::Normal);
    assert_eq!(app.input(), "");
    assert!(app.messages().is_empty());
}

#[test]
fn typing_hi_and_committing_it() {
    let mut app = App::new();
    assert_eq!(app.input_mode(), AppState::Normal);
    assert_eq!(app.handle_key(Key::Char('e')), Signal::Continue);
    assert_eq!(app.input_mode(), AppState::EditMode);
    assert_eq!(app.handle_key(Key::Char('h')), Signal::Continue);
    assert_eq!(app.input_mode(), AppState::EditMode);
    assert_eq!(app.handle_key(Key::Char('i')), Signal::Continue);
    assert_eq!(app.input_mode(), AppState::EditMode);
    assert_eq!(app.input(), "hi");
    assert_eq!(app.handle_key(Key::Enter), Signal::Continue);
    assert_eq!(app.input_mode(), AppState::EditMode);
    assert_eq!(app.input(), "");
    assert_eq!(app.messages(), &vec!["hi".to_string()]);
    assert_eq!(app.handle_key(Key::Esc), Signal::Continue);
    assert_eq!(app.input_mode(), AppState::Normal);
    assert_eq!(app.input(), "");
    assert_eq!(app.handle_key(Key::Char('q')), Signal::Quit);
    assert_eq!(app.input_mode(), AppState::Normal);
    assert_eq!(app.input(), "");
    assert_eq!(app.messages(), &vec!["hi".to_string()]);
}

#[test]
fn typing_hi_as_one_run() {
    let mut app = App::new();
    let events = vec![
        Event::Key(Key::Char('e')),
        Event::Key(Key::Char('h')),
        Event::Key(Key::Char('i')),
        Event::Key(Key::Enter),
        Event::Key(Key::Esc),
        Event::Key(Key::Char('q')),
    ];
    assert_eq!(run_app(&mut app, &events), Some(5));
    assert_eq!(app.input_mode(), AppState::Normal);
    assert_eq!(app.input(), "");
    assert_eq!(app.messages(), &vec!["hi".to_string()]);
}

#[test]
fn quitting_at_once_appends_nothing() {
    let mut app = App::new();
    assert_eq!(run_app(&mut app, &keys("q")), Some(0));
    assert_eq!(app.input_mode(), AppState::Normal);
    assert_eq!(app.input(), "");
    assert!(app.messages().is_empty());
}

#[test]
fn run_stops_at_the_first_quit() {
    let mut app = App::new();
    let mut events = keys("xq");
    events.extend(keys("eab"));
    events.push(Event::Key(Key::Enter));
    assert_eq!(run_app(&mut app, &events), Some(1));
    assert_eq!(app.input_mode(), AppState::Normal);
    assert_eq!(app.input(), "");
    assert!(app.messages().is_empty());
}

#[test]
fn run_without_quit_handles_every_event() {
    let mut app = App::new();
    let mut events = keys("eone");
    events.push(Event::Key(Key::Enter));
    events.extend(keys("tw"));
    assert_eq!(run_app(&mut app, &events), None);
    assert_eq!(app.input_mode(), AppState::EditMode);
    assert_eq!(app.input(), "tw");
    assert_eq!(app.messages(), &vec!["one".to_string()]);
    assert_eq!(run_app(&mut app, &Vec::new()), None);
    assert_eq!(app.input(), "tw");
}

#[test]
fn without_e_only_q_quits_from_normal_mode() {
    let mut app = App::new();
    let others = [
        Key::Char('a'),
        Key::Char('E'),
        Key::Char('Q'),
        Key::Char(' '),
        Key::Enter,
        Key::Backspace,
        Key::Esc,
        Key::Other,
    ];
    for key in others {
        assert_eq!(app.handle_key(key), Signal::Continue);
        assert_eq!(app.input_mode(), AppState::Normal);
        assert_eq!(app.input(), "");
        assert!(app.messages().is_empty());
    }
    assert_eq!(app.handle_key(Key::Char('q')), Signal::Quit);
    let events: Vec<Event> = others.iter().map(|k| Event::Key(*k)).collect();
    let mut app = App::new();
    assert_eq!(run_app(&mut app, &events), None);
    let mut with_q = events.clone();
    with_q.insert(3, Event::Key(Key::Char('q')));
    assert_eq!(run_app(&mut app, &with_q), Some(3));
}

#[test]
fn only_e_starts_editing() {
    let mut app = App::new();
    assert_eq!(app.handle_key(Key::Char('x')), Signal::Continue);
    assert_eq!(app.input_mode(), AppState::Normal);
    assert_eq!(app.handle_key(Key::Char('e')), Signal::Continue);
    assert_eq!(app.input_mode(), AppState::EditMode);
    assert_eq!(app.input(), "");
    assert!(app.messages().is_empty());
}

#[test]
fn esc_keeps_line_and_log() {
    let mut app = App::new();
    let mut events = keys("efirst");
    events.push(Event::Key(Key::Enter));
    events.extend(keys("draft"));
    assert_eq!(run_app(&mut app, &events), None);
    assert_eq!(app.handle_key(Key::Esc), Signal::Continue);
    assert_eq!(app.input_mode(), AppState::Normal);
    assert_eq!(app.input(), "draft");
    assert_eq!(app.messages(), &vec!["first".to_string()]);
    assert_eq!(app.handle_key(Key::Char('e')), Signal::Continue);
    assert_eq!(app.input(), "draft");
    assert_eq!(app.handle_key(Key::Char('!')), Signal::Continue);
    assert_eq!(app.input(), "draft!");
}

#[test]
fn q_and_e_are_text_while_editing() {
    let mut app = App::new();
    assert_eq!(run_app(&mut app, &keys("eqe")), None);
    assert_eq!(app.input_mode(), AppState::EditMode);
    assert_eq!(app.input(), "qe");
}

#[test]
fn enter_commits_the_typed_line() {
    for text in ["", "a", "hello world", "q", "日本語"] {
        let mut app = App::new();
        app.handle_key(Key::Char('e'));
        app.handle_key(Key::Char('x'));
        app.handle_key(Key::Enter);
        let mut events = keys(text);
        events.push(Event::Key(Key::Enter));
        assert_eq!(run_app(&mut app, &events), None);
        assert_eq!(app.input(), "");
        assert_eq!(app.input_mode(), AppState::EditMode);
        assert_eq!(app.messages(), &vec!["x".to_string(), text.to_string()]);
    }
}

#[test]
fn enter_on_an_empty_line_commits_an_empty_message() {
    let mut app = App::new();
    app.handle_key(Key::Char('e'));
    app.handle_key(Key::Enter);
    app.handle_key(Key::Enter);
    assert_eq!(app.messages(), &vec![String::new(), String::new()]);
    assert_eq!(app.input(), "");
}

#[test]
fn backspace_on_an_empty_line_changes_nothing() {
    let mut app = App::new();
    app.handle_key(Key::Char('e'));
    assert_eq!(app.handle_key(Key::Backspace), Signal::Continue);
    assert_eq!(app.input(), "");
    assert_eq!(app.handle_key(Key::Backspace), Signal::Continue);
    assert_eq!(app.input(), "");
    assert_eq!(app.input_mode(), AppState::EditMode);
    assert!(app.messages().is_empty());
}

#[test]
fn backspace_removes_the_last_character() {
    let mut app = App::new();
    assert_eq!(run_app(&mut app, &keys("eab")), None);
    assert_eq!(app.handle_key(Key::Backspace), Signal::Continue);
    assert_eq!(app.input(), "a");
    assert_eq!(app.handle_key(Key::Backspace), Signal::Continue);
    assert_eq!(app.input(), "");
}

#[test]
fn backspace_removes_a_whole_character() {
    let mut app = App::new();
    assert_eq!(run_app(&mut app, &keys("eaé日")), None);
    app.handle_key(Key::Backspace);
    assert_eq!(app.input(), "aé");
    app.handle_key(Key::Backspace);
    assert_eq!(app.input(), "a");
}

#[test]
fn other_keys_change_nothing_while_editing() {
    let mut app = App::new();
    assert_eq!(run_app(&mut app, &keys("eab")), None);
    assert_eq!(app.handle_key(Key::Other), Signal::Continue);
    assert_eq!(app.input_mode(), AppState::EditMode);
    assert_eq!(app.input(), "ab");
    assert!(app.messages().is_empty());
}

#[test]
fn events_that_are_no_key_press_change_nothing() {
    let mut app = App::new();
    assert_eq!(app.handle_event(Event::Other), Signal::Continue);
    assert_eq!(app.input_mode(), AppState::Normal);
    assert_eq!(app.handle_event(Event::Key(Key::Char('e'))), Signal::Continue);
    assert_eq!(app.handle_event(Event::Key(Key::Char('a'))), Signal::Continue);
    assert_eq!(app.handle_event(Event::Other), Signal::Continue);
    assert_eq!(app.input_mode(), AppState::EditMode);
    assert_eq!(app.input(), "a");
    assert!(app.messages().is_empty());
    let events = vec![Event::Other, Event::Key(Key::Esc), Event::Other, Event::Key(Key::Char('q'))];
    assert_eq!(run_app(&mut app, &events), Some(3));
}
