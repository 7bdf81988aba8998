use feedctl::app::{App, InputMode, Status};
use feedctl::events::{handle_event, Action, Event, Key, KeyGate};
use feedctl::item::Item;

fn entry(title: &str, published_at: Option<i64>) -> Item {
    Item {
        title: Some(title.to_string()),
        url: None,
        channel: "chan".to_string(),
        description: None,
        published_at,
        retrieved_at: 0,
        read: false,
        starred: false,
    }
}

#[test]
fn exit_key_quits_in_normal_mode() {
    let mut app = App::new();
    let mut gate = KeyGate::new('q');
    let r = handle_event(&mut app, &mut gate, Event::Input(Key::Char('q')));
    assert_eq!(r, Action::Quit);
}

#[test]
fn exit_key_disabled_in_search_mode_is_literal_text() {
    let mut app = App::new();
    let mut gate = KeyGate::new('q');

    let r = handle_event(&mut app, &mut gate, Event::Input(Key::Char('/')));
    assert_eq!(r, Action::Continue);
    assert_eq!(app.input_mode, InputMode::Search);
    assert!(!gate.exit_enabled);

    let r = handle_event(&mut app, &mut gate, Event::Input(Key::Char('q')));
    assert_eq!(r, Action::Continue, "exit key must not quit while searching");
    assert_eq!(app.search_input_raw, "q");

    let r = handle_event(&mut app, &mut gate, Event::Input(Key::Esc));
    assert_eq!(r, Action::Continue);
    assert_eq!(app.input_mode, InputMode::Normal);
    assert!(gate.exit_enabled);
    assert_eq!(app.search_input_raw, "");

    let r = handle_event(&mut app, &mut gate, Event::Input(Key::Char('q')));
    assert_eq!(r, Action::Quit);
}

#[test]
fn search_is_typed_committed_and_highlighted() {
    let mut app = App::new();
    let mut gate = KeyGate::new('q');
    app.load_items(vec![
        entry("Alpha release", Some(300)),
        entry("Beta notes", Some(200)),
        entry("alpha testing", Some(100)),
    ]);

    handle_event(&mut app, &mut gate, Event::Input(Key::Char('/')));
    for c in "alpha".chars() {
        handle_event(&mut app, &mut gate, Event::Input(Key::Char(c)));
    }
    assert_eq!(app.search_input_raw, "alpha");
    assert!(app.search_input.is_some(), "live preview compiled");

    let r = handle_event(&mut app, &mut gate, Event::Input(Key::Char('\n')));
    assert_eq!(r, Action::Continue);
    assert_eq!(app.input_mode, InputMode::Normal);
    assert!(gate.exit_enabled, "leaving search re-arms the exit key");
    assert!(app.search_query.is_some());
    assert_eq!(app.search_results, vec![0, 2]);
    assert_eq!(app.search_input_raw, "");

    let r = handle_event(&mut app, &mut gate, Event::Input(Key::Char('n')));
    assert_eq!(r, Action::Continue);
    assert_eq!(app.table.selected(), Some(0));
}

#[test]
fn backspace_edits_the_live_query() {
    let mut app = App::new();
    let mut gate = KeyGate::new('q');
    handle_event(&mut app, &mut gate, Event::Input(Key::Char('/')));
    handle_event(&mut app, &mut gate, Event::Input(Key::Char('a')));
    handle_event(&mut app, &mut gate, Event::Input(Key::Char('b')));
    assert_eq!(app.search_input_raw, "ab");
    handle_event(&mut app, &mut gate, Event::Input(Key::Backspace));
    assert_eq!(app.search_input_raw, "a");
    handle_event(&mut app, &mut gate, Event::Input(Key::Backspace));
    handle_event(&mut app, &mut gate, Event::Input(Key::Backspace));
    assert_eq!(app.search_input_raw, "", "backspace on empty text is a no-op");
}

#[test]
fn malformed_live_pattern_degrades_to_no_preview() {
    let mut app = App::new();
    let mut gate = KeyGate::new('q');
    handle_event(&mut app, &mut gate, Event::Input(Key::Char('/')));
    handle_event(&mut app, &mut gate, Event::Input(Key::Char('(')));
    assert_eq!(app.search_input_raw, "(");
    assert!(app.search_input.is_none(), "no live highlighting, no crash");
    // committing the malformed pattern keeps the previous query
    let r = handle_event(&mut app, &mut gate, Event::Input(Key::Char('\n')));
    assert_eq!(r, Action::Continue);
    assert_eq!(app.input_mode, InputMode::Normal);
    assert!(app.search_query.is_none());
}

#[test]
fn sync_lifecycle_flips_status_and_asks_for_reload() {
    let mut app = App::new();
    let mut gate = KeyGate::new('q');
    let r = handle_event(&mut app, &mut gate, Event::Updating);
    assert_eq!(r, Action::Continue);
    assert_eq!(app.status, Status::Updating);
    let r = handle_event(&mut app, &mut gate, Event::Updated);
    assert_eq!(r, Action::Reload);
    assert_eq!(app.status, Status::Idle);
}

#[test]
fn navigation_keys_hand_out_the_storage_write() {
    let mut app = App::new();
    let mut gate = KeyGate::new('q');
    app.load_items(vec![entry("a", Some(2)), entry("b", Some(1))]);
    let r = handle_event(&mut app, &mut gate, Event::Input(Key::Char('j')));
    match r {
        Action::StoreRead(w) => {
            assert_eq!(w.index, 0);
            assert!(w.read);
        }
        other => panic!("expected a storage write, got {:?}", other),
    }
    assert_eq!(app.table.selected(), Some(0));
    let r = handle_event(&mut app, &mut gate, Event::Input(Key::Char('u')));
    match r {
        Action::StoreRead(w) => {
            assert_eq!(w.index, 0);
            assert!(!w.read);
        }
        other => panic!("expected a storage write, got {:?}", other),
    }
    assert!(!app.items[0].read);
}

#[test]
fn open_key_hands_out_the_url() {
    let mut app = App::new();
    let mut gate = KeyGate::new('q');
    let mut it = entry("a", Some(1));
    it.url = Some("https://example.org".to_string());
    app.load_items(vec![it]);
    handle_event(&mut app, &mut gate, Event::Input(Key::Char('j')));
    let r = handle_event(&mut app, &mut gate, Event::Input(Key::Char('o')));
    assert_eq!(r, Action::OpenUrl("https://example.org".to_string()));
}

#[test]
fn page_keys_move_by_a_page() {
    let mut app = App::new();
    let mut gate = KeyGate::new('q');
    let items: Vec<Item> = (0..12)
        .map(|n| entry(&format!("t{}", n), Some(100 - n as i64)))
        .collect();
    app.load_items(items);
    handle_event(&mut app, &mut gate, Event::Input(Key::Char('j')));
    assert_eq!(app.table.selected(), Some(0));
    handle_event(&mut app, &mut gate, Event::Input(Key::Ctrl('d')));
    assert_eq!(app.table.selected(), Some(5));
    handle_event(&mut app, &mut gate, Event::Input(Key::Ctrl('u')));
    assert_eq!(app.table.selected(), Some(0));
}
