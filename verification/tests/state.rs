use feedctl::app::App;
use feedctl::item::{FlagWrite, Item};

fn entry(title: &str, published_at: Option<i64>) -> Item {
    Item {
        title: Some(title.to_string()),
        url: None,
        channel: "chan".to_string(),
        description: None,
        published_at,
        retrieved_at: 0,
        read: false,
        starred: false,
    }
}

#[test]
fn load_sorts_newest_first_with_missing_dates_oldest() {
    let mut app = App::new();
    app.load_items(vec![
        entry("hundred", Some(100)),
        entry("none", None),
        entry("two_hundred", Some(200)),
        entry("fifty", Some(50)),
    ]);
    let titles: Vec<&str> = app
        .items
        .iter()
        .map(|i| i.title.as_deref().unwrap())
        .collect();
    assert_eq!(titles, vec!["two_hundred", "hundred", "fifty", "none"]);
}

#[test]
fn empty_load_leaves_a_calm_session() {
    let mut app = App::new();
    app.load_items(Vec::new());
    assert_eq!(app.table.selected(), None);
    assert!(app.search_results.is_empty());
    // every navigation call is a total no-op, no panic
    assert_eq!(app.scroll_items_down(), None);
    assert_eq!(app.scroll_items_up(), None);
    assert_eq!(app.page_items_down(), None);
    assert_eq!(app.page_items_up(), None);
    app.jump_to_next_result();
    app.jump_to_prev_result();
    assert_eq!(app.table.selected(), None);
    assert_eq!(app.open_selected(), None);
}

#[test]
fn reload_invalidates_selection_results_and_marks() {
    let mut app = App::new();
    app.load_items(vec![
        entry("a", Some(3)),
        entry("b", Some(2)),
        entry("c", Some(1)),
    ]);
    let q = app.build_query(&"a|b|c".to_string()).unwrap();
    app.execute_search(&q);
    assert_eq!(app.search_results.len(), 3);
    app.scroll_items_down();
    app.toggle_selected_mark();
    assert_eq!(app.marked, vec![0]);

    app.load_items(vec![entry("only", Some(9))]);
    assert!(app.search_results.is_empty());
    assert!(app.marked.is_empty());
    assert_eq!(app.table.selected(), Some(0));

    app.load_items(Vec::new());
    assert_eq!(app.table.selected(), None);
}

#[test]
fn marking_read_is_idempotent_but_writes_every_call() {
    let mut app = App::new();
    app.load_items(vec![entry("one", Some(1))]);
    let w0 = app.scroll_items_down();
    assert_eq!(w0, Some(FlagWrite { index: 0, read: true }));
    assert!(app.items[0].read);

    // write-through happens on every call, not only on change
    let w1 = app.mark_selected_read();
    assert_eq!(w1, Some(FlagWrite { index: 0, read: true }));
    let w2 = app.mark_selected_read();
    assert_eq!(w2, Some(FlagWrite { index: 0, read: true }));
    assert!(app.items[0].read);

    let w3 = app.mark_selected_unread();
    assert_eq!(w3, Some(FlagWrite { index: 0, read: false }));
    assert!(!app.items[0].read);
}

#[test]
fn moving_onto_an_item_marks_it_read() {
    let mut app = App::new();
    app.load_items(vec![entry("a", Some(2)), entry("b", Some(1))]);
    assert!(!app.items[0].read);
    let w = app.scroll_items_down();
    assert_eq!(app.table.selected(), Some(0));
    assert!(app.items[0].read);
    assert_eq!(w, Some(FlagWrite { index: 0, read: true }));
    app.scroll_items_down();
    assert!(app.items[1].read);
}

#[test]
fn marks_toggle_and_clear() {
    let mut app = App::new();
    app.load_items(vec![entry("a", Some(2)), entry("b", Some(1))]);
    app.toggle_selected_mark();
    assert!(app.marked.is_empty(), "no selection, no mark");
    app.scroll_items_down();
    app.toggle_selected_mark();
    assert_eq!(app.marked, vec![0]);
    app.toggle_selected_mark();
    assert!(app.marked.is_empty());
    app.toggle_selected_mark();
    app.scroll_items_down();
    app.toggle_selected_mark();
    assert_eq!(app.marked.len(), 2);
    app.clear_marked();
    assert!(app.marked.is_empty());
}

#[test]
fn open_selected_hands_out_the_url() {
    let mut app = App::new();
    let mut with_url = entry("a", Some(2));
    with_url.url = Some("https://example.org/a".to_string());
    app.load_items(vec![with_url, entry("b", Some(1))]);
    assert_eq!(app.open_selected(), None);
    app.scroll_items_down();
    assert_eq!(app.open_selected(), Some("https://example.org/a".to_string()));
    app.scroll_items_down();
    assert_eq!(app.open_selected(), None, "item without url");
}

#[test]
fn reader_scroll_moves_and_resets() {
    let mut app = App::new();
    app.load_items(vec![entry("a", Some(2)), entry("b", Some(1))]);
    app.scroll_items_down();
    app.scroll_reader_down();
    app.scroll_reader_down();
    assert_eq!(app.reader_scroll, 2);
    app.scroll_reader_up();
    assert_eq!(app.reader_scroll, 1);
    app.scroll_items_down();
    assert_eq!(app.reader_scroll, 0, "selection change rewinds the pane");
    app.scroll_reader_up();
    assert_eq!(app.reader_scroll, 0, "stops at the top");
}

#[test]
fn focus_reader_is_a_pure_toggle() {
    let mut app = App::new();
    assert!(!app.focus_reader);
    app.toggle_focus_reader();
    assert!(app.focus_reader);
    app.toggle_focus_reader();
    assert!(!app.focus_reader);
}
