use feedctl::app::App;
use feedctl::item::Item;

fn entry(title: Option<&str>, published_at: Option<i64>) -> Item {
    Item {
        title: title.map(|t| t.to_string()),
        url: None,
        channel: "chan".to_string(),
        description: None,
        published_at,
        retrieved_at: 0,
        read: false,
        starred: false,
    }
}

fn three_titles() -> Vec<Item> {
    vec![
        entry(Some("Alpha release"), Some(300)),
        entry(Some("Beta notes"), Some(200)),
        entry(Some("alpha testing"), Some(100)),
    ]
}

#[test]
fn case_insensitive_search_finds_both_alphas() {
    let mut app = App::new();
    app.load_items(three_titles());
    let q = app
        .build_query(&"alpha".to_string())
        .expect("well-formed pattern");
    app.execute_search(&q);
    assert_eq!(app.search_results, vec![0, 2]);
}

#[test]
fn jump_cycle_over_matches() {
    let mut app = App::new();
    app.load_items(three_titles());
    let q = app
        .build_query(&"alpha".to_string())
        .expect("well-formed pattern");
    app.execute_search(&q);

    assert_eq!(app.table.selected(), None);
    app.jump_to_next_result();
    assert_eq!(app.table.selected(), Some(0));
    app.jump_to_next_result();
    assert_eq!(app.table.selected(), Some(2));
    app.jump_to_next_result();
    assert_eq!(app.table.selected(), Some(0));
}

#[test]
fn jumps_are_mutual_inverses_on_matches() {
    let mut app = App::new();
    app.load_items(three_titles());
    let q = app
        .build_query(&"alpha".to_string())
        .expect("well-formed pattern");
    app.execute_search(&q);

    app.jump_to_next_result();
    assert_eq!(app.table.selected(), Some(0));
    app.jump_to_next_result();
    app.jump_to_prev_result();
    assert_eq!(app.table.selected(), Some(0));
    app.jump_to_prev_result();
    app.jump_to_next_result();
    assert_eq!(app.table.selected(), Some(0));
}

#[test]
fn jumps_without_matches_do_nothing() {
    let mut app = App::new();
    app.load_items(three_titles());
    app.jump_to_next_result();
    assert_eq!(app.table.selected(), None);
    app.jump_to_prev_result();
    assert_eq!(app.table.selected(), None);
}

#[test]
fn untitled_items_never_match() {
    let mut app = App::new();
    app.load_items(vec![
        entry(None, Some(300)),
        entry(Some("anything goes"), Some(200)),
        entry(None, Some(100)),
    ]);
    let q = app.build_query(&".*".to_string()).expect("well-formed pattern");
    app.execute_search(&q);
    assert_eq!(app.search_results, vec![1]);
}

#[test]
fn malformed_pattern_is_reported_not_hidden() {
    let app = App::new();
    assert!(app.build_query(&"(unclosed".to_string()).is_none());
    assert!(app.build_query(&"a|b".to_string()).is_some());
}

#[test]
fn metacharacters_are_a_pattern_not_a_literal() {
    let mut app = App::new();
    app.load_items(vec![
        entry(Some("Alpha release"), Some(300)),
        entry(Some("Beta notes"), Some(200)),
    ]);
    let q = app
        .build_query(&"alpha|beta".to_string())
        .expect("well-formed pattern");
    app.execute_search(&q);
    assert_eq!(app.search_results, vec![0, 1]);
}
