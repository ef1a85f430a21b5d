use tui_demo::panels::{gauge_label, gauge_percent, info_lines, list_rows};
use tui_demo::state::{App, Key};

fn press(app: &mut App, key: Key) {
    app.handle_key(key);
}

#[test]
fn starts_with_five_items() {
    let app = App::new();
    assert_eq!(app.counter(), 0);
    assert!(!app.should_quit());
    assert_eq!(app.selected_index(), 0);
    assert_eq!(
        app.items(),
        &vec![
            "Item 1".to_string(),
            "Item 2".to_string(),
            "Item 3".to_string(),
            "Item 4".to_string(),
            "Item 5".to_string(),
        ]
    );
}

#[test]
fn navigate_delete_add_tick_quit() {
    let mut app = App::new();
    press(&mut app, Key::Down);
    press(&mut app, Key::Down);
    assert_eq!(app.selected_index(), 2);
    press(&mut app, Key::Char('d'));
    assert_eq!(app.items().len(), 4);
    assert!(!app.items().contains(&"Item 3".to_string()));
    assert_eq!(app.selected_index(), 2);
    assert_eq!(app.items()[2], "Item 4");
    press(&mut app, Key::Char('a'));
    assert_eq!(app.items().len(), 5);
    assert_eq!(app.items()[4], "New Item 5");
    press(&mut app, Key::Char(' '));
    press(&mut app, Key::Char(' '));
    press(&mut app, Key::Char(' '));
    assert_eq!(app.counter(), 3);
    assert!(!app.should_quit());
    let keep_running = app.handle_event(Some(Key::Char('q')));
    assert!(!keep_running);
    assert!(app.should_quit());
}

#[test]
fn delete_last_remaining_item() {
    let mut app = App::new();
    for _ in 0..4 {
        press(&mut app, Key::Char('d'));
    }
    assert_eq!(app.items().len(), 1);
    assert_eq!(app.selected_index(), 0);
    press(&mut app, Key::Char('d'));
    assert_eq!(app.items().len(), 0);
    assert_eq!(app.selected_index(), 0);
    assert!(list_rows(&app).is_empty());
    assert_eq!(info_lines(&app)[2], "Items: 0");
    press(&mut app, Key::Char('d'));
    press(&mut app, Key::Down);
    press(&mut app, Key::Up);
    assert_eq!(app.items().len(), 0);
    assert_eq!(app.selected_index(), 0);
    press(&mut app, Key::Char('a'));
    assert_eq!(app.items(), &vec!["New Item 1".to_string()]);
    assert_eq!(app.selected_index(), 0);
}

#[test]
fn up_at_first_item_stays() {
    let mut app = App::new();
    press(&mut app, Key::Up);
    assert_eq!(app.selected_index(), 0);
}

#[test]
fn down_at_last_item_stays() {
    let mut app = App::new();
    for _ in 0..10 {
        press(&mut app, Key::Down);
    }
    assert_eq!(app.selected_index(), 4);
    press(&mut app, Key::Down);
    assert_eq!(app.selected_index(), 4);
    press(&mut app, Key::Up);
    assert_eq!(app.selected_index(), 3);
}

#[test]
fn delete_at_last_index_moves_selection_back() {
    let mut app = App::new();
    for _ in 0..4 {
        press(&mut app, Key::Down);
    }
    press(&mut app, Key::Char('d'));
    assert_eq!(app.items().len(), 4);
    assert_eq!(app.selected_index(), 3);
    assert_eq!(app.items()[3], "Item 4");
}

#[test]
fn delete_in_middle_keeps_selection() {
    let mut app = App::new();
    press(&mut app, Key::Down);
    press(&mut app, Key::Char('d'));
    assert_eq!(app.selected_index(), 1);
    assert_eq!(app.items()[1], "Item 3");
}

#[test]
fn add_appends_distinct_labels() {
    let mut app = App::new();
    press(&mut app, Key::Down);
    press(&mut app, Key::Char('a'));
    press(&mut app, Key::Char('a'));
    assert_eq!(app.items().len(), 7);
    assert_eq!(app.selected_index(), 1);
    assert_eq!(app.items()[5], "New Item 6");
    assert_eq!(app.items()[6], "New Item 7");
    for _ in 0..5 {
        press(&mut app, Key::Char('a'));
    }
    assert_eq!(app.items()[11], "New Item 12");
    let mut labels = app.items().clone();
    labels.sort();
    labels.dedup();
    assert_eq!(labels.len(), 12);
}

#[test]
fn escape_quits() {
    let mut app = App::new();
    press(&mut app, Key::Esc);
    assert!(app.should_quit());
}

#[test]
fn other_keys_do_nothing() {
    let mut app = App::new();
    press(&mut app, Key::Down);
    for key in [Key::Other, Key::Char('x'), Key::Char('Q'), Key::Char('A')] {
        press(&mut app, key);
    }
    assert_eq!(app.counter(), 0);
    assert!(!app.should_quit());
    assert_eq!(app.selected_index(), 1);
    assert_eq!(app.items().len(), 5);
    assert!(app.handle_event(None));
    assert_eq!(app.selected_index(), 1);
}

#[test]
fn counter_saturates() {
    let mut app = App::new();
    let mut last = app.counter();
    for _ in 0..300 {
        app.tick();
        assert!(app.counter() >= last);
        last = app.counter();
    }
    assert_eq!(app.counter(), 255);
    press(&mut app, Key::Char(' '));
    assert_eq!(app.counter(), 255);
}

#[test]
fn list_rows_mark_the_selection() {
    let mut app = App::new();
    press(&mut app, Key::Down);
    let rows = list_rows(&app);
    assert_eq!(rows.len(), 5);
    assert_eq!(rows[0].marker, "  ");
    assert_eq!(rows[0].label, "Item 1");
    assert!(!rows[0].highlighted);
    assert_eq!(rows[1].marker, "> ");
    assert_eq!(rows[1].label, "Item 2");
    assert!(rows[1].highlighted);
}

#[test]
fn info_lines_show_counts() {
    let mut app = App::new();
    press(&mut app, Key::Down);
    press(&mut app, Key::Down);
    for _ in 0..42 {
        app.tick();
    }
    assert_eq!(
        info_lines(&app),
        vec!["Counter: 42".to_string(), "Selected: 2".to_string(), "Items: 5".to_string()]
    );
}

#[test]
fn gauge_is_capped_at_full() {
    assert_eq!(gauge_percent(0), 0);
    assert_eq!(gauge_percent(29), 29);
    assert_eq!(gauge_percent(100), 100);
    assert_eq!(gauge_percent(101), 100);
    assert_eq!(gauge_percent(255), 100);
    assert_eq!(gauge_label(7), "7%");
    assert_eq!(gauge_label(29), "29%");
    assert_eq!(gauge_label(200), "100%");
}
