use rrss::app::{App, SelectedPane};
use rrss::model::{Channel, Item};
use rrss::screen::{
    centered_parts, channel_titles, compose, get_border_type, header_text, item_titles,
    screen_with, BorderKind, DEFAULT_ITEMS_TEXT, HEADER_TEXT, POPUP_HEIGHT, POPUP_WIDTH,
};

fn entry(title: Option<&str>, description: Option<&str>) -> Item {
    Item {
        title: title.map(|t| vec![t.to_string()]),
        link: None,
        description: description.map(|s| s.to_string()),
        enclosure: None,
        pub_date: None,
    }
}

fn app() -> App {
    App::from(vec![
        Channel {
            title: "A".to_string(),
            items: vec![
                entry(Some("a1"), Some("<p>Fish &amp; chips</p>")),
                entry(None, None),
                entry(Some("a3"), Some("plain")),
            ],
            ..Default::default()
        },
        Channel { title: "B".to_string(), ..Default::default() },
    ])
}

#[test]
fn header_names_the_keys_of_the_focused_pane() {
    assert_eq!(
        HEADER_TEXT,
        "RRSS rss reader\n        [R]efresh channnel | [S]ave channels | [A]dd channel"
    );
    assert_eq!(header_text(SelectedPane::Channels), HEADER_TEXT);
    assert_eq!(
        header_text(SelectedPane::Items),
        "RRSS rss reader\n        [R]efresh channnel | [S]ave channels | [A]dd channel | [O]pen | [D]ownload "
    );
}

#[test]
fn border_is_thick_on_the_focused_pane() {
    assert!(get_border_type(true) == BorderKind::Thick);
    assert!(get_border_type(false) == BorderKind::Plain);
}

#[test]
fn centered_parts_of_a_popup() {
    assert_eq!(POPUP_WIDTH, 80);
    assert_eq!(POPUP_HEIGHT, 10);
    assert_eq!(centered_parts(80), (10, 80, 10));
    assert_eq!(centered_parts(10), (45, 10, 45));
    assert_eq!(centered_parts(0), (50, 0, 50));
    assert_eq!(centered_parts(100), (0, 100, 0));
    assert_eq!(centered_parts(75), (12, 75, 12));
}

#[test]
fn channel_pane_lists_the_titles() {
    assert_eq!(channel_titles(&app()), vec!["A", "B"]);
    assert!(channel_titles(&App::from(Vec::new())).is_empty());
}

#[test]
fn item_pane_without_a_selected_channel() {
    assert_eq!(DEFAULT_ITEMS_TEXT, "We are default items");
    assert_eq!(item_titles(&app()), vec!["We are default items"]);
}

#[test]
fn item_pane_lists_the_current_items() {
    let mut app = app();
    app.select_down_channels();
    assert!(item_titles(&app).is_empty());
    app.prepare_items();
    assert_eq!(item_titles(&app), vec!["a1", "None", "a3"]);
}

#[test]
fn first_frame() {
    let mut app = app();
    let screen = compose(&mut app).unwrap();
    assert_eq!(screen.header, HEADER_TEXT);
    assert!(screen.channels_border == BorderKind::Thick);
    assert!(screen.items_border == BorderKind::Plain);
    assert_eq!(screen.channel_titles, vec!["A", "B"]);
    assert_eq!(screen.item_titles, vec!["We are default items"]);
    assert_eq!(screen.content, "Nothing to display");
    assert_eq!(screen.info_popup, None);
    assert!(!screen.dialog_open);
    assert!(app.construct_items);
}

#[test]
fn frame_brings_the_items_up_to_date() {
    let mut app = app();
    app.select_down_channels();
    assert!(app.construct_items);
    let screen = compose(&mut app).unwrap();
    assert!(!app.construct_items);
    assert_eq!(screen.item_titles, vec!["a1", "None", "a3"]);
    assert_eq!(screen.content, "Nothing to display");
    assert_eq!(app.channels.state.selected(), Some(0));
    assert_eq!(app.current_items.state.selected(), None);
}

#[test]
fn frame_after_frame_is_the_same() {
    let mut app = app();
    app.select_down_channels();
    compose(&mut app).unwrap();
    app.change_selected_pane();
    app.select_down_items();
    let first = compose(&mut app).unwrap();
    let second = compose(&mut app).unwrap();
    assert_eq!(first.header, second.header);
    assert_eq!(first.channel_titles, second.channel_titles);
    assert_eq!(first.item_titles, second.item_titles);
    assert_eq!(first.content, second.content);
    assert_eq!(app.current_items.state.selected(), Some(0));
    assert_eq!(app.channels.state.selected(), Some(0));
    assert!(!app.construct_items);
}

#[test]
fn content_is_shown_as_plain_text() {
    let mut app = app();
    app.select_down_channels();
    compose(&mut app).unwrap();
    app.change_selected_pane();
    app.select_down_items();
    let screen = compose(&mut app).unwrap();
    assert_eq!(screen.content, "Fish & chips");
    assert!(screen.items_border == BorderKind::Thick);
    assert!(screen.channels_border == BorderKind::Plain);
    assert!(screen.header.ends_with(" | [O]pen | [D]ownload "));
    app.select_down_items();
    assert_eq!(compose(&mut app).unwrap().content, "Nothing to display");
    app.select_down_items();
    assert_eq!(compose(&mut app).unwrap().content, "plain");
}

#[test]
fn popup_and_dialog_show_on_the_frame() {
    let mut app = app();
    app.info_popup_text = Some("Reloading...".to_string());
    app.show_add_channel_dialog();
    let screen = compose(&mut app).unwrap();
    assert_eq!(screen.info_popup.as_deref(), Some("Reloading..."));
    assert!(screen.dialog_open);
    let screen = screen_with(&app, "given".to_string());
    assert_eq!(screen.content, "given");
    assert_eq!(screen.info_popup.as_deref(), Some("Reloading..."));
    assert_eq!(screen.channel_titles, vec!["A", "B"]);
}
