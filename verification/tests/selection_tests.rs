use rrss::model::{Channel, Item};
use rrss::selection::{step_down, step_up, ListCursor, StatefulChannelList, StatefulItemList};

fn titled(title: &str) -> Channel {
    Channel { title: title.to_string(), ..Default::default() }
}

fn entry(title: &str) -> Item {
    Item {
        title: Some(vec![title.to_string()]),
        link: None,
        description: None,
        enclosure: None,
        pub_date: None,
    }
}

#[test]
fn step_on_an_empty_list_changes_nothing() {
    assert_eq!(step_down(0, None), None);
    assert_eq!(step_up(0, None), None);
    assert_eq!(step_down(0, Some(3)), Some(3));
    assert_eq!(step_up(0, Some(3)), Some(3));
}

#[test]
fn step_from_an_unset_cursor() {
    for len in 1..6usize {
        assert_eq!(step_down(len, None), Some(0));
        assert_eq!(step_up(len, None), Some(len - 1));
    }
}

#[test]
fn step_wraps_at_both_ends() {
    assert_eq!(step_down(3, Some(0)), Some(1));
    assert_eq!(step_down(3, Some(1)), Some(2));
    assert_eq!(step_down(3, Some(2)), Some(0));
    assert_eq!(step_up(3, Some(2)), Some(1));
    assert_eq!(step_up(3, Some(1)), Some(0));
    assert_eq!(step_up(3, Some(0)), Some(2));
    assert_eq!(step_down(1, Some(0)), Some(0));
    assert_eq!(step_up(1, Some(0)), Some(0));
}

#[test]
fn step_brings_a_stray_cursor_back_into_the_list() {
    assert_eq!(step_down(3, Some(7)), Some(0));
    assert_eq!(step_up(3, Some(7)), Some(2));
    assert_eq!(step_down(3, Some(usize::MAX)), Some(0));
    assert_eq!(step_up(3, Some(usize::MAX)), Some(2));
}

#[test]
fn as_many_steps_as_elements_come_back_to_the_start() {
    for len in 1..7usize {
        for start in 0..len {
            let mut down = Some(start);
            let mut up = Some(start);
            for _ in 0..len {
                down = step_down(len, down);
                up = step_up(len, up);
            }
            assert_eq!(down, Some(start));
            assert_eq!(up, Some(start));
        }
    }
}

#[test]
fn a_full_round_from_an_unset_cursor_ends_on_an_element() {
    let mut down = None;
    let mut up = None;
    for _ in 0..4 {
        down = step_down(4, down);
        up = step_up(4, up);
    }
    assert_eq!(down, Some(3));
    assert_eq!(up, Some(0));
}

#[test]
fn list_cursor_select_and_offset() {
    let mut cursor = ListCursor::default();
    assert_eq!(cursor.selected(), None);
    assert_eq!(cursor.offset, 0);
    cursor = cursor.with_offset(4);
    assert_eq!(cursor.offset, 4);
    cursor.select(Some(2));
    assert_eq!(cursor.selected(), Some(2));
    assert_eq!(cursor.offset, 4);
    cursor.select(None);
    assert_eq!(cursor.selected(), None);
    assert_eq!(cursor.offset, 0);
}

#[test]
fn merge_without_a_cursor_appends() {
    let mut list = StatefulChannelList::default();
    list.channels = vec![titled("A"), titled("B")];
    list.update_selected_channel(&titled("C"));
    assert_eq!(list.channels.len(), 3);
    assert_eq!(list.channels[0].title, "A");
    assert_eq!(list.channels[1].title, "B");
    assert_eq!(list.channels[2].title, "C");
    assert_eq!(list.state.selected(), None);
}

#[test]
fn merge_at_the_cursor_replaces_that_slot_only() {
    let mut list = StatefulChannelList::default();
    list.channels = vec![titled("A"), titled("B"), titled("C")];
    list.state.select(Some(1));
    list.update_selected_channel(&titled("fresh"));
    assert_eq!(list.channels.len(), 3);
    assert_eq!(list.channels[0].title, "A");
    assert_eq!(list.channels[1].title, "fresh");
    assert_eq!(list.channels[2].title, "C");
    assert_eq!(list.state.selected(), Some(1));
}

#[test]
fn merge_at_a_stale_cursor_is_dropped() {
    let mut list = StatefulChannelList::default();
    list.channels = vec![titled("A")];
    list.state.select(Some(5));
    list.update_selected_channel(&titled("late"));
    assert_eq!(list.channels.len(), 1);
    assert_eq!(list.channels[0].title, "A");
    assert_eq!(list.state.selected(), Some(5));
}

#[test]
fn merge_at_a_given_index() {
    let mut list = StatefulChannelList::default();
    list.channels = vec![titled("A"), titled("B")];
    list.state.select(Some(0));
    list.update_channel_at(Some(1), &titled("B2"));
    assert_eq!(list.channels[0].title, "A");
    assert_eq!(list.channels[1].title, "B2");
    list.update_channel_at(Some(2), &titled("late"));
    assert_eq!(list.channels.len(), 2);
    list.update_channel_at(None, &titled("C"));
    assert_eq!(list.channels.len(), 3);
    assert_eq!(list.channels[2].title, "C");
    assert_eq!(list.state.selected(), Some(0));
}

#[test]
fn item_list_of_a_channel() {
    let mut channel = titled("A");
    channel.items = vec![entry("one"), entry("two"), entry("three")];
    let list = StatefulItemList::from(&channel);
    assert_eq!(list.items, channel.items);
    assert_eq!(list.state.selected(), None);
    assert_eq!(list.state.offset, 0);
    assert_eq!(list.last_selected, None);
    let empty = StatefulItemList::default();
    assert!(empty.items.is_empty());
    assert_eq!(empty.state.selected(), None);
}
