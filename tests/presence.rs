use deskchat::search::matches_lowered;
use deskchat::ui::{ChatCarousel, ChatSwitcher, Room, UIState};

fn room(id: &str, name: &str, last: Option<&str>, unread: u32) -> Room {
    Room {
        id: id.to_string(),
        name: name.to_string(),
        avatar_url: None,
        last_message: last.map(|m| m.to_string()),
        unread_count: unread,
    }
}

fn ids(c: &ChatCarousel) -> Vec<String> {
    c.avatars.iter().map(|a| a.room_id.clone()).collect()
}

fn filtered_ids(s: &ChatSwitcher) -> Vec<String> {
    s.filtered_rooms.iter().map(|r| r.id.clone()).collect()
}

#[test]
fn avatars_follow_the_snapshot() {
    let mut c = ChatCarousel::new();
    let mut a = room("a", "A", None, 2);
    a.avatar_url = Some("mxc://a".to_string());
    c.update_avatars(&[a, room("b", "B", None, 0), room("c", "C", None, 0)]);
    assert_eq!(ids(&c), vec!["a", "b", "c"]);
    assert!(c.avatars[0].has_unread);
    assert!(!c.avatars[1].has_unread);
    assert_eq!(c.avatars[0].url, Some("mxc://a".to_string()));
    assert_eq!(c.avatars[2].display_name, "C");
}

#[test]
fn rebuild_replaces_all_avatars() {
    let mut c = ChatCarousel::new();
    c.update_avatars(&[room("a", "A", None, 0), room("b", "B", None, 0), room("c", "C", None, 0)]);
    c.animate_new_message("c");
    c.update_avatars(&[room("d", "D", None, 0)]);
    assert_eq!(ids(&c), vec!["d"]);
    c.update_avatars(&[]);
    assert!(c.avatars.is_empty());
}

#[test]
fn new_message_moves_avatar_to_front() {
    let mut c = ChatCarousel::new();
    c.update_avatars(&[room("a", "A", None, 0), room("b", "B", None, 0), room("c", "C", None, 0)]);
    c.animate_new_message("b");
    assert_eq!(ids(&c), vec!["b", "a", "c"]);
    assert!(c.avatars[0].has_unread);
    assert!(!c.avatars[1].has_unread);
    c.animate_new_message("b");
    assert_eq!(ids(&c), vec!["b", "a", "c"]);
}

#[test]
fn new_message_for_absent_room_changes_nothing() {
    let mut c = ChatCarousel::new();
    c.update_avatars(&[room("a", "A", None, 0), room("b", "B", None, 0)]);
    c.animate_new_message("zz");
    assert_eq!(ids(&c), vec!["a", "b"]);
    assert!(!c.avatars[0].has_unread && !c.avatars[1].has_unread);
    let mut empty = ChatCarousel::new();
    empty.animate_new_message("a");
    assert!(empty.avatars.is_empty());
}

#[test]
fn filter_disabled_keeps_avatars_and_records_desktop() {
    let mut c = ChatCarousel::new();
    c.update_avatars(&[room("a", "A", None, 0), room("b", "B", None, 0)]);
    c.filter_by_desktop(5, &[]);
    assert_eq!(ids(&c), vec!["a", "b"]);
    assert_eq!(c.active_desktop, 5);
    assert!(!c.filtered_by_desktop);
}

#[test]
fn filter_enabled_keeps_listed_rooms_in_order() {
    let mut c = ChatCarousel::new();
    c.filtered_by_desktop = true;
    c.update_avatars(&[room("a", "A", None, 0), room("b", "B", None, 0), room("c", "C", None, 0)]);
    c.filter_by_desktop(2, &["c".to_string(), "a".to_string(), "x".to_string()]);
    assert_eq!(ids(&c), vec!["a", "c"]);
    assert_eq!(c.active_desktop, 2);
}

#[test]
fn filter_enabled_with_no_rooms_clears() {
    let mut c = ChatCarousel::new();
    c.filtered_by_desktop = true;
    c.update_avatars(&[room("a", "A", None, 0), room("b", "B", None, 0)]);
    c.filter_by_desktop(1, &[]);
    assert!(c.avatars.is_empty());
    assert_eq!(c.active_desktop, 1);
}

#[test]
fn search_matches_name_or_last_message() {
    let rooms = vec![room("r1", "Alpha", None, 0), room("r2", "Beta", Some("alpha team sync"), 0)];
    let mut s = ChatSwitcher::new();
    s.update_search("alpha".to_string(), &rooms);
    assert_eq!(filtered_ids(&s), vec!["r1", "r2"]);
    assert_eq!(s.selected_index, 0);
    assert_eq!(s.search_query, "alpha");
}

#[test]
fn search_ignores_case() {
    let rooms = vec![
        room("r1", "alpha", None, 0),
        room("r2", "Beta", Some("ALPHA team"), 0),
        room("r3", "Gamma", None, 0),
    ];
    let mut s = ChatSwitcher::new();
    s.update_search("ALPHA".to_string(), &rooms);
    assert_eq!(filtered_ids(&s), vec!["r1", "r2"]);
    s.update_search("gAm".to_string(), &rooms);
    assert_eq!(filtered_ids(&s), vec!["r3"]);
}

#[test]
fn search_without_match_is_empty() {
    let rooms = vec![room("r1", "Alpha", None, 0), room("r2", "Beta", Some("hello"), 0)];
    let mut s = ChatSwitcher::new();
    s.update_search("zeta".to_string(), &rooms);
    assert!(s.filtered_rooms.is_empty());
    assert!(s.get_selected_room().is_none());
    s.update_search(String::new(), &rooms);
    assert_eq!(filtered_ids(&s), vec!["r1", "r2"]);
}

#[test]
fn search_resets_selection_every_time() {
    let rooms = vec![room("r1", "Alpha", None, 0), room("r2", "Alps", None, 0), room("r3", "Alto", None, 0)];
    let mut s = ChatSwitcher::new();
    s.update_search("al".to_string(), &rooms);
    s.select_next();
    s.select_next();
    assert_eq!(s.selected_index, 2);
    s.update_search("al".to_string(), &rooms);
    assert_eq!(s.selected_index, 0);
    assert_eq!(filtered_ids(&s), vec!["r1", "r2", "r3"]);
}

#[test]
fn selection_wraps_both_ways() {
    let rooms = vec![room("r1", "Alpha", None, 0), room("r2", "Alps", None, 0), room("r3", "Alto", None, 0)];
    let mut s = ChatSwitcher::new();
    s.update_search("al".to_string(), &rooms);
    s.selected_index = 2;
    s.select_next();
    assert_eq!(s.selected_index, 0);
    s.select_previous();
    assert_eq!(s.selected_index, 2);
    s.select_previous();
    assert_eq!(s.selected_index, 1);
    assert_eq!(s.get_selected_room().map(|r| r.id.clone()), Some("r2".to_string()));
}

#[test]
fn selection_on_empty_results_stays() {
    let mut s = ChatSwitcher::new();
    s.select_next();
    assert_eq!(s.selected_index, 0);
    s.select_previous();
    assert_eq!(s.selected_index, 0);
    assert!(s.get_selected_room().is_none());
}

#[test]
fn show_and_close_reset_the_switcher() {
    let rooms = vec![room("r1", "Alpha", None, 0), room("r2", "Alps", None, 0)];
    let mut s = ChatSwitcher::new();
    s.update_search("al".to_string(), &rooms);
    s.select_next();
    s.show(true);
    assert!(s.visible && s.global_search);
    assert!(s.search_query.is_empty());
    assert_eq!(s.selected_index, 0);
    s.close();
    assert!(!s.visible);
    assert!(s.search_query.is_empty());
    assert!(s.filtered_rooms.is_empty());
    assert_eq!(s.selected_index, 0);
}

#[test]
fn lowered_match_checks_name_then_message() {
    assert!(matches_lowered("lph", "alpha", None));
    assert!(!matches_lowered("zz", "alpha", Some("beta")));
    assert!(matches_lowered("eta", "alpha", Some("beta")));
    assert!(!matches_lowered("Alpha", "alpha", None));
    assert!(matches_lowered("", "", None));
}

#[test]
fn ui_state_tracks_room_and_focus() {
    let mut ui = UIState::new();
    assert!(ui.current_room.is_none());
    assert!(!ui.window_focused);
    assert!(ui.carousel.avatars.is_empty());
    assert!(!ui.switcher.visible);
    ui.update_current_room(Some("r1".to_string()));
    ui.set_window_focus(true);
    assert_eq!(ui.current_room, Some("r1".to_string()));
    assert!(ui.window_focused);
    ui.update_current_room(None);
    assert!(ui.current_room.is_none());
}

#[test]
fn cloned_room_is_equal_field_by_field() {
    let r = room("r9", "Nine", Some("hi"), 4);
    let c = r.clone();
    assert_eq!(c.id, "r9");
    assert_eq!(c.name, "Nine");
    assert_eq!(c.last_message, Some("hi".to_string()));
    assert_eq!(c.unread_count, 4);
}
