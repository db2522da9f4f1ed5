use clockify::api::tag::Tag;
use clockify::clockify::AppMode;
use clockify::ui::components::StatefulList;
use clockify::ui::Key;

fn tag(id: &str, name: &str) -> Tag {
    Tag {
        id: Some(id.to_string()),
        name: name.to_string(),
        workspace_id: None,
        archived: None,
    }
}

fn three() -> StatefulList<Tag> {
    StatefulList::with_items(
        vec![tag("a", "Apples"), tag("b", "Banana"), tag("c", "Cherry")],
        "T: ".to_string(),
        false,
    )
}

#[test]
fn next_wraps_at_the_end() {
    let mut list = three();
    list.next();
    assert_eq!(list.highlighted, Some(0));
    list.next();
    assert_eq!(list.highlighted, Some(1));
    list.next();
    assert_eq!(list.highlighted, Some(2));
    list.next();
    assert_eq!(list.highlighted, Some(0));
}

#[test]
fn previous_wraps_at_the_start() {
    let mut list = three();
    list.previous();
    assert_eq!(list.highlighted, Some(0));
    list.previous();
    assert_eq!(list.highlighted, Some(2));
    list.previous();
    assert_eq!(list.highlighted, Some(1));
}

#[test]
fn navigation_on_empty_list_is_a_no_op() {
    let mut list: StatefulList<Tag> = StatefulList::with_items(Vec::new(), "T: ".to_string(), false);
    list.next();
    assert_eq!(list.highlighted, None);
    list.previous();
    assert_eq!(list.highlighted, None);
}

#[test]
fn navigation_on_empty_filtered_view_is_a_no_op() {
    let mut list = three();
    list.search_text = "zzz".to_string();
    list.next();
    assert_eq!(list.highlighted, None);
    list.previous();
    assert_eq!(list.highlighted, None);
}

#[test]
fn navigation_follows_the_filtered_view() {
    let mut list = three();
    list.search_text = "an".to_string();
    // Only "Banana" matches, so the cursor can only stand on it.
    list.next();
    assert_eq!(list.highlighted, Some(0));
    list.next();
    assert_eq!(list.highlighted, Some(0));
    let item = list.get_highlighted_item().expect("a highlighted item");
    assert_eq!(item.name, "Banana");
}

#[test]
fn get_by_id_finds_every_inserted_record() {
    let mut list = three();
    let items = vec![tag("x", "Xylo"), tag("y", "Yam"), tag("z", "Zest")];
    list.set_items(items.clone());
    for it in &items {
        let found = list.get_by_id(it.id.clone().unwrap()).expect("the record");
        assert_eq!(found.name, it.name);
        assert_eq!(found.id, it.id);
    }
}

#[test]
fn get_by_id_misses_unknown_ids() {
    let list = three();
    assert!(list.get_by_id("nope".to_string()).is_none());
}

#[test]
fn get_by_string_finds_by_label() {
    let list = three();
    let found = list.get_by_string("Banana".to_string()).expect("the record");
    assert_eq!(found.id, Some("b".to_string()));
    assert!(list.get_by_string("banana".to_string()).is_none());
}

#[test]
fn set_items_keeps_the_selection() {
    let mut list = three();
    list.highlighted = Some(1);
    list.toggle_highlighted();
    assert_eq!(list.selected, vec!["b".to_string()]);
    list.set_items(vec![tag("x", "Xylo")]);
    assert_eq!(list.selected, vec!["b".to_string()]);
    assert_eq!(list.highlighted, None);
}

#[test]
fn toggle_on_single_select_keeps_at_most_one() {
    let mut list = three();
    list.highlighted = Some(0);
    list.toggle_highlighted();
    assert_eq!(list.selected, vec!["a".to_string()]);
    list.highlighted = Some(2);
    list.toggle_highlighted();
    assert_eq!(list.selected, vec!["c".to_string()]);
    assert!(list.selected.len() <= 1);
}

#[test]
fn toggle_removes_a_selected_id() {
    let mut list = three();
    list.highlighted = Some(0);
    list.toggle_highlighted();
    list.toggle_highlighted();
    assert!(list.selected.is_empty());
}

#[test]
fn toggle_twice_on_multiselect_restores_the_selection() {
    let mut list = StatefulList::with_items(
        vec![tag("a", "Apples"), tag("b", "Banana"), tag("c", "Cherry")],
        "T: ".to_string(),
        true,
    );
    list.highlighted = Some(0);
    list.toggle_highlighted();
    list.highlighted = Some(1);
    list.toggle_highlighted();
    let before = list.selected.clone();
    list.highlighted = Some(2);
    list.toggle_highlighted();
    list.toggle_highlighted();
    assert_eq!(list.selected, before);
}

#[test]
fn toggle_on_multiselect_accumulates() {
    let mut list = StatefulList::with_items(
        vec![tag("a", "Apples"), tag("b", "Banana")],
        "T: ".to_string(),
        true,
    );
    list.highlighted = Some(0);
    list.toggle_highlighted();
    list.highlighted = Some(1);
    list.toggle_highlighted();
    assert_eq!(list.selected, vec!["a".to_string(), "b".to_string()]);
}

#[test]
fn toggle_without_highlight_changes_nothing() {
    let mut list = three();
    list.toggle_highlighted();
    assert!(list.selected.is_empty());
}

#[test]
fn clear_selected_empties_the_selection() {
    let mut list = three();
    list.highlighted = Some(0);
    list.toggle_highlighted();
    list.clear_selected();
    assert!(list.selected.is_empty());
}

#[test]
fn selected_items_come_in_backing_order() {
    let mut list = StatefulList::with_items(
        vec![tag("a", "Apples"), tag("b", "Banana"), tag("c", "Cherry")],
        "T: ".to_string(),
        true,
    );
    list.highlighted = Some(2);
    list.toggle_highlighted();
    list.highlighted = Some(0);
    list.toggle_highlighted();
    let items = list.get_selected_items();
    let names: Vec<&str> = items.iter().map(|t| t.name.as_str()).collect();
    assert_eq!(names, vec!["Apples", "Cherry"]);
    let first = list.get_selected_item().expect("a selected record");
    assert_eq!(first.name, "Apples");
}

#[test]
fn search_keys_extend_the_filter_and_reset_the_cursor() {
    let mut list = three();
    list.highlighted = Some(2);
    list.key_event(Key::Char('a'), &AppMode::Search);
    list.key_event(Key::Char('n'), &AppMode::Search);
    assert_eq!(list.search_text, "an");
    assert_eq!(list.highlighted, Some(0));
    list.key_event(Key::Backspace, &AppMode::Search);
    assert_eq!(list.search_text, "a");
    assert_eq!(list.highlighted, Some(0));
}

#[test]
fn navigation_keys_move_the_cursor() {
    let mut list = three();
    list.key_event(Key::Char('j'), &AppMode::Navigation);
    assert_eq!(list.highlighted, Some(0));
    list.key_event(Key::Down, &AppMode::Navigation);
    assert_eq!(list.highlighted, Some(1));
    list.key_event(Key::Char('k'), &AppMode::Navigation);
    assert_eq!(list.highlighted, Some(0));
    list.key_event(Key::Up, &AppMode::Navigation);
    assert_eq!(list.highlighted, Some(2));
}

#[test]
fn enter_toggles_and_clears_the_filter() {
    let mut list = three();
    list.search_text = "an".to_string();
    list.highlighted = Some(0);
    list.key_event(Key::Enter, &AppMode::Navigation);
    // The filtered view held only "Banana"; its id is now selected and
    // the filter is gone.
    assert_eq!(list.selected, vec!["b".to_string()]);
    assert_eq!(list.search_text, "");
}

#[test]
fn edit_mode_keys_leave_the_list_alone() {
    let mut list = three();
    list.key_event(Key::Char('j'), &AppMode::Edit);
    assert_eq!(list.highlighted, None);
    assert_eq!(list.search_text, "");
}

#[test]
fn needs_refresh_on_empty_or_forced() {
    let empty: StatefulList<Tag> = StatefulList::with_items(Vec::new(), "T: ".to_string(), false);
    assert!(empty.needs_refresh(false));
    let full = three();
    assert!(!full.needs_refresh(false));
    assert!(full.needs_refresh(true));
}

#[test]
fn filtered_count_follows_the_filter() {
    let mut list = three();
    assert_eq!(list.filtered_count(), 3);
    list.search_text = "apple".to_string();
    assert_eq!(list.filtered_count(), 1);
    list.search_text = "zzz".to_string();
    assert_eq!(list.filtered_count(), 0);
}
