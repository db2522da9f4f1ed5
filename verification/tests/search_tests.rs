use clockify::api::tag::Tag;
use clockify::ui::components::StatefulList;

fn tag(id: &str, name: &str) -> Tag {
    Tag {
        id: Some(id.to_string()),
        name: name.to_string(),
        workspace_id: None,
        archived: None,
    }
}

fn fruit_list() -> StatefulList<Tag> {
    StatefulList::with_items(
        vec![tag("1", "Apples"), tag("2", "Banana"), tag("3", "Pineapple")],
        "Fruit: ".to_string(),
        false,
    )
}

fn names(items: &[Tag]) -> Vec<String> {
    items.iter().map(|t| t.name.clone()).collect()
}

#[test]
fn search_substring_scenario() {
    let list = fruit_list();
    let found = list.search("apple");
    assert_eq!(names(&found), vec!["Apples".to_string(), "Pineapple".to_string()]);
}

#[test]
fn search_is_case_insensitive() {
    let list = fruit_list();
    let found = list.search("APPLE");
    assert_eq!(names(&found), vec!["Apples".to_string(), "Pineapple".to_string()]);
    let found = list.search("bAnAnA");
    assert_eq!(names(&found), vec!["Banana".to_string()]);
}

#[test]
fn search_empty_query_matches_nothing() {
    let list = fruit_list();
    assert!(list.search("").is_empty());
    assert!(list.search("   ").is_empty());
}

#[test]
fn search_without_match_is_empty() {
    let list = fruit_list();
    assert!(list.search("xyz").is_empty());
}

#[test]
fn search_ranks_by_match_count() {
    let list = StatefulList::with_items(
        vec![tag("1", "tea"), tag("2", "tea tea tea"), tag("3", "tea tea")],
        "T: ".to_string(),
        false,
    );
    let found = list.search("tea");
    assert_eq!(
        names(&found),
        vec!["tea tea tea".to_string(), "tea tea".to_string(), "tea".to_string()]
    );
}

#[test]
fn search_keeps_original_order_on_ties() {
    let list = StatefulList::with_items(
        vec![tag("1", "alpha x"), tag("2", "beta"), tag("3", "gamma x")],
        "T: ".to_string(),
        false,
    );
    let found = list.search("x");
    assert_eq!(names(&found), vec!["alpha x".to_string(), "gamma x".to_string()]);
}

#[test]
fn search_counts_all_patterns() {
    let list = StatefulList::with_items(
        vec![tag("1", "red door"), tag("2", "red red"), tag("3", "blue door")],
        "T: ".to_string(),
        false,
    );
    let found = list.search("red door");
    // "red door" holds one match of each pattern, "red red" two of one.
    assert_eq!(found.len(), 3);
    assert_eq!(found[0].name, "red door");
    assert_eq!(found[1].name, "red red");
    assert_eq!(found[2].name, "blue door");
}

#[test]
fn search_returns_only_matching_items() {
    let list = fruit_list();
    let found = list.search("an");
    assert_eq!(names(&found), vec!["Banana".to_string()]);
}
