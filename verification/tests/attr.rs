use htmlelement::attr::{Attr, AttributeStore};

fn attr(namespace: &str, local_name: &str, value: &str) -> Attr {
    Attr::new(namespace.to_string(), local_name.to_string(), value.to_string())
}

#[test]
fn new_store_is_empty() {
    let store = AttributeStore::new();
    assert_eq!(store.len(), 0);
    assert_eq!(store.get("", "id"), None);
    assert!(store.item(0).is_none());
}

#[test]
fn set_then_get_returns_the_value() {
    let mut store = AttributeStore::new();
    store.set(attr("", "id", "main"));
    assert_eq!(store.get("", "id"), Some("main".to_string()));
    assert_eq!(store.len(), 1);
}

#[test]
fn get_of_a_missing_attribute_is_none() {
    let mut store = AttributeStore::new();
    store.set(attr("", "id", "main"));
    assert_eq!(store.get("", "class"), None);
    assert_eq!(store.get("", "i"), None);
    assert_eq!(store.get("", "idx"), None);
}

#[test]
fn names_are_compared_by_their_whole_text() {
    let mut store = AttributeStore::new();
    store.set(attr("", "data-a-rather-long-name", "1"));
    store.set(attr("", "data-a-rather-long-nane", "2"));
    store.set(attr("", "short", "3"));
    store.set(attr("", "", "4"));
    assert_eq!(store.len(), 4);
    assert_eq!(store.get("", "data-a-rather-long-name"), Some("1".to_string()));
    assert_eq!(store.get("", "data-a-rather-long-nane"), Some("2".to_string()));
    assert_eq!(store.get("", "short"), Some("3".to_string()));
    assert_eq!(store.get("", ""), Some("4".to_string()));
    assert_eq!(store.get("", "data-a-rather-long-nam"), None);
    assert_eq!(store.get("", "Short"), None);
}

#[test]
fn namespace_is_part_of_the_name() {
    let mut store = AttributeStore::new();
    store.set(attr("", "href", "plain"));
    store.set(attr("http://www.w3.org/1999/xlink", "href", "linked"));
    assert_eq!(store.len(), 2);
    assert_eq!(store.get("", "href"), Some("plain".to_string()));
    assert_eq!(
        store.get("http://www.w3.org/1999/xlink", "href"),
        Some("linked".to_string())
    );
    assert_eq!(store.get("http://www.w3.org/2000/svg", "href"), None);
}

#[test]
fn set_replaces_in_place_and_appends_new_names() {
    let mut store = AttributeStore::new();
    store.set(attr("", "a", "1"));
    store.set(attr("", "b", "2"));
    store.set(attr("", "c", "3"));
    store.set(attr("", "b", "4"));
    assert_eq!(store.len(), 3);
    assert_eq!(store.item(0), Some(&attr("", "a", "1")));
    assert_eq!(store.item(1), Some(&attr("", "b", "4")));
    assert_eq!(store.item(2), Some(&attr("", "c", "3")));
    assert_eq!(store.item(3), None);
}

#[test]
fn remove_takes_out_only_the_named_attribute() {
    let mut store = AttributeStore::new();
    store.set(attr("", "a", "1"));
    store.set(attr("", "b", "2"));
    store.set(attr("", "c", "3"));
    store.remove("", "b");
    assert_eq!(store.len(), 2);
    assert_eq!(store.get("", "b"), None);
    assert_eq!(store.item(0), Some(&attr("", "a", "1")));
    assert_eq!(store.item(1), Some(&attr("", "c", "3")));
}

#[test]
fn remove_of_a_missing_attribute_changes_nothing() {
    let mut store = AttributeStore::new();
    store.set(attr("", "a", "1"));
    store.remove("", "b");
    store.remove("x", "a");
    assert_eq!(store.len(), 1);
    assert_eq!(store.get("", "a"), Some("1".to_string()));
}

#[test]
fn duplicate_copies_all_three_parts() {
    let first = attr("ns", "name", "value");
    let copy = first.duplicate();
    assert_eq!(copy, first);
    assert_eq!(copy.namespace, "ns");
    assert_eq!(copy.local_name, "name");
    assert_eq!(copy.value, "value");
}
