use mpris::metadata::Metadata;
use mpris::{TrackID, TrackList};

fn id(text: &str) -> TrackID {
    TrackID::try_from(text).unwrap()
}

fn ids(texts: &[&str]) -> Vec<TrackID> {
    texts.iter().map(|text| id(text)).collect()
}

fn texts(list: &TrackList) -> Vec<String> {
    list.ids().iter().map(|id| id.as_str().to_string()).collect()
}

fn metadata_of(track: &str, title: &str) -> Metadata {
    let mut metadata = Metadata::new();
    metadata.track_id = Some(id(track));
    metadata.title = Some(title.to_string());
    metadata
}

#[test]
fn new_list_knows_no_metadata() {
    let list = TrackList::new(ids(&["/a", "/b"]));
    assert_eq!(texts(&list), vec!["/a", "/b"]);
    assert_eq!(list.len(), 2);
    assert_eq!(list.get(0), Some(&id("/a")));
    assert_eq!(list.get(1), Some(&id("/b")));
    assert_eq!(list.get(2), None);
    assert_eq!(list.metadata_of(&id("/a")), None);
    assert_eq!(TrackList::new(vec![]).len(), 0);
}

#[test]
fn insert_after_an_entry() {
    let mut list = TrackList::new(ids(&["/a", "/b", "/c"]));
    list.insert(&id("/a"), metadata_of("/x", "X"));
    assert_eq!(texts(&list), vec!["/a", "/x", "/b", "/c"]);
    assert_eq!(list.metadata_of(&id("/x")), Some(&metadata_of("/x", "X")));
    assert_eq!(list.metadata_of(&id("/a")), None);

    list.insert(&id("/c"), metadata_of("/y", "Y"));
    assert_eq!(texts(&list), vec!["/a", "/x", "/b", "/c", "/y"]);

    list.insert(&id("/b"), metadata_of("/z", "Z"));
    assert_eq!(texts(&list), vec!["/a", "/x", "/b", "/z", "/c", "/y"]);
    assert_eq!(list.len(), 6);
}

#[test]
fn insert_at_the_front() {
    let mut list = TrackList::new(ids(&["/a", "/b"]));
    list.insert(&TrackID::no_track(), metadata_of("/x", "X"));
    assert_eq!(texts(&list), vec!["/x", "/a", "/b"]);
    list.insert(&id("/unknown"), metadata_of("/y", "Y"));
    assert_eq!(texts(&list), vec!["/y", "/x", "/a", "/b"]);

    let mut empty = TrackList::new(vec![]);
    empty.insert(&id("/unknown"), metadata_of("/x", "X"));
    assert_eq!(texts(&empty), vec!["/x"]);
    assert_eq!(empty.metadata_of(&id("/x")), Some(&metadata_of("/x", "X")));
}

#[test]
fn insert_without_track_id_changes_nothing() {
    let mut list = TrackList::new(ids(&["/a"]));
    let mut metadata = Metadata::new();
    metadata.title = Some("no id".to_string());
    list.insert(&id("/a"), metadata);
    assert_eq!(texts(&list), vec!["/a"]);
    assert_eq!(list.metadata_of(&id("/a")), None);
}

#[test]
fn insert_after_the_first_of_two_equal_entries() {
    let mut list = TrackList::new(ids(&["/a", "/b", "/a"]));
    list.insert(&id("/a"), metadata_of("/x", "X"));
    assert_eq!(texts(&list), vec!["/a", "/x", "/b", "/a"]);
}

#[test]
fn remove_takes_the_first_occurrence() {
    let mut list = TrackList::new(ids(&["/a", "/b", "/c"]));
    list.insert(&id("/b"), metadata_of("/x", "X"));
    list.remove(&id("/x"));
    assert_eq!(texts(&list), vec!["/a", "/b", "/c"]);
    assert_eq!(list.metadata_of(&id("/x")), None);
    list.remove(&id("/a"));
    assert_eq!(texts(&list), vec!["/b", "/c"]);

    let mut twice = TrackList::new(ids(&["/a", "/b", "/a"]));
    twice.remove(&id("/a"));
    assert_eq!(texts(&twice), vec!["/b", "/a"]);
}

#[test]
fn remove_twice_is_remove_once() {
    let mut list = TrackList::new(ids(&["/a", "/b", "/c"]));
    list.insert(&id("/a"), metadata_of("/x", "X"));
    list.remove(&id("/b"));
    let once = texts(&list);
    list.remove(&id("/b"));
    assert_eq!(texts(&list), once);
    assert_eq!(texts(&list), vec!["/a", "/x", "/c"]);
    assert_eq!(list.metadata_of(&id("/x")), Some(&metadata_of("/x", "X")));

    let mut empty = TrackList::new(vec![]);
    empty.remove(&id("/b"));
    assert_eq!(empty.len(), 0);
}

#[test]
fn replace_forgets_everything() {
    let mut list = TrackList::new(ids(&["/a", "/b"]));
    list.insert(&id("/a"), metadata_of("/x", "X"));
    list.replace(ids(&["/a", "/x", "/c"]));
    assert_eq!(texts(&list), vec!["/a", "/x", "/c"]);
    assert_eq!(list.metadata_of(&id("/x")), None);
    list.replace(vec![]);
    assert_eq!(list.len(), 0);
}

#[test]
fn replace_track_metadata_keeps_or_changes_the_id() {
    let mut list = TrackList::new(ids(&["/a", "/b", "/c"]));
    let same = list.replace_track_metadata(&id("/b"), metadata_of("/b", "B"));
    assert_eq!(same, Some(id("/b")));
    assert_eq!(texts(&list), vec!["/a", "/b", "/c"]);
    assert_eq!(list.metadata_of(&id("/b")), Some(&metadata_of("/b", "B")));

    let renamed = list.replace_track_metadata(&id("/b"), metadata_of("/new", "N"));
    assert_eq!(renamed, Some(id("/new")));
    assert_eq!(texts(&list), vec!["/a", "/new", "/c"]);
    assert_eq!(list.metadata_of(&id("/b")), None);
    assert_eq!(list.metadata_of(&id("/new")), Some(&metadata_of("/new", "N")));

    let mut without_id = Metadata::new();
    without_id.title = Some("untitled".to_string());
    let kept = list.replace_track_metadata(&id("/c"), without_id.clone());
    assert_eq!(kept, Some(id("/c")));
    assert_eq!(texts(&list), vec!["/a", "/new", "/c"]);
    assert_eq!(list.metadata_of(&id("/c")), Some(&without_id));
}

#[test]
fn replace_track_metadata_of_unknown_id() {
    let mut list = TrackList::new(ids(&["/a"]));
    assert_eq!(list.replace_track_metadata(&id("/b"), metadata_of("/c", "C")), None);
    assert_eq!(texts(&list), vec!["/a"]);
    assert_eq!(list.metadata_of(&id("/c")), None);
    assert_eq!(list.metadata_of(&id("/b")), None);
}
