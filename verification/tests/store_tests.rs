use room_state::error::StateError;
use room_state::events::Event;
use room_state::room::{MembershipState, Room};
use room_state::store::{save_and_reload, InMemoryStore, Storer};
use room_state::value::{Content, Value};

fn name_event(name: &str) -> Event {
    let mut content = Content::new();
    content.insert("name".to_string(), Value::Text(name.to_string()));
    Event::new(
        Some(String::new()),
        Some("@alice:example.org".to_string()),
        Some("m.room.name".to_string()),
        7,
        Some("$n".to_string()),
        Some("!room:example.org".to_string()),
        None,
        None,
        Some(content),
        None,
        true,
    )
    .unwrap()
}

#[test]
fn unseen_keys_are_not_found() {
    let store = InMemoryStore::new();
    assert_eq!(store.load_filter_id("@a:x".to_string()), Err(StateError::NotFound));
    assert_eq!(store.load_next_batch("@a:x".to_string()), Err(StateError::NotFound));
    assert!(matches!(store.load_room("!r:x".to_string()), Err(StateError::NotFound)));
}

#[test]
fn filter_and_cursor_are_kept_apart() {
    let mut store = InMemoryStore::new();
    store.save_filter_id("@a:x".to_string(), "f1".to_string());
    assert_eq!(store.load_filter_id("@a:x".to_string()), Ok("f1".to_string()));
    assert_eq!(store.load_next_batch("@a:x".to_string()), Err(StateError::NotFound));
    store.save_next_batch("@a:x".to_string(), "s1".to_string());
    store.save_next_batch("@a:x".to_string(), "s2".to_string());
    assert_eq!(store.load_next_batch("@a:x".to_string()), Ok("s2".to_string()));
    assert_eq!(store.load_filter_id("@a:x".to_string()), Ok("f1".to_string()));
    assert_eq!(store.load_filter_id("@b:x".to_string()), Err(StateError::NotFound));
}

#[test]
fn saved_room_comes_back() {
    let mut store = InMemoryStore::new();
    let mut room = Room::new("!room:example.org".to_string());
    room.update_state(name_event("Lounge")).unwrap();
    store.save_room(room);
    let back = store.load_room("!room:example.org".to_string()).unwrap();
    assert_eq!(back.id, "!room:example.org");
    let event = back.get_state_event("m.room.name".to_string(), String::new()).unwrap();
    assert_eq!(event.id, "$n");
    assert_eq!(event.time_stamp, 7);
    assert!(matches!(event.content.get(&"name".to_string()), Some(Value::Text(t)) if t == "Lounge"));
    assert_eq!(back.get_membership_state("@alice:example.org".to_string()), Ok(MembershipState::Leave));
    // the store is still usable after a load
    let again = store.load_room("!room:example.org".to_string()).unwrap();
    assert_eq!(again.id, "!room:example.org");
}

#[test]
fn save_and_reload_returns_the_room() {
    let mut store = InMemoryStore::new();
    let mut room = Room::new("!other:example.org".to_string());
    room.update_state(name_event("Attic")).unwrap();
    let back = save_and_reload(&mut store, room).unwrap();
    assert_eq!(back.id, "!other:example.org");
    assert!(back.get_state_event("m.room.name".to_string(), String::new()).is_some());
}
