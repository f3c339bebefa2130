use room_state::response::{ErrorKind, RespError};
use room_state::text_map::TextMap;

#[test]
fn text_map_keeps_one_value_per_key() {
    let mut m: TextMap<u32> = TextMap::new();
    assert_eq!(m.len(), 0);
    assert!(m.get(&"a".to_string()).is_none());
    m.insert("a".to_string(), 1);
    m.insert("b".to_string(), 2);
    m.insert("a".to_string(), 3);
    assert_eq!(m.len(), 2);
    assert_eq!(m.get(&"a".to_string()), Some(&3));
    assert_eq!(m.get(&"b".to_string()), Some(&2));
    assert!(m.contains_key(&"b".to_string()));
    assert!(!m.contains_key(&"c".to_string()));
    assert_eq!(m.position(&"b".to_string()), Some(1));
    assert_eq!(m.position(&"c".to_string()), None);
    assert_eq!(m.key_at(0), "a");
    assert_eq!(*m.value_at(0), 3);
}

#[test]
fn text_map_remove_takes_the_value_out() {
    let mut m: TextMap<u32> = TextMap::new();
    m.insert("a".to_string(), 1);
    m.insert("b".to_string(), 2);
    m.insert("c".to_string(), 3);
    assert_eq!(m.remove(&"b".to_string()), Some(2));
    assert_eq!(m.remove(&"b".to_string()), None);
    assert_eq!(m.len(), 2);
    assert_eq!(m.get(&"a".to_string()), Some(&1));
    assert_eq!(m.get(&"c".to_string()), Some(&3));
    let copy = m.clone();
    m.insert("a".to_string(), 9);
    assert_eq!(copy.get(&"a".to_string()), Some(&1));
    assert_eq!(copy.len(), 2);
}

#[test]
fn rejection_is_stored_as_it_came() {
    let e = RespError::new(ErrorKind::LimitExceeded, Some("slow down".to_string()));
    assert_eq!(e.kind(), ErrorKind::LimitExceeded);
    assert_eq!(e.message(), Some(&"slow down".to_string()));
    let bare = RespError::new(ErrorKind::Forbidden, None);
    assert_eq!(bare.kind(), ErrorKind::Forbidden);
    assert!(bare.message().is_none());
}
