use room_state::error::StateError;
use room_state::events::Event;
use room_state::room::{MembershipState, Room};
use room_state::value::{Content, Value};

fn member_event(id: &str, user: &str, membership: &str, time_stamp: i64) -> Event {
    let mut content = Content::new();
    content.insert("membership".to_string(), Value::Text(membership.to_string()));
    Event::new(
        Some(user.to_string()),
        Some(user.to_string()),
        Some("m.room.member".to_string()),
        time_stamp,
        Some(id.to_string()),
        Some("!room:example.org".to_string()),
        None,
        None,
        Some(content),
        None,
        true,
    )
    .unwrap()
}

#[test]
fn membership_follows_the_last_event() {
    let mut room = Room::new("!room:example.org".to_string());
    let alice = "@alice:example.org";
    assert_eq!(room.update_state(member_event("$1", alice, "join", 1000)), Ok(()));
    assert_eq!(room.get_membership_state(alice.to_string()), Ok(MembershipState::Join));
    assert_eq!(room.get_membership_state(alice.to_string()).unwrap().name(), "join");
    assert_eq!(room.update_state(member_event("$2", alice, "leave", 2000)), Ok(()));
    assert_eq!(room.get_membership_state(alice.to_string()), Ok(MembershipState::Leave));
    assert_eq!(room.get_membership_state(alice.to_string()).unwrap().name(), "leave");
}

#[test]
fn membership_defaults_to_leave() {
    let room = Room::new("!room:example.org".to_string());
    assert_eq!(
        room.get_membership_state("@bob:example.org".to_string()),
        Ok(MembershipState::Leave)
    );
}

#[test]
fn unseen_type_is_absent() {
    let mut room = Room::new("!room:example.org".to_string());
    assert!(room.get_state_event("m.room.name".to_string(), "".to_string()).is_none());
    room.update_state(member_event("$1", "@alice:example.org", "join", 1)).unwrap();
    assert!(room.get_state_event("m.room.name".to_string(), "".to_string()).is_none());
    assert!(room
        .get_state_event("m.room.member".to_string(), "@bob:example.org".to_string())
        .is_none());
}

#[test]
fn message_event_is_not_state() {
    let mut room = Room::new("!room:example.org".to_string());
    let message = Event::new(
        None,
        Some("@alice:example.org".to_string()),
        Some("m.room.message".to_string()),
        5,
        Some("$m".to_string()),
        Some("!room:example.org".to_string()),
        None,
        None,
        Some(Content::new()),
        None,
        true,
    )
    .unwrap();
    assert_eq!(room.update_state(message), Err(StateError::InvalidStateEvent));
    assert!(room.get_state_event("m.room.message".to_string(), "".to_string()).is_none());
}

fn state_event(etype: &str, field: &str, value: &str) -> Event {
    let mut content = Content::new();
    content.insert(field.to_string(), Value::Text(value.to_string()));
    Event::new(
        Some(String::new()),
        Some("@admin:example.org".to_string()),
        Some(etype.to_string()),
        1,
        Some(format!("${}", etype)),
        Some("!room:example.org".to_string()),
        None,
        None,
        Some(content),
        None,
        true,
    )
    .unwrap()
}

#[test]
fn applying_twice_is_applying_once() {
    let alice = "@alice:example.org";
    let mut once = Room::new("!room:example.org".to_string());
    once.update_state(member_event("$1", alice, "join", 1000)).unwrap();
    let mut twice = Room::new("!room:example.org".to_string());
    twice.update_state(member_event("$1", alice, "join", 1000)).unwrap();
    twice.update_state(member_event("$1", alice, "join", 1000)).unwrap();
    for room in [&once, &twice] {
        let e = room.get_state_event("m.room.member".to_string(), alice.to_string()).unwrap();
        assert_eq!(e.id, "$1");
        assert_eq!(e.time_stamp, 1000);
        assert_eq!(room.get_membership_state(alice.to_string()), Ok(MembershipState::Join));
        assert_eq!(room.count_joined(), 1);
    }
}

#[test]
fn the_later_event_replaces_the_earlier() {
    let alice = "@alice:example.org";
    let mut room = Room::new("!room:example.org".to_string());
    room.update_state(member_event("$a", alice, "invite", 10)).unwrap();
    room.update_state(member_event("$b", alice, "join", 5)).unwrap();
    let e = room.get_state_event("m.room.member".to_string(), alice.to_string()).unwrap();
    assert_eq!(e.id, "$b");
    assert_eq!(e.time_stamp, 5);
    assert_eq!(room.get_membership_state(alice.to_string()), Ok(MembershipState::Join));
}

#[test]
fn other_slots_are_left_alone() {
    let mut room = Room::new("!room:example.org".to_string());
    room.update_state(member_event("$a", "@alice:example.org", "join", 1)).unwrap();
    room.update_state(member_event("$b", "@bob:example.org", "ban", 2)).unwrap();
    room.update_state(state_event("m.room.name", "name", "Lounge")).unwrap();
    assert_eq!(
        room.get_membership_state("@alice:example.org".to_string()),
        Ok(MembershipState::Join)
    );
    assert_eq!(room.get_membership_state("@bob:example.org".to_string()), Ok(MembershipState::Ban));
    assert_eq!(room.get_state_event("m.room.name".to_string(), String::new()).unwrap().id, "$m.room.name");
}

#[test]
fn membership_without_a_name_is_malformed() {
    let mut room = Room::new("!room:example.org".to_string());
    let user = "@carol:example.org";
    let bare = Event::new(
        Some(user.to_string()),
        Some(user.to_string()),
        Some("m.room.member".to_string()),
        1,
        Some("$c".to_string()),
        Some("!room:example.org".to_string()),
        None,
        None,
        Some(Content::new()),
        None,
        true,
    )
    .unwrap();
    room.update_state(bare).unwrap();
    assert_eq!(room.get_membership_state(user.to_string()), Err(StateError::MalformedEvent));
    room.update_state(member_event("$d", user, "dancing", 2)).unwrap();
    assert_eq!(room.get_membership_state(user.to_string()), Err(StateError::MalformedEvent));
    let mut content = Content::new();
    content.insert("membership".to_string(), Value::Number(1));
    let numbered = Event::new(
        Some(user.to_string()),
        Some(user.to_string()),
        Some("m.room.member".to_string()),
        3,
        Some("$e".to_string()),
        Some("!room:example.org".to_string()),
        None,
        None,
        Some(content),
        None,
        true,
    )
    .unwrap();
    room.update_state(numbered).unwrap();
    assert_eq!(room.get_membership_state(user.to_string()), Err(StateError::MalformedEvent));
    assert_eq!(room.count_joined(), 0);
}

#[test]
fn membership_names() {
    let all = [
        (MembershipState::Join, "join"),
        (MembershipState::Leave, "leave"),
        (MembershipState::Invite, "invite"),
        (MembershipState::Ban, "ban"),
        (MembershipState::Knock, "knock"),
    ];
    for (m, name) in all {
        assert_eq!(m.name(), name);
        assert_eq!(MembershipState::from_name(&name.to_string()), Some(m));
    }
    assert_eq!(MembershipState::from_name(&"Join".to_string()), None);
    assert_eq!(MembershipState::from_name(&String::new()), None);
}

#[test]
fn summary_of_an_empty_room() {
    let room = Room::new("!room:example.org".to_string());
    let s = room.public_summary();
    assert_eq!(s.room_id, "!room:example.org");
    assert_eq!(s.canonical_alias, "");
    assert_eq!(s.name, "");
    assert_eq!(s.topic, "");
    assert_eq!(s.avatar_url, "");
    assert_eq!(s.num_joined_members, 0);
    assert!(!s.world_readable);
    assert!(!s.guest_can_join);
}

#[test]
fn summary_follows_the_state() {
    let mut room = Room::new("!room:example.org".to_string());
    room.update_state(state_event("m.room.canonical_alias", "alias", "#lounge:example.org")).unwrap();
    room.update_state(state_event("m.room.name", "name", "Old name")).unwrap();
    room.update_state(state_event("m.room.name", "name", "Lounge")).unwrap();
    room.update_state(state_event("m.room.topic", "topic", "Sofas")).unwrap();
    room.update_state(state_event("m.room.avatar", "url", "mxc://example.org/sofa")).unwrap();
    room.update_state(state_event("m.room.history_visibility", "history_visibility", "world_readable")).unwrap();
    room.update_state(state_event("m.room.join_rules", "join_rule", "public")).unwrap();
    room.update_state(member_event("$1", "@alice:example.org", "join", 1)).unwrap();
    room.update_state(member_event("$2", "@bob:example.org", "join", 2)).unwrap();
    room.update_state(member_event("$3", "@carol:example.org", "invite", 3)).unwrap();
    room.update_state(member_event("$4", "@bob:example.org", "leave", 4)).unwrap();
    room.update_state(member_event("$5", "@dave:example.org", "join", 5)).unwrap();
    room.update_state(member_event("$6", "@alice:example.org", "join", 6)).unwrap();
    let s = room.public_summary();
    assert_eq!(s.room_id, "!room:example.org");
    assert_eq!(s.canonical_alias, "#lounge:example.org");
    assert_eq!(s.name, "Lounge");
    assert_eq!(s.topic, "Sofas");
    assert_eq!(s.avatar_url, "mxc://example.org/sofa");
    assert_eq!(s.num_joined_members, 2);
    assert!(s.world_readable);
    assert!(s.guest_can_join);
    room.update_state(state_event("m.room.join_rules", "join_rule", "invite")).unwrap();
    room.update_state(state_event("m.room.history_visibility", "history_visibility", "shared")).unwrap();
    let s = room.public_summary();
    assert!(!s.world_readable);
    assert!(!s.guest_can_join);
}

#[test]
fn a_copy_holds_the_same_state() {
    let mut room = Room::new("!room:example.org".to_string());
    room.update_state(member_event("$1", "@alice:example.org", "join", 1)).unwrap();
    let copy = room.clone();
    room.update_state(member_event("$2", "@alice:example.org", "leave", 2)).unwrap();
    assert_eq!(copy.id(), "!room:example.org");
    assert_eq!(copy.get_membership_state("@alice:example.org".to_string()), Ok(MembershipState::Join));
    assert_eq!(room.get_membership_state("@alice:example.org".to_string()), Ok(MembershipState::Leave));
}

#[test]
fn a_message_event_keeps_no_replaced_payload() {
    let mut prev = Content::new();
    prev.insert("name".to_string(), Value::Text("before".to_string()));
    let message = Event::new(
        None,
        Some("@a:x".to_string()),
        Some("m.room.message".to_string()),
        0,
        Some("$e".to_string()),
        Some("!r:x".to_string()),
        Some("$gone".to_string()),
        None,
        Some(Content::new()),
        Some(prev.clone()),
        false,
    )
    .unwrap();
    assert!(message.prev_content.get(&"name".to_string()).is_none());
    assert_eq!(message.redacts, Some("$gone".to_string()));
    assert!(message.state_key.is_none());
    let state = Event::new(
        Some(String::new()),
        Some("@a:x".to_string()),
        Some("m.room.name".to_string()),
        0,
        Some("$e".to_string()),
        Some("!r:x".to_string()),
        None,
        None,
        Some(Content::new()),
        Some(prev),
        false,
    )
    .unwrap();
    assert!(matches!(state.prev_content.get(&"name".to_string()), Some(Value::Text(t)) if t == "before"));
    let copy = state.clone();
    assert_eq!(copy.state_key, Some(String::new()));
    assert_eq!(copy.etype, "m.room.name");
    assert!(matches!(copy.prev_content.get(&"name".to_string()), Some(Value::Text(t)) if t == "before"));
}

#[test]
fn each_mandatory_field_is_asked_for() {
    let s = |t: &str| Some(t.to_string());
    let c = || Some(Content::new());
    assert!(Event::new(None, s("a"), s("t"), 0, s("i"), s("r"), None, None, c(), None, false).is_ok());
    assert!(matches!(
        Event::new(None, s("a"), None, 0, s("i"), s("r"), None, None, c(), None, false),
        Err(StateError::MalformedEvent)
    ));
    assert!(matches!(
        Event::new(None, s("a"), s("t"), 0, None, s("r"), None, None, c(), None, false),
        Err(StateError::MalformedEvent)
    ));
    assert!(matches!(
        Event::new(None, s("a"), s("t"), 0, s("i"), None, None, None, c(), None, false),
        Err(StateError::MalformedEvent)
    ));
    assert!(matches!(
        Event::new(None, s("a"), s("t"), 0, s("i"), s("r"), None, None, None, None, false),
        Err(StateError::MalformedEvent)
    ));
}
