use crate::error::StateError;
use crate::events::{Event, EventView};
use crate::text_map::TextMap;
use crate::value::ValueView;
use crate::wire::text_in;
use vstd::prelude::*;

verus! {

/// The current state of one room: under each event type and state key the
/// event that was applied last.
#[derive(Debug)]
pub struct Room {
    pub id: String,
    state: TextMap<TextMap<Event>>,
}

/// What a `Room` stands for: its id, and the resident event of each slot, a
/// slot being an event type and a state key.
pub struct RoomView {
    pub id: Seq<char>,
    pub state: Map<(Seq<char>, Seq<char>), EventView>,
}

/// How a user stands to a room.
#[derive(Clone, Copy, Debug, PartialEq, Eq, Structural)]
pub enum MembershipState {
    Join,
    Leave,
    Invite,
    Ban,
    Knock,
}

/// The membership that the protocol writes as `name`, if it is one.
pub open spec fn membership_named(name: Seq<char>) -> Option<MembershipState> {
    if name == "join"@ {
        Some(MembershipState::Join)
    } else if name == "leave"@ {
        Some(MembershipState::Leave)
    } else if name == "invite"@ {
        Some(MembershipState::Invite)
    } else if name == "ban"@ {
        Some(MembershipState::Ban)
    } else if name == "knock"@ {
        Some(MembershipState::Knock)
    } else {
        None
    }
}

/// The membership that a membership event's payload states. A payload
/// without a `membership` that names one is malformed.
pub open spec fn membership_in(content: Map<Seq<char>, ValueView>) -> Result<
    MembershipState,
    StateError,
> {
    if content.contains_key("membership"@) {
        match content["membership"@] {
            ValueView::Text(name) => match membership_named(name) {
                Some(m) => Ok(m),
                None => Err(StateError::MalformedEvent),
            },
            _ => Err(StateError::MalformedEvent),
        }
    } else {
        Err(StateError::MalformedEvent)
    }
}

/// The membership of `user` in a room: what the resident `m.room.member`
/// event under the user's id states, and `Leave` where there is none.
pub open spec fn membership_of(room: RoomView, user: Seq<char>) -> Result<
    MembershipState,
    StateError,
> {
    match resident(room, "m.room.member"@, user) {
        Some(event) => membership_in(event.content),
        None => Ok(MembershipState::Leave),
    }
}

/// The text that the room-wide event of type `event_type`, the one under
/// the empty state key, holds in `field`; empty where there is no such
/// event or no text in that field.
pub open spec fn room_text(room: RoomView, event_type: Seq<char>, field: Seq<char>) -> Seq<char> {
    match resident(room, event_type, Seq::empty()) {
        Some(event) => match text_in(event.content, field) {
            Some(text) => text,
            None => Seq::empty(),
        },
        None => Seq::empty(),
    }
}

/// Whether `user` has joined: the resident membership event under the
/// user's id states `join`.
pub open spec fn has_joined(room: RoomView, user: Seq<char>) -> bool {
    room.state.contains_key(("m.room.member"@, user)) && membership_in(
        room.state[("m.room.member"@, user)].content,
    ) == Ok::<MembershipState, StateError>(MembershipState::Join)
}

/// The users who have joined.
pub open spec fn joined_members(room: RoomView) -> Set<Seq<char>> {
    Set::new(|user: Seq<char>| has_joined(room, user))
}

/// The summary of a room: alias, name, topic and avatar as the room-wide
/// events of those types state them, whether its history is open to the
/// world, whether anyone may join, and how many users have joined.
pub open spec fn summary_of(room: RoomView) -> PublicRoomView {
    PublicRoomView {
        canonical_alias: room_text(room, "m.room.canonical_alias"@, "alias"@),
        name: room_text(room, "m.room.name"@, "name"@),
        world_readable: room_text(room, "m.room.history_visibility"@, "history_visibility"@)
            == "world_readable"@,
        topic: room_text(room, "m.room.topic"@, "topic"@),
        num_joined_members: joined_members(room).len(),
        avatar_url: room_text(room, "m.room.avatar"@, "url"@),
        room_id: room.id,
        guest_can_join: room_text(room, "m.room.join_rules"@, "join_rule"@) == "public"@,
    }
}

/// Those of the first `n` keys that satisfy `p`.
spec fn chosen(keys: Seq<Seq<char>>, p: spec_fn(Seq<char>) -> bool, n: nat) -> Set<
    Seq<char>,
> {
    Set::new(|u: Seq<char>| exists|i: int| 0 <= i < n && #[trigger] keys[i] == u && p(u))
}

/// How many of the first `n` keys satisfy `p`.
spec fn count_where(keys: Seq<Seq<char>>, p: spec_fn(Seq<char>) -> bool, n: nat) -> nat
    decreases n,
{
    if n == 0 {
        0
    } else {
        count_where(keys, p, (n - 1) as nat) + if p(keys[n - 1]) {
            1nat
        } else {
            0nat
        }
    }
}

/// Among distinct keys, counting those that satisfy `p` gives the size of
/// the set of them.
proof fn lemma_count_where(keys: Seq<Seq<char>>, p: spec_fn(Seq<char>) -> bool, n: nat)
    requires
        keys.no_duplicates(),
        n <= keys.len(),
    ensures
        chosen(keys, p, n).finite(),
        chosen(keys, p, n).len() == count_where(keys, p, n),
    decreases n,
{
    if n == 0 {
        assert(chosen(keys, p, n) =~= Set::<Seq<char>>::empty());
    } else {
        let before = (n - 1) as nat;
        lemma_count_where(keys, p, before);
        let last = keys[n - 1];
        if p(last) {
            assert(!chosen(keys, p, before).contains(last));
            assert(chosen(keys, p, n) =~= chosen(keys, p, before).insert(last)) by {
                assert(keys[n - 1] == last);
            }
        } else {
            assert(chosen(keys, p, n) =~= chosen(keys, p, before));
        }
    }
}

impl MembershipState {
    /// The protocol's name of a membership.
    pub open spec fn spec_name(self) -> Seq<char> {
        match self {
            MembershipState::Join => "join"@,
            MembershipState::Leave => "leave"@,
            MembershipState::Invite => "invite"@,
            MembershipState::Ban => "ban"@,
            MembershipState::Knock => "knock"@,
        }
    }

    /// The protocol's name of a membership.
    pub fn name(self) -> (r: String)
        ensures
            r@ == self.spec_name(),
    {
        match self {
            MembershipState::Join => "join".to_owned(),
            MembershipState::Leave => "leave".to_owned(),
            MembershipState::Invite => "invite".to_owned(),
            MembershipState::Ban => "ban".to_owned(),
            MembershipState::Knock => "knock".to_owned(),
        }
    }

    /// The membership that `name` names, if it names one.
    pub fn from_name(name: &String) -> (r: Option<MembershipState>)
        ensures
            r == membership_named(name@),
    {
        if *name == "join".to_owned() {
            Some(MembershipState::Join)
        } else if *name == "leave".to_owned() {
            Some(MembershipState::Leave)
        } else if *name == "invite".to_owned() {
            Some(MembershipState::Invite)
        } else if *name == "ban".to_owned() {
            Some(MembershipState::Ban)
        } else if *name == "knock".to_owned() {
            Some(MembershipState::Knock)
        } else {
            None
        }
    }

    /// Every membership is found again under its name.
    pub proof fn lemma_name_names(self)
        ensures
            membership_named(self.spec_name()) == Some(self),
    {
        reveal_strlit("join");
        reveal_strlit("leave");
        reveal_strlit("invite");
        reveal_strlit("ban");
        reveal_strlit("knock");
        assert("join"@.len() == 4);
        assert("leave"@.len() == 5);
        assert("invite"@.len() == 6);
        assert("ban"@.len() == 3);
        assert("knock"@.len() == 5);
        assert("leave"@[0] != "knock"@[0]);
    }
}

/// The membership that an event's payload states.
pub fn membership_stated(event: &Event) -> (r: Result<MembershipState, StateError>)
    ensures
        r == membership_in(event@.content),
{
    let key = "membership".to_owned();
    match event.content.get(&key) {
        Some(value) => match value.as_text() {
            Some(name) => match MembershipState::from_name(name) {
                Some(m) => Ok(m),
                None => Err(StateError::MalformedEvent),
            },
            None => Err(StateError::MalformedEvent),
        },
        None => Err(StateError::MalformedEvent),
    }
}

/// What a room shows to those who look for rooms. It is computed from the
/// room's state and kept nowhere.
#[derive(Clone, Debug)]
pub struct PublicRoom {
    pub canonical_alias: String,
    pub name: String,
    pub world_readable: bool,
    pub topic: String,
    pub num_joined_members: u64,
    pub avatar_url: String,
    pub room_id: String,
    pub guest_can_join: bool,
}

/// What a `PublicRoom` stands for.
pub struct PublicRoomView {
    pub canonical_alias: Seq<char>,
    pub name: Seq<char>,
    pub world_readable: bool,
    pub topic: Seq<char>,
    pub num_joined_members: nat,
    pub avatar_url: Seq<char>,
    pub room_id: Seq<char>,
    pub guest_can_join: bool,
}

impl PublicRoom {
    pub open spec fn view(&self) -> PublicRoomView {
        PublicRoomView {
            canonical_alias: self.canonical_alias@,
            name: self.name@,
            world_readable: self.world_readable,
            topic: self.topic@,
            num_joined_members: self.num_joined_members as nat,
            avatar_url: self.avatar_url@,
            room_id: self.room_id@,
            guest_can_join: self.guest_can_join,
        }
    }
}

/// The event resident under `event_type` and `state_key`, if there is one.
pub open spec fn resident(room: RoomView, event_type: Seq<char>, state_key: Seq<char>) -> Option<
    EventView,
> {
    if room.state.contains_key((event_type, state_key)) {
        Some(room.state[(event_type, state_key)])
    } else {
        None
    }
}

/// The room after `event` was applied: a state event takes the slot of its
/// type and state key, and any other event changes nothing.
pub open spec fn applied(room: RoomView, event: EventView) -> RoomView {
    match event.state_key {
        Some(key) => RoomView { id: room.id, state: room.state.insert((event.etype, key), event) },
        None => room,
    }
}

impl Room {
    pub closed spec fn view(&self) -> RoomView {
        RoomView {
            id: self.id@,
            state: Map::new(
                |slot: (Seq<char>, Seq<char>)|
                    self.state@.contains_key(slot.0) && self.state@[slot.0]@.contains_key(slot.1),
                |slot: (Seq<char>, Seq<char>)| self.state@[slot.0]@[slot.1]@,
            ),
        }
    }

    /// Makes the room `id` with no state.
    pub fn new(id: String) -> (room: Self)
        ensures
            room@.id == id@,
            room@.state == Map::<(Seq<char>, Seq<char>), EventView>::empty(),
    {
        let room = Room { id, state: TextMap::new() };
        assert(room@.state =~= Map::<(Seq<char>, Seq<char>), EventView>::empty());
        room
    }

    /// The room's id.
    pub fn id(&self) -> (r: &String)
        ensures
            r@ == self@.id,
    {
        &self.id
    }

    /// Applies a state event: it becomes the resident event of its type and
    /// state key, in place of the one that was there. An event without a
    /// state key is refused and the room stays as it was.
    pub fn update_state(&mut self, event: Event) -> (r: Result<(), StateError>)
        ensures
            final(self)@ == applied(old(self)@, event@),
            match r {
                Ok(_) => event.state_key.is_some(),
                Err(e) => event.state_key.is_none() && e == StateError::InvalidStateEvent,
            },
    {
        let key = match &event.state_key {
            Some(k) => k.clone(),
            None => {
                return Err(StateError::InvalidStateEvent);
            },
        };
        let etype = event.etype.clone();
        let mut inner = match self.state.remove(&etype) {
            Some(m) => m,
            None => TextMap::new(),
        };
        inner.insert(key, event);
        self.state.insert(etype, inner);
        proof {
            assert(self@.state =~= old(self)@.state.insert((event.etype@, key@), event@));
        }
        Ok(())
    }

    /// The event resident under `event_type` and `state_key`. Where the room
    /// has seen no such type, or no such key under it, there is none.
    pub fn get_state_event(&self, event_type: String, state_key: String) -> (r: Option<&Event>)
        ensures
            match r {
                Some(e) => resident(self@, event_type@, state_key@) == Some(e@),
                None => resident(self@, event_type@, state_key@).is_none(),
            },
    {
        match self.state.get(&event_type) {
            Some(inner) => inner.get(&state_key),
            None => None,
        }
    }

    /// The membership of `user_id` in this room: `Leave` where the room holds
    /// no membership event for the user, else what the resident event
    /// states, which is malformed if it states none.
    pub fn get_membership_state(&self, user_id: String) -> (r: Result<MembershipState, StateError>)
        ensures
            r == membership_of(self@, user_id@),
    {
        let event_type = "m.room.member".to_owned();
        match self.get_state_event(event_type, user_id) {
            Some(event) => membership_stated(event),
            None => Ok(MembershipState::Leave),
        }
    }
}

impl Room {
    /// The text that the room-wide event of type `event_type` holds in
    /// `field`.
    fn text_of_state(&self, event_type: &str, field: &str) -> (r: String)
        ensures
            r@ == room_text(self@, event_type@, field@),
    {
        let found = self.get_state_event(event_type.to_owned(), String::new());
        match found {
            Some(event) => match event.content.get(&field.to_owned()) {
                Some(value) => match value.as_text() {
                    Some(text) => text.clone(),
                    None => String::new(),
                },
                None => String::new(),
            },
            None => String::new(),
        }
    }

    /// How many users have joined.
    pub fn count_joined(&self) -> (n: u64)
        ensures
            n == joined_members(self@).len(),
    {
        let ghost p = |user: Seq<char>| has_joined(self@, user);
        match self.state.get(&"m.room.member".to_owned()) {
            Some(members) => {
                let mut count: u64 = 0;
                let mut i: usize = 0;
                while i < members.len()
                    invariant
                        i <= members.keys().len(),
                        count <= i,
                        count == count_where(members.keys(), p, i as nat),
                        self.state@.contains_key("m.room.member"@),
                        self.state@["m.room.member"@] == *members,
                        p == |user: Seq<char>| has_joined(self@, user),
                    decreases members.keys().len() - i,
                {
                    let event = members.value_at(i);
                    let joined = match membership_stated(event) {
                        Ok(MembershipState::Join) => true,
                        _ => false,
                    };
                    proof {
                        let user = members.keys()[i as int];
                        assert(self@.state.contains_key(("m.room.member"@, user)));
                        assert(self@.state[("m.room.member"@, user)] == event@);
                        assert(joined == p(user));
                    }
                    if joined {
                        count += 1;
                    }
                    i += 1;
                }
                proof {
                    use_type_invariant(members);
                    lemma_count_where(members.keys(), p, i as nat);
                    assert(joined_members(self@) =~= chosen(members.keys(), p, i as nat)) by {
                        assert forall|u: Seq<char>| has_joined(self@, u) implies chosen(
                            members.keys(),
                            p,
                            i as nat,
                        ).contains(u) by {
                            assert(members@.contains_key(u));
                            let j = members.keys().index_of(u);
                            assert(members.keys()[j] == u);
                        }
                    }
                }
                count
            },
            None => {
                assert(joined_members(self@) =~= Set::<Seq<char>>::empty());
                0
            },
        }
    }

    /// The room's summary, computed from the state as it is now.
    pub fn public_summary(&self) -> (r: PublicRoom)
        ensures
            r@ == summary_of(self@),
    {
        let visibility = self.text_of_state("m.room.history_visibility", "history_visibility");
        let join_rule = self.text_of_state("m.room.join_rules", "join_rule");
        PublicRoom {
            canonical_alias: self.text_of_state("m.room.canonical_alias", "alias"),
            name: self.text_of_state("m.room.name", "name"),
            world_readable: visibility == "world_readable".to_owned(),
            topic: self.text_of_state("m.room.topic", "topic"),
            num_joined_members: self.count_joined(),
            avatar_url: self.text_of_state("m.room.avatar", "url"),
            room_id: self.id.clone(),
            guest_can_join: join_rule == "public".to_owned(),
        }
    }
}

impl Clone for Room {
    /// Copies the room with all its resident events.
    fn clone(&self) -> (r: Self)
        ensures
            r@ == self@,
    {
        let r = Room { id: self.id.clone(), state: self.state.clone() };
        proof {
            assert(r@.state =~= self@.state);
        }
        r
    }
}

/// Applying an event a second time changes nothing.
pub proof fn lemma_apply_twice(room: RoomView, event: EventView)
    ensures
        applied(applied(room, event), event) == applied(room, event),
{
    if let Some(key) = event.state_key {
        assert(room.state.insert((event.etype, key), event).insert((event.etype, key), event)
            =~= room.state.insert((event.etype, key), event));
    }
}

/// Of two state events applied to one slot, the second alone is resident:
/// the room is as if the first had never been applied.
pub proof fn lemma_last_write_wins(room: RoomView, first: EventView, second: EventView)
    requires
        first.state_key.is_some(),
        second.state_key == first.state_key,
        second.etype == first.etype,
    ensures
        applied(applied(room, first), second) == applied(room, second),
        resident(applied(applied(room, first), second), second.etype, second.state_key.unwrap())
            == Some(second),
        first != second ==> resident(
            applied(applied(room, first), second),
            first.etype,
            first.state_key.unwrap(),
        ) != Some(first),
{
    let key = first.state_key.unwrap();
    assert(room.state.insert((first.etype, key), first).insert((first.etype, key), second)
        =~= room.state.insert((first.etype, key), second));
}

/// An event leaves every slot but its own as it was.
pub proof fn lemma_apply_elsewhere(
    room: RoomView,
    event: EventView,
    event_type: Seq<char>,
    state_key: Seq<char>,
)
    requires
        event.state_key != Some(state_key) || event.etype != event_type,
    ensures
        resident(applied(room, event), event_type, state_key) == resident(
            room,
            event_type,
            state_key,
        ),
{
}

/// A room that has seen no event of a type has no resident event under it,
/// whatever the state key.
pub proof fn lemma_unseen_type_absent(room: RoomView, event_type: Seq<char>, state_key: Seq<char>)
    requires
        forall|key: Seq<char>| !room.state.contains_key((event_type, key)),
    ensures
        resident(room, event_type, state_key).is_none(),
{
}

/// A user for whom the room holds no membership event has left.
pub proof fn lemma_membership_default(room: RoomView, user: Seq<char>)
    requires
        !room.state.contains_key(("m.room.member"@, user)),
    ensures
        membership_of(room, user) == Ok::<MembershipState, StateError>(MembershipState::Leave),
{
}

} // verus!
