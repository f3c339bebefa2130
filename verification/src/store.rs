use crate::error::StateError;
use crate::room::{Room, RoomView};
use crate::text_map::TextMap;
use vstd::prelude::*;

verus! {

/// What a store holds: three key spaces with nothing between them.
pub struct StoreContents {
    /// The filter id saved for each user.
    pub filters: Map<Seq<char>, Seq<char>>,
    /// The sync cursor saved for each user.
    pub next_batch: Map<Seq<char>, Seq<char>>,
    /// The snapshot saved for each room id.
    pub rooms: Map<Seq<char>, RoomView>,
}

/// What a load returns for `key`: what was saved under it, or that nothing was.
pub open spec fn loaded<T>(saved: Map<Seq<char>, T>, key: Seq<char>) -> Result<T, StateError> {
    if saved.contains_key(key) {
        Ok(saved[key])
    } else {
        Err(StateError::NotFound)
    }
}

/// What text a load returned, or its error.
pub open spec fn text_result(r: Result<String, StateError>) -> Result<Seq<char>, StateError> {
    match r {
        Ok(s) => Ok(s@),
        Err(e) => Err(e),
    }
}

/// What room a load returned, or its error.
pub open spec fn room_result(r: Result<Room, StateError>) -> Result<RoomView, StateError> {
    match r {
        Ok(room) => Ok(room@),
        Err(e) => Err(e),
    }
}

/// What was saved under a key is what a load under that key returns.
pub proof fn lemma_save_then_load<T>(saved: Map<Seq<char>, T>, key: Seq<char>, value: T)
    ensures
        loaded(saved.insert(key, value), key) == Ok::<T, StateError>(value),
{
}

/// A save under one key leaves what a load under another key returns.
pub proof fn lemma_save_elsewhere<T>(
    saved: Map<Seq<char>, T>,
    key: Seq<char>,
    value: T,
    other: Seq<char>,
)
    requires
        other != key,
    ensures
        loaded(saved.insert(key, value), other) == loaded(saved, other),
{
}

/// A load under a key that nothing was saved under reports that, and
/// returns no value in its place.
pub proof fn lemma_unseen_not_found<T>(saved: Map<Seq<char>, T>, key: Seq<char>)
    requires
        !saved.contains_key(key),
    ensures
        loaded(saved, key) == Err::<T, StateError>(StateError::NotFound),
{
}

/// Keeps, from one session to the next, each user's filter id and sync
/// cursor and a snapshot of each room. A save replaces what was saved under
/// the same key and touches nothing else; a load leaves the store as it is.
pub trait Storer {
    /// What the store holds.
    spec fn contents(&self) -> StoreContents;

    fn save_filter_id(&mut self, user_id: String, filter_id: String)
        ensures
            final(self).contents() == (StoreContents {
                filters: old(self).contents().filters.insert(user_id@, filter_id@),
                ..old(self).contents()
            }),
    ;

    fn load_filter_id(&self, user_id: String) -> (r: Result<String, StateError>)
        ensures
            text_result(r) == loaded(self.contents().filters, user_id@),
    ;

    fn save_next_batch(&mut self, user_id: String, next_batch_token: String)
        ensures
            final(self).contents() == (StoreContents {
                next_batch: old(self).contents().next_batch.insert(user_id@, next_batch_token@),
                ..old(self).contents()
            }),
    ;

    fn load_next_batch(&self, user_id: String) -> (r: Result<String, StateError>)
        ensures
            text_result(r) == loaded(self.contents().next_batch, user_id@),
    ;

    fn save_room(&mut self, room: Room)
        ensures
            final(self).contents() == (StoreContents {
                rooms: old(self).contents().rooms.insert(room@.id, room@),
                ..old(self).contents()
            }),
    ;

    fn load_room(&self, room_id: String) -> (r: Result<Room, StateError>)
        ensures
            room_result(r) == loaded(self.contents().rooms, room_id@),
    ;
}

/// Saves `room` and loads it again under its id: the snapshot that comes
/// back is the room that went in.
pub fn save_and_reload<S: Storer>(store: &mut S, room: Room) -> (r: Result<Room, StateError>)
    ensures
        room_result(r) == Ok::<RoomView, StateError>(room@),
        final(store).contents() == (StoreContents {
            rooms: old(store).contents().rooms.insert(room@.id, room@),
            ..old(store).contents()
        }),
{
    let room_id = room.id().clone();
    store.save_room(room);
    store.load_room(room_id)
}

/// A store that keeps everything in memory.
#[derive(Debug)]
pub struct InMemoryStore {
    filters: TextMap<String>,
    next_batch: TextMap<String>,
    rooms: TextMap<Room>,
}

/// The texts that a map of strings holds.
pub open spec fn texts(m: Map<Seq<char>, String>) -> Map<Seq<char>, Seq<char>> {
    m.map_values(|s: String| s@)
}

/// The rooms that a map of rooms holds.
pub open spec fn snapshots(m: Map<Seq<char>, Room>) -> Map<Seq<char>, RoomView> {
    m.map_values(|room: Room| room@)
}

impl InMemoryStore {
    /// Makes a store with nothing saved.
    pub fn new() -> (store: Self)
        ensures
            store.contents() == (StoreContents {
                filters: Map::empty(),
                next_batch: Map::empty(),
                rooms: Map::empty(),
            }),
    {
        let store = InMemoryStore {
            filters: TextMap::new(),
            next_batch: TextMap::new(),
            rooms: TextMap::new(),
        };
        proof {
            assert(store.contents().filters =~= Map::empty());
            assert(store.contents().next_batch =~= Map::empty());
            assert(store.contents().rooms =~= Map::empty());
        }
        store
    }
}

impl Storer for InMemoryStore {
    closed spec fn contents(&self) -> StoreContents {
        StoreContents {
            filters: texts(self.filters@),
            next_batch: texts(self.next_batch@),
            rooms: snapshots(self.rooms@),
        }
    }

    fn save_filter_id(&mut self, user_id: String, filter_id: String) {
        self.filters.insert(user_id, filter_id);
        proof {
            assert(texts(self.filters@) =~= texts(old(self).filters@).insert(
                user_id@,
                filter_id@,
            ));
        }
    }

    fn load_filter_id(&self, user_id: String) -> (r: Result<String, StateError>) {
        match self.filters.get(&user_id) {
            Some(id) => Ok(id.clone()),
            None => Err(StateError::NotFound),
        }
    }

    fn save_next_batch(&mut self, user_id: String, next_batch_token: String) {
        self.next_batch.insert(user_id, next_batch_token);
        proof {
            assert(texts(self.next_batch@) =~= texts(old(self).next_batch@).insert(
                user_id@,
                next_batch_token@,
            ));
        }
    }

    fn load_next_batch(&self, user_id: String) -> (r: Result<String, StateError>) {
        match self.next_batch.get(&user_id) {
            Some(token) => Ok(token.clone()),
            None => Err(StateError::NotFound),
        }
    }

    fn save_room(&mut self, room: Room) {
        let room_id = room.id().clone();
        self.rooms.insert(room_id, room);
        proof {
            assert(snapshots(self.rooms@) =~= snapshots(old(self).rooms@).insert(
                room@.id,
                room@,
            ));
        }
    }

    fn load_room(&self, room_id: String) -> (r: Result<Room, StateError>) {
        match self.rooms.get(&room_id) {
            Some(room) => Ok(room.clone()),
            None => Err(StateError::NotFound),
        }
    }
}

} // verus!
