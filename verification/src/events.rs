use crate::error::StateError;
use crate::value::{Content, Value, ValueView};
use vstd::prelude::*;

verus! {

/// One event of the protocol.
#[derive(Debug)]
pub struct Event {
    /// Present, possibly empty, on a state event; absent on a message event.
    pub state_key: Option<String>,
    pub sender: String,
    pub etype: String,
    /// Milliseconds since the protocol's epoch.
    pub time_stamp: i64,
    pub id: String,
    pub room_id: String,
    /// The id of the event that this one nullifies, if it nullifies one.
    pub redacts: Option<String>,
    /// What the server added.
    pub unsigned: Content,
    pub content: Content,
    /// The payload that a state event replaced.
    pub prev_content: Content,
    pub is_init: bool,
}

/// What an `Event` stands for.
pub struct EventView {
    pub state_key: Option<Seq<char>>,
    pub sender: Seq<char>,
    pub etype: Seq<char>,
    pub time_stamp: i64,
    pub id: Seq<char>,
    pub room_id: Seq<char>,
    pub redacts: Option<Seq<char>>,
    pub unsigned: Map<Seq<char>, ValueView>,
    pub content: Map<Seq<char>, ValueView>,
    pub prev_content: Map<Seq<char>, ValueView>,
    pub is_init: bool,
}

/// The text of an optional string.
pub open spec fn text_of(s: Option<String>) -> Option<Seq<char>> {
    match s {
        Some(t) => Some(t@),
        None => None,
    }
}

/// The payload given, or the empty one where none is given.
pub open spec fn payload_of(c: Option<Content>) -> Map<Seq<char>, ValueView> {
    match c {
        Some(p) => p@,
        None => Map::empty(),
    }
}

/// Copies an optional string.
pub fn clone_text(s: &Option<String>) -> (r: Option<String>)
    ensures
        text_of(r) == text_of(*s),
{
    match s {
        Some(t) => Some(t.clone()),
        None => None,
    }
}

impl Event {
    pub open spec fn view(&self) -> EventView {
        EventView {
            state_key: text_of(self.state_key),
            sender: self.sender@,
            etype: self.etype@,
            time_stamp: self.time_stamp,
            id: self.id@,
            room_id: self.room_id@,
            redacts: text_of(self.redacts),
            unsigned: self.unsigned@,
            content: self.content@,
            prev_content: self.prev_content@,
            is_init: self.is_init,
        }
    }

    /// Only a state event carries the payload that it replaced.
    pub open spec fn wf(&self) -> bool {
        self.state_key.is_none() ==> self.prev_content@ == Map::<Seq<char>, ValueView>::empty()
    }

    /// Builds an event from the fields that came over the wire. The sender,
    /// the type, the id, the room and the payload are mandatory: where one is
    /// missing the event is malformed. A missing server annotation or replaced
    /// payload is empty, and a message event keeps no replaced payload.
    pub fn new(
        state_key: Option<String>,
        sender: Option<String>,
        etype: Option<String>,
        time_stamp: i64,
        id: Option<String>,
        room_id: Option<String>,
        redacts: Option<String>,
        unsigned: Option<Content>,
        content: Option<Content>,
        prev_content: Option<Content>,
        is_init: bool,
    ) -> (r: Result<Event, StateError>)
        ensures
            r.is_ok() <==> sender.is_some() && etype.is_some() && id.is_some() && room_id.is_some()
                && content.is_some(),
            r matches Err(e) ==> e == StateError::MalformedEvent,
            r matches Ok(e) ==> e.wf() && e@ == (EventView {
                state_key: text_of(state_key),
                sender: sender.unwrap()@,
                etype: etype.unwrap()@,
                time_stamp,
                id: id.unwrap()@,
                room_id: room_id.unwrap()@,
                redacts: text_of(redacts),
                unsigned: payload_of(unsigned),
                content: content.unwrap()@,
                prev_content: if state_key.is_some() {
                    payload_of(prev_content)
                } else {
                    Map::empty()
                },
                is_init,
            }),
    {
        match (sender, etype, id, room_id, content) {
            (Some(sender), Some(etype), Some(id), Some(room_id), Some(content)) => {
                let unsigned = match unsigned {
                    Some(u) => u,
                    None => Content::new(),
                };
                let prev_content = match prev_content {
                    Some(p) => if state_key.is_some() {
                        p
                    } else {
                        Content::new()
                    },
                    None => Content::new(),
                };
                Ok(
                    Event {
                        state_key,
                        sender,
                        etype,
                        time_stamp,
                        id,
                        room_id,
                        redacts,
                        unsigned,
                        content,
                        prev_content,
                        is_init,
                    },
                )
            },
            _ => Err(StateError::MalformedEvent),
        }
    }

    /// The payload's `body`, if it has one.
    pub fn body(&self) -> (r: Option<&Value>)
        ensures
            match r {
                Some(v) => self@.content.contains_key("body"@) && v@ == self@.content["body"@],
                None => !self@.content.contains_key("body"@),
            },
    {
        let key = "body".to_owned();
        self.content.get(&key)
    }

    /// The payload's `msgtype`, if it has one.
    pub fn message_type(&self) -> (r: Option<&Value>)
        ensures
            match r {
                Some(v) => self@.content.contains_key("msgtype"@) && v@
                    == self@.content["msgtype"@],
                None => !self@.content.contains_key("msgtype"@),
            },
    {
        let key = "msgtype".to_owned();
        self.content.get(&key)
    }
}

impl Clone for Event {
    fn clone(&self) -> (r: Self)
        ensures
            r@ == self@,
    {
        Event {
            state_key: clone_text(&self.state_key),
            sender: self.sender.clone(),
            etype: self.etype.clone(),
            time_stamp: self.time_stamp,
            id: self.id.clone(),
            room_id: self.room_id.clone(),
            redacts: clone_text(&self.redacts),
            unsigned: self.unsigned.clone(),
            content: self.content.clone(),
            prev_content: self.prev_content.clone(),
            is_init: self.is_init,
        }
    }
}

} // verus!
