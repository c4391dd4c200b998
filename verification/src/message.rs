//! What the websocket server and its clients send each other.
use vstd::prelude::*;
use crate::pg::{Event, latest_of};

verus! {

/// An event as a client submits it: without id and points, which the
/// server assigns.
pub struct NewEvent {
    pub pk_owner: String,
    pub pk_user: String,
    pub event_meta: Vec<u8>,
    pub event_type: String,
}

/// The messages of the websocket protocol.
pub enum Message {
    /// A client asks to store an event.
    InsertEvent(NewEvent),
    /// A client asks for every stored event.
    QueryEvent,
    /// The server answers a query with the stored events.
    Response(Vec<Event>),
    /// The server answers an insert with the id it stored the event under.
    ResponseWriteId(i32),
}

/// The record stored for a submitted event when the largest stored id is
/// `latest`: the next id, one point, and the submitted fields unchanged.
pub open spec fn stored_event_spec(latest: i32, event: NewEvent) -> Event {
    Event {
        id: (latest + 1) as i32,
        pk_owner: event.pk_owner,
        pk_user: event.pk_user,
        event_meta: event.event_meta,
        event_type: event.event_type,
        point_amount: 1,
    }
}

/// The record stored for a submitted event when the largest stored id is
/// `latest`.
pub fn stored_event(latest: i32, event: NewEvent) -> (stored: Event)
    requires
        latest < i32::MAX,
    ensures
        stored == stored_event_spec(latest, event),
        stored.id == latest + 1,
        stored.pk_owner == event.pk_owner,
        stored.pk_user == event.pk_user,
        stored.event_meta == event.event_meta,
        stored.event_type == event.event_type,
        stored.point_amount == 1,
{
    Event {
        id: latest + 1,
        pk_owner: event.pk_owner,
        pk_user: event.pk_user,
        event_meta: event.event_meta,
        event_type: event.event_type,
        point_amount: 1,
    }
}

/// A stored event gets an id above the largest one stored before it.
pub proof fn lemma_stored_id_above_latest(latest: i32, event: NewEvent)
    requires
        latest < i32::MAX,
    ensures
        stored_event_spec(latest, event).id > latest,
        stored_event_spec(latest, event).id == latest + 1,
{
}

/// The stored record keeps every submitted field where it was submitted:
/// the owner stays the owner, the user the user, and the metadata and type
/// are unchanged; it gets the next id and one point.
pub proof fn lemma_stored_event_keeps_fields(latest: i32, event: NewEvent)
    requires
        latest < i32::MAX,
    ensures
        stored_event_spec(latest, event).pk_owner == event.pk_owner,
        stored_event_spec(latest, event).pk_user == event.pk_user,
        stored_event_spec(latest, event).event_meta == event.event_meta,
        stored_event_spec(latest, event).event_type == event.event_type,
        stored_event_spec(latest, event).id == latest + 1,
        stored_event_spec(latest, event).point_amount == 1,
{
}

/// In an empty event table the latest id reads as 0, so the first event
/// submitted is stored under id 1.
pub proof fn lemma_first_event_gets_id_one(event: NewEvent)
    ensures
        latest_of(Seq::<i32>::empty()) == 0,
        stored_event_spec(latest_of(Seq::<i32>::empty()), event).id == 1,
{
}

} // verus!
