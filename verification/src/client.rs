//! The websocket test client: the request it sends and how it reacts to
//! the server's answer.
use vstd::prelude::*;
use crate::message::NewEvent;

verus! {

/// A stored event as the client receives it.
pub struct REvent {
    pub id: i32,
    pub pk_owner: String,
    pub pk_user: String,
    pub event_meta: Vec<u8>,
    pub event_type: String,
    pub point_amount: i32,
}

/// The metadata that clients encode into an event's `event_meta` bytes.
pub struct EventMeta {
    pub event_type: i32,
    pub timestamp: i64,
    pub address: String,
    pub project_name: String,
    pub sign: String,
    pub sign_method: String,
    pub event_date: String,
    pub duration: i32,
}

/// The messages of the websocket protocol, as the client reads them.
pub enum Message {
    InsertEvent(NewEvent),
    QueryEvent,
    Response(Vec<REvent>),
    ResponseWriteId(i32),
}

/// The request the client sends first: it submits a sample event.
pub fn first_request() -> (m: Message)
    ensures
        m matches Message::InsertEvent(e) && e.pk_owner@ == "owner1"@ && e.pk_user@ == "user1"@
            && e.event_meta@ == seq![1u8, 2u8, 3u8] && e.event_type@ == "type1"@,
{
    Message::InsertEvent(
        NewEvent {
            pk_owner: String::from_str("owner1"),
            pk_user: String::from_str("user1"),
            event_meta: vec![1u8, 2u8, 3u8],
            event_type: String::from_str("type1"),
        },
    )
}

/// What the client does with a message from the server; after each it
/// closes the connection.
pub enum Reaction {
    /// Decode and print the metadata of the event at this index of the list.
    DecodeMeta(usize),
    /// Print the id the server stored the submitted event under.
    ReportWriteId(i32),
    /// Nothing to show.
    Close,
}

/// A list of events from the server must hold the event whose metadata the
/// client reads: the fourth from the end.
pub open spec fn reaction_defined(m: Message) -> bool {
    m is Response ==> m->Response_0.len() >= 4
}

/// The client's reaction to a message: from a list of events it decodes
/// the metadata of the fourth event from the end.
pub open spec fn reaction(m: Message) -> Reaction {
    match m {
        Message::Response(events) => Reaction::DecodeMeta((events.len() - 4) as usize),
        Message::ResponseWriteId(id) => Reaction::ReportWriteId(id),
        _ => Reaction::Close,
    }
}

/// From a list of events the client decodes the metadata of the fourth
/// event from the end: the index it picks is four below the list's length,
/// so exactly three events follow it.
pub proof fn lemma_decodes_fourth_from_end(events: Vec<REvent>)
    requires
        events.len() >= 4,
    ensures
        reaction(Message::Response(events)) is DecodeMeta,
        reaction(Message::Response(events))->DecodeMeta_0 + 4 == events.len(),
        events.len() - (reaction(Message::Response(events))->DecodeMeta_0 + 1) == 3,
{
}

/// A write id from the server is reported as it came, and a request echoed
/// back only closes the connection.
pub proof fn lemma_reports_write_id(id: i32)
    ensures
        reaction(Message::ResponseWriteId(id)) == Reaction::ReportWriteId(id),
        reaction(Message::QueryEvent) == Reaction::Close,
{
}

/// The client's reaction to a message from the server.
pub fn react(m: &Message) -> (r: Reaction)
    requires
        reaction_defined(*m),
    ensures
        r == reaction(*m),
        m is Response ==> r is DecodeMeta && r->DecodeMeta_0 + 4 == m->Response_0.len(),
        m is ResponseWriteId ==> r == Reaction::ReportWriteId(m->ResponseWriteId_0),
        m is InsertEvent || m is QueryEvent ==> r is Close,
{
    match m {
        Message::Response(events) => Reaction::DecodeMeta(events.len() - 4),
        Message::ResponseWriteId(id) => Reaction::ReportWriteId(*id),
        _ => Reaction::Close,
    }
}

} // verus!
