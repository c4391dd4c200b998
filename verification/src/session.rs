//! The decisions of one websocket connection of the event server.
//!
//! The connection first makes sure the event table exists, then reads
//! frames one by one. An insert request reads the latest id, stores the
//! event under the next one and answers with that id; a query request
//! reads every stored event and answers with them; everything else is
//! skipped. The caller performs each `Action` and hands back its `Outcome`.
use vstd::prelude::*;
use crate::pg::Event;
use crate::message::{Message, NewEvent, stored_event, stored_event_spec};

verus! {

/// What reading one frame of the connection gave.
pub enum Frame {
    /// A text frame that holds a message.
    Message(Message),
    /// A text frame that holds no message the server knows.
    Unparsed,
    /// A frame that is not text.
    NonText,
    /// The read failed.
    Failed,
}

/// What performing the last action gave.
pub enum Outcome {
    /// The action completed and returns nothing.
    Done,
    /// A frame was read.
    Received(Frame),
    /// The client closed the connection: there is nothing more to read.
    Ended,
    /// The largest id stored in the event table (0 when it is empty).
    LatestId(i32),
    /// Every stored event.
    Events(Vec<Event>),
}

/// What the connection asks its caller to do next.
pub enum Action {
    /// Create the event table (a failure is ignored).
    CreateEventTable,
    /// Read the next frame.
    Read,
    /// Read the largest id of the event table.
    QueryLatestId,
    /// Store this event (a failure is ignored).
    Insert(Event),
    /// Read every stored event.
    QueryAll,
    /// Send this message to the client.
    Send(Message),
    /// Stop serving the connection.
    Close,
}

/// Where the connection stands.
pub enum Session {
    /// The event table is being created.
    Opening,
    /// Waiting for the next frame.
    Reading,
    /// An insert request waits for the latest id.
    AwaitingLatestId(NewEvent),
    /// The event is being stored under this id.
    Storing(i32),
    /// A query request waits for the stored events.
    Querying,
    /// An answer is being sent.
    Replying,
    /// The connection is over.
    Closed,
}

/// The next state and action of a connection in state `s` once the last
/// action gave `o`. An outcome that does not fit the state ends the connection.
pub open spec fn transition(s: Session, o: Outcome) -> (Session, Action) {
    match s {
        Session::Opening => match o {
            Outcome::Done => (Session::Reading, Action::Read),
            _ => (Session::Closed, Action::Close),
        },
        Session::Reading => match o {
            Outcome::Received(Frame::Message(Message::InsertEvent(e))) => (
                Session::AwaitingLatestId(e),
                Action::QueryLatestId,
            ),
            Outcome::Received(Frame::Message(Message::QueryEvent)) => (
                Session::Querying,
                Action::QueryAll,
            ),
            Outcome::Received(Frame::Failed) => (Session::Closed, Action::Close),
            Outcome::Received(_) => (Session::Reading, Action::Read),
            _ => (Session::Closed, Action::Close),
        },
        Session::AwaitingLatestId(e) => match o {
            Outcome::LatestId(n) => (
                Session::Storing((n + 1) as i32),
                Action::Insert(stored_event_spec(n, e)),
            ),
            _ => (Session::Closed, Action::Close),
        },
        Session::Storing(id) => match o {
            Outcome::Done => (Session::Replying, Action::Send(Message::ResponseWriteId(id))),
            _ => (Session::Closed, Action::Close),
        },
        Session::Querying => match o {
            Outcome::Events(v) => (Session::Replying, Action::Send(Message::Response(v))),
            _ => (Session::Closed, Action::Close),
        },
        Session::Replying => match o {
            Outcome::Done => (Session::Reading, Action::Read),
            _ => (Session::Closed, Action::Close),
        },
        Session::Closed => (Session::Closed, Action::Close),
    }
}

/// The next id cannot be computed when the latest id is already the
/// largest `i32`; every other pair of state and outcome has a next step.
pub open spec fn step_defined(s: Session, o: Outcome) -> bool {
    s is AwaitingLatestId && o is LatestId ==> o->LatestId_0 < i32::MAX
}

/// The first state and action of a new connection.
pub fn start() -> (r: (Session, Action))
    ensures
        r == (Session::Opening, Action::CreateEventTable),
{
    (Session::Opening, Action::CreateEventTable)
}

/// The next state and action of a connection.
pub fn step(s: Session, o: Outcome) -> (r: (Session, Action))
    requires
        step_defined(s, o),
    ensures
        r == transition(s, o),
{
    match s {
        Session::Opening => match o {
            Outcome::Done => (Session::Reading, Action::Read),
            _ => (Session::Closed, Action::Close),
        },
        Session::Reading => match o {
            Outcome::Received(frame) => match frame {
                Frame::Message(message) => match message {
                    Message::InsertEvent(e) => (Session::AwaitingLatestId(e), Action::QueryLatestId),
                    Message::QueryEvent => (Session::Querying, Action::QueryAll),
                    _ => (Session::Reading, Action::Read),
                },
                Frame::Failed => (Session::Closed, Action::Close),
                _ => (Session::Reading, Action::Read),
            },
            _ => (Session::Closed, Action::Close),
        },
        Session::AwaitingLatestId(e) => match o {
            Outcome::LatestId(n) => {
                let stored = stored_event(n, e);
                (Session::Storing(n + 1), Action::Insert(stored))
            },
            _ => (Session::Closed, Action::Close),
        },
        Session::Storing(id) => match o {
            Outcome::Done => (Session::Replying, Action::Send(Message::ResponseWriteId(id))),
            _ => (Session::Closed, Action::Close),
        },
        Session::Querying => match o {
            Outcome::Events(v) => (Session::Replying, Action::Send(Message::Response(v))),
            _ => (Session::Closed, Action::Close),
        },
        Session::Replying => match o {
            Outcome::Done => (Session::Reading, Action::Read),
            _ => (Session::Closed, Action::Close),
        },
        Session::Closed => (Session::Closed, Action::Close),
    }
}

/// An insert request, answered in full: the latest id is read, the store is
/// asked to write the event under the next id with one point and its
/// submitted fields (a failure of that write is not looked at), the client
/// is answered with exactly the id the write was asked for, and the
/// connection goes back to reading.
pub proof fn lemma_insert_answers_stored_id(e: NewEvent, latest: i32)
    requires
        latest < i32::MAX,
    ensures
        ({
            let (s1, a1) = transition(Session::Reading, Outcome::Received(Frame::Message(Message::InsertEvent(e))));
            let (s2, a2) = transition(s1, Outcome::LatestId(latest));
            let (s3, a3) = transition(s2, Outcome::Done);
            let (s4, a4) = transition(s3, Outcome::Done);
            &&& a1 == Action::QueryLatestId
            &&& a2 == Action::Insert(stored_event_spec(latest, e))
            &&& a3 == Action::Send(Message::ResponseWriteId(stored_event_spec(latest, e).id))
            &&& stored_event_spec(latest, e).id == latest + 1
            &&& stored_event_spec(latest, e).point_amount == 1
            &&& s4 == Session::Reading
            &&& a4 == Action::Read
        }),
{
}

/// The write a connection asks for after an insert request carries the
/// submitted owner as owner, the submitted user as user, the submitted
/// metadata and type, the id one above the latest id and one point; the
/// answer then names that id.
pub proof fn lemma_insert_writes_submitted_fields(e: NewEvent, latest: i32)
    requires
        latest < i32::MAX,
    ensures
        ({
            let (s1, a1) = transition(Session::AwaitingLatestId(e), Outcome::LatestId(latest));
            &&& a1 is Insert
            &&& a1->Insert_0.pk_owner == e.pk_owner
            &&& a1->Insert_0.pk_user == e.pk_user
            &&& a1->Insert_0.event_meta == e.event_meta
            &&& a1->Insert_0.event_type == e.event_type
            &&& a1->Insert_0.id == latest + 1
            &&& a1->Insert_0.point_amount == 1
            &&& transition(s1, Outcome::Done).1 == Action::Send(Message::ResponseWriteId((latest + 1) as i32))
        }),
{
}

/// A query request, answered in full: every stored event is read and sent
/// back unchanged and in the order read, and the connection goes back to reading.
pub proof fn lemma_query_answers_all_events(events: Vec<Event>)
    ensures
        ({
            let (s1, a1) = transition(Session::Reading, Outcome::Received(Frame::Message(Message::QueryEvent)));
            let (s2, a2) = transition(s1, Outcome::Events(events));
            let (s3, a3) = transition(s2, Outcome::Done);
            &&& a1 == Action::QueryAll
            &&& a2 == Action::Send(Message::Response(events))
            &&& s3 == Session::Reading
            &&& a3 == Action::Read
        }),
{
}

/// Frames that are neither an insert nor a query request (answers sent by a
/// client, text that is no message, frames that are not text) are skipped:
/// nothing is done and the next frame is read.
pub proof fn lemma_other_frames_skipped(f: Frame)
    requires
        !(f matches Frame::Message(Message::InsertEvent(_))),
        !(f matches Frame::Message(Message::QueryEvent)),
        !(f is Failed),
    ensures
        transition(Session::Reading, Outcome::Received(f)) == (Session::Reading, Action::Read),
{
}

/// A failed read, or the end of the stream, ends the connection, and an
/// ended connection does nothing more whatever it is handed.
pub proof fn lemma_connection_ends(o: Outcome)
    ensures
        transition(Session::Reading, Outcome::Ended) == (Session::Closed, Action::Close),
        transition(Session::Reading, Outcome::Received(Frame::Failed)) == (Session::Closed, Action::Close),
        transition(Session::Closed, o) == (Session::Closed, Action::Close),
{
}

/// The state reached and the actions asked for when the outcomes `os` are
/// handed, one after the other, to a connection in state `s`.
pub open spec fn run(s: Session, os: Seq<Outcome>) -> (Session, Seq<Action>)
    decreases os.len(),
{
    if os.len() == 0 {
        (s, Seq::empty())
    } else {
        let (s1, a1) = transition(s, os[0]);
        let (s2, rest) = run(s1, os.drop_first());
        (s2, seq![a1] + rest)
    }
}

/// The messages sent by a sequence of actions, in order.
pub open spec fn sent(actions: Seq<Action>) -> Seq<Message>
    decreases actions.len(),
{
    if actions.len() == 0 {
        Seq::empty()
    } else {
        let first = match actions[0] {
            Action::Send(m) => seq![m],
            _ => Seq::empty(),
        };
        first + sent(actions.drop_first())
    }
}

/// The outcomes a connection is handed for one frame read while it waits
/// for frames, when every database call and send succeeds: the frame, then
/// for an insert request the latest id `latest` and two completions, for a
/// query request the stored events `events` and one completion.
pub open spec fn frame_outcomes(f: Frame, latest: i32, events: Vec<Event>) -> Seq<Outcome> {
    match f {
        Frame::Message(Message::InsertEvent(e)) => seq![
            Outcome::Received(Frame::Message(Message::InsertEvent(e))),
            Outcome::LatestId(latest),
            Outcome::Done,
            Outcome::Done,
        ],
        Frame::Message(Message::QueryEvent) => seq![
            Outcome::Received(Frame::Message(Message::QueryEvent)),
            Outcome::Events(events),
            Outcome::Done,
        ],
        _ => seq![Outcome::Received(f)],
    }
}

/// The answer owed to one frame: the id asked to be written for an insert
/// request, the stored events for a query request, nothing otherwise.
pub open spec fn frame_replies(f: Frame, latest: i32, events: Vec<Event>) -> Seq<Message> {
    match f {
        Frame::Message(Message::InsertEvent(_)) => seq![Message::ResponseWriteId((latest + 1) as i32)],
        Frame::Message(Message::QueryEvent) => seq![Message::Response(events)],
        _ => Seq::empty(),
    }
}

/// The outcomes for a stream of frames, frame `i` answered by the database
/// with `latest[i]` or `events[i]`.
pub open spec fn stream_outcomes(frames: Seq<Frame>, latest: Seq<i32>, events: Seq<Vec<Event>>) -> Seq<Outcome>
    decreases frames.len(),
{
    if frames.len() == 0 {
        Seq::empty()
    } else {
        frame_outcomes(frames[0], latest[0], events[0]) + stream_outcomes(
            frames.drop_first(),
            latest.drop_first(),
            events.drop_first(),
        )
    }
}

/// The answers owed to a stream of frames, in order.
pub open spec fn stream_replies(frames: Seq<Frame>, latest: Seq<i32>, events: Seq<Vec<Event>>) -> Seq<Message>
    decreases frames.len(),
{
    if frames.len() == 0 {
        Seq::empty()
    } else {
        frame_replies(frames[0], latest[0], events[0]) + stream_replies(
            frames.drop_first(),
            latest.drop_first(),
            events.drop_first(),
        )
    }
}

/// The frames a stream can hold for this law: no failed read, and no
/// insert request answered with the largest `i32` as latest id.
pub open spec fn stream_defined(frames: Seq<Frame>, latest: Seq<i32>, events: Seq<Vec<Event>>) -> bool {
    &&& latest.len() == frames.len()
    &&& events.len() == frames.len()
    &&& forall|i: int| 0 <= i < frames.len() ==> !(#[trigger] frames[i] is Failed)
    &&& forall|i: int|
        0 <= i < frames.len() && (#[trigger] frames[i] matches Frame::Message(Message::InsertEvent(_)))
            ==> latest[i] < i32::MAX
}

proof fn lemma_run_append(s: Session, a: Seq<Outcome>, b: Seq<Outcome>)
    ensures
        run(s, a + b) == ({
            let (s1, acts1) = run(s, a);
            let (s2, acts2) = run(s1, b);
            (s2, acts1 + acts2)
        }),
    decreases a.len(),
{
    if a.len() == 0 {
        assert(a + b =~= b);
        let (s2, acts2) = run(s, b);
        assert(Seq::<Action>::empty() + acts2 =~= acts2);
    } else {
        assert((a + b).drop_first() =~= a.drop_first() + b);
        let (s1, a1) = transition(s, a[0]);
        assert((a + b)[0] == a[0]);
        lemma_run_append(s1, a.drop_first(), b);
        let (t1, r1) = run(s1, a.drop_first());
        let (t2, r2) = run(t1, b);
        assert(seq![a1] + (r1 + r2) =~= (seq![a1] + r1) + r2);
    }
}

proof fn lemma_sent_append(a: Seq<Action>, b: Seq<Action>)
    ensures
        sent(a + b) == sent(a) + sent(b),
    decreases a.len(),
{
    if a.len() == 0 {
        assert(a + b =~= b);
        assert(Seq::<Message>::empty() + sent(b) =~= sent(b));
    } else {
        assert((a + b).drop_first() =~= a.drop_first() + b);
        assert((a + b)[0] == a[0]);
        lemma_sent_append(a.drop_first(), b);
        let first = match a[0] {
            Action::Send(m) => seq![m],
            _ => Seq::<Message>::empty(),
        };
        assert(first + (sent(a.drop_first()) + sent(b)) =~= (first + sent(a.drop_first())) + sent(b));
    }
}

proof fn lemma_one_frame(f: Frame, latest: i32, events: Vec<Event>)
    requires
        !(f is Failed),
        f matches Frame::Message(Message::InsertEvent(_)) ==> latest < i32::MAX,
    ensures
        run(Session::Reading, frame_outcomes(f, latest, events)).0 == Session::Reading,
        sent(run(Session::Reading, frame_outcomes(f, latest, events)).1) == frame_replies(f, latest, events),
{
    reveal_with_fuel(run, 5);
    reveal_with_fuel(sent, 5);
    let os = frame_outcomes(f, latest, events);
    let acts = run(Session::Reading, os).1;
    match f {
        Frame::Message(Message::InsertEvent(e)) => {
            assert(os.drop_first() =~= seq![Outcome::LatestId(latest), Outcome::Done, Outcome::Done]);
            assert(os.drop_first().drop_first() =~= seq![Outcome::Done, Outcome::Done]);
            assert(os.drop_first().drop_first().drop_first() =~= seq![Outcome::Done]);
            assert(os.drop_first().drop_first().drop_first().drop_first() =~= Seq::<Outcome>::empty());
            assert(acts.len() == 4);
            assert(acts.drop_first() =~= acts.subrange(1, 4));
            assert(acts.drop_first().drop_first() =~= acts.subrange(2, 4));
            assert(acts.drop_first().drop_first().drop_first() =~= acts.subrange(3, 4));
            assert(acts.drop_first().drop_first().drop_first().drop_first() =~= Seq::<Action>::empty());
            assert(sent(acts) =~= frame_replies(f, latest, events));
        },
        Frame::Message(Message::QueryEvent) => {
            assert(os.drop_first() =~= seq![Outcome::Events(events), Outcome::Done]);
            assert(os.drop_first().drop_first() =~= seq![Outcome::Done]);
            assert(os.drop_first().drop_first().drop_first() =~= Seq::<Outcome>::empty());
            assert(acts.len() == 3);
            assert(acts.drop_first() =~= acts.subrange(1, 3));
            assert(acts.drop_first().drop_first() =~= acts.subrange(2, 3));
            assert(acts.drop_first().drop_first().drop_first() =~= Seq::<Action>::empty());
            assert(sent(acts) =~= frame_replies(f, latest, events));
        },
        _ => {
            assert(os.drop_first() =~= Seq::<Outcome>::empty());
            assert(acts.drop_first() =~= Seq::<Action>::empty());
            assert(sent(acts) =~= frame_replies(f, latest, events));
        },
    }
}

proof fn lemma_frames_served(frames: Seq<Frame>, latest: Seq<i32>, events: Seq<Vec<Event>>)
    requires
        stream_defined(frames, latest, events),
    ensures
        run(Session::Reading, stream_outcomes(frames, latest, events)).0 == Session::Reading,
        sent(run(Session::Reading, stream_outcomes(frames, latest, events)).1) == stream_replies(
            frames,
            latest,
            events,
        ),
    decreases frames.len(),
{
    if frames.len() == 0 {
        assert(sent(Seq::<Action>::empty()) =~= Seq::<Message>::empty());
    } else {
        let head = frame_outcomes(frames[0], latest[0], events[0]);
        let tail = stream_outcomes(frames.drop_first(), latest.drop_first(), events.drop_first());
        assert(!(frames[0] is Failed));
        assert(frames[0] matches Frame::Message(Message::InsertEvent(_)) ==> latest[0] < i32::MAX);
        lemma_one_frame(frames[0], latest[0], events[0]);
        assert forall|i: int| 0 <= i < frames.drop_first().len() implies !(#[trigger] frames.drop_first()[i] is Failed) by {
            assert(frames.drop_first()[i] == frames[i + 1]);
        }
        assert forall|i: int|
            0 <= i < frames.drop_first().len()
                && (#[trigger] frames.drop_first()[i] matches Frame::Message(Message::InsertEvent(_)))
                implies latest.drop_first()[i] < i32::MAX by {
            assert(frames.drop_first()[i] == frames[i + 1]);
        }
        lemma_frames_served(frames.drop_first(), latest.drop_first(), events.drop_first());
        lemma_run_append(Session::Reading, head, tail);
        let (s1, a1) = run(Session::Reading, head);
        let (s2, a2) = run(s1, tail);
        lemma_sent_append(a1, a2);
    }
}

/// One answer per request over a whole stream: a connection that is
/// reading, handed a stream of frames in which no read fails, with every
/// database call and send succeeding and the stream then ending, sends
/// exactly one answer per insert request (the id asked to be written) and
/// one per query request (the stored events), in the order of the requests,
/// nothing for any other frame, and then closes.
pub proof fn lemma_one_answer_per_request(frames: Seq<Frame>, latest: Seq<i32>, events: Seq<Vec<Event>>)
    requires
        stream_defined(frames, latest, events),
    ensures
        ({
            let (s, acts) = run(
                Session::Reading,
                stream_outcomes(frames, latest, events).push(Outcome::Ended),
            );
            &&& s == Session::Closed
            &&& acts.len() > 0
            &&& acts.last() == Action::Close
            &&& sent(acts) == stream_replies(frames, latest, events)
        }),
{
    let os = stream_outcomes(frames, latest, events);
    lemma_frames_served(frames, latest, events);
    assert(os.push(Outcome::Ended) =~= os + seq![Outcome::Ended]);
    lemma_run_append(Session::Reading, os, seq![Outcome::Ended]);
    let (s1, a1) = run(Session::Reading, os);
    reveal_with_fuel(run, 2);
    reveal_with_fuel(sent, 2);
    let (s2, a2) = run(s1, seq![Outcome::Ended]);
    assert(seq![Outcome::Ended].drop_first() =~= Seq::<Outcome>::empty());
    assert(a2 =~= seq![Action::Close]);
    assert(a2.drop_first() =~= Seq::<Action>::empty());
    lemma_sent_append(a1, a2);
    assert(sent(a2) =~= Seq::<Message>::empty());
    assert(sent(a1) + sent(a2) =~= sent(a1));
}

/// A new connection creates the event table before it reads any frame.
pub proof fn lemma_table_created_first()
    ensures
        transition(Session::Opening, Outcome::Done) == (Session::Reading, Action::Read),
{
}

} // verus!
