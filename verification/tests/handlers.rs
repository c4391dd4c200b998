use hpoint::client::{first_request, react, Message as ClientMessage, REvent, Reaction};
use hpoint::grpc::{insert_id, service_table_name, NodeConfig as GrpcNodeConfig, PgDbConfig as GrpcPgDbConfig};
use hpoint::message::{stored_event, Message, NewEvent};
use hpoint::pg::Event;
use hpoint::session::{start, step, Action, Frame, Outcome, Session};
use hpoint::websocket::{events_in_range, NodeConfig, PgDbConfig};

fn sample_event() -> NewEvent {
    NewEvent {
        pk_owner: "sglk".to_string(),
        pk_user: "sglk".to_string(),
        event_meta: vec![1, 2],
        event_type: "genius".to_string(),
    }
}

fn stored(id: i32) -> Event {
    Event {
        id,
        pk_owner: "o".to_string(),
        pk_user: "u".to_string(),
        event_meta: vec![id as u8],
        event_type: "t".to_string(),
        point_amount: 1,
    }
}

#[test]
fn stored_event_takes_next_id_and_one_point() {
    let ev = stored_event(0, sample_event());
    assert_eq!(ev.id, 1);
    assert_eq!(ev.point_amount, 1);
    assert_eq!(ev.pk_owner, "sglk");
    assert_eq!(ev.pk_user, "sglk");
    assert_eq!(ev.event_meta, vec![1, 2]);
    assert_eq!(ev.event_type, "genius");
    assert_eq!(stored_event(41, sample_event()).id, 42);
}

#[test]
fn session_creates_table_then_reads() {
    let (s, a) = start();
    assert!(matches!(s, Session::Opening));
    assert!(matches!(a, Action::CreateEventTable));
    let (s, a) = step(s, Outcome::Done);
    assert!(matches!(s, Session::Reading));
    assert!(matches!(a, Action::Read));
}

#[test]
fn session_answers_insert_with_stored_id() {
    let s = Session::Reading;
    let (s, a) = step(s, Outcome::Received(Frame::Message(Message::InsertEvent(sample_event()))));
    assert!(matches!(a, Action::QueryLatestId));
    let (s, a) = step(s, Outcome::LatestId(7));
    match a {
        Action::Insert(ev) => {
            assert_eq!(ev.id, 8);
            assert_eq!(ev.point_amount, 1);
            assert_eq!(ev.event_type, "genius");
        }
        _ => panic!("expected an insert"),
    }
    let (s, a) = step(s, Outcome::Done);
    assert!(matches!(a, Action::Send(Message::ResponseWriteId(8))));
    let (s, a) = step(s, Outcome::Done);
    assert!(matches!(s, Session::Reading));
    assert!(matches!(a, Action::Read));
}

#[test]
fn session_answers_query_with_all_events() {
    let (s, a) = step(Session::Reading, Outcome::Received(Frame::Message(Message::QueryEvent)));
    assert!(matches!(a, Action::QueryAll));
    let (s, a) = step(s, Outcome::Events(vec![stored(1), stored(2)]));
    match a {
        Action::Send(Message::Response(v)) => {
            assert_eq!(v.len(), 2);
            assert_eq!(v[0].id, 1);
            assert_eq!(v[1].id, 2);
        }
        _ => panic!("expected the events to be sent"),
    }
    let (s, a) = step(s, Outcome::Done);
    assert!(matches!(s, Session::Reading));
    assert!(matches!(a, Action::Read));
}

#[test]
fn session_skips_other_frames() {
    for f in [
        Frame::Unparsed,
        Frame::NonText,
        Frame::Message(Message::ResponseWriteId(3)),
        Frame::Message(Message::Response(vec![])),
    ] {
        let (s, a) = step(Session::Reading, Outcome::Received(f));
        assert!(matches!(s, Session::Reading));
        assert!(matches!(a, Action::Read));
    }
}

#[test]
fn session_ends_on_failure_or_end_of_stream() {
    let (s, a) = step(Session::Reading, Outcome::Received(Frame::Failed));
    assert!(matches!(s, Session::Closed));
    assert!(matches!(a, Action::Close));
    let (s, a) = step(Session::Reading, Outcome::Ended);
    assert!(matches!(s, Session::Closed));
    assert!(matches!(a, Action::Close));
    let (s, a) = step(s, Outcome::Done);
    assert!(matches!(s, Session::Closed));
    assert!(matches!(a, Action::Close));
    // An outcome that does not fit the state ends the connection.
    let (s, a) = step(Session::Querying, Outcome::Done);
    assert!(matches!(s, Session::Closed));
    assert!(matches!(a, Action::Close));
}

#[test]
fn grpc_insert_id_is_decimal_id() {
    assert_eq!(insert_id(&stored(1)), "1");
    assert_eq!(insert_id(&stored_event(99, sample_event())), "100");
    assert_eq!(service_table_name(), "sglk_event");
}

#[test]
fn range_selection_keeps_order() {
    let events = vec![stored(5), stored(1), stored(3), stored(9), stored(4)];
    let picked = events_in_range(events, 3, 5);
    let ids: Vec<i32> = picked.iter().map(|e| e.id).collect();
    assert_eq!(ids, vec![5, 3, 4]);
    assert!(events_in_range(vec![stored(1)], 2, 1).is_empty());
}

#[test]
fn node_configuration_names_database() {
    let db = PgDbConfig {
        host: "localhost".to_string(),
        port: 5432,
        user: "postgres".to_string(),
        password: "123".to_string(),
        dbname: "sglk_sample1".to_string(),
    };
    let node = NodeConfig { port: "127.0.0.1:8888".to_string(), wport: "0.0.0.0:8889".to_string(), db };
    let conf = node.pg_config();
    assert_eq!(conf.host, "localhost");
    assert_eq!(conf.port, 5432);
    assert_eq!(conf.user, "postgres");
    assert_eq!(conf.password, "123");
    assert_eq!(conf.dbname, "sglk_sample1");

    let gdb = GrpcPgDbConfig {
        host: "h".to_string(),
        port: 1,
        user: "u".to_string(),
        password: "p".to_string(),
        dbname: "d".to_string(),
    };
    let gconf = GrpcNodeConfig { port: "127.0.0.1:6666".to_string(), db: gdb }.pg_config();
    assert_eq!(gconf.host, "h");
    assert_eq!(gconf.port, 1);
    assert_eq!(gconf.dbname, "d");
}

fn r_event(id: i32) -> REvent {
    REvent {
        id,
        pk_owner: String::new(),
        pk_user: String::new(),
        event_meta: vec![],
        event_type: String::new(),
        point_amount: 1,
    }
}

#[test]
fn client_request_and_reactions() {
    match first_request() {
        ClientMessage::InsertEvent(e) => {
            assert_eq!(e.pk_owner, "owner1");
            assert_eq!(e.pk_user, "user1");
            assert_eq!(e.event_meta, vec![1, 2, 3]);
            assert_eq!(e.event_type, "type1");
        }
        _ => panic!("expected an insert request"),
    }
    let five = ClientMessage::Response((1..=5).map(r_event).collect());
    assert!(matches!(react(&five), Reaction::DecodeMeta(1)));
    let four = ClientMessage::Response((1..=4).map(r_event).collect());
    assert!(matches!(react(&four), Reaction::DecodeMeta(0)));
    assert!(matches!(react(&ClientMessage::ResponseWriteId(12)), Reaction::ReportWriteId(12)));
    assert!(matches!(react(&ClientMessage::QueryEvent), Reaction::Close));
}
