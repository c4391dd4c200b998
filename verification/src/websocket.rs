//! The websocket and HTTP server: its configuration and the selection the
//! range route answers with.
use vstd::prelude::*;
use crate::pg::{Event, PgConfig};

verus! {

/// The database part of the server configuration.
pub struct PgDbConfig {
    pub host: String,
    pub port: u16,
    pub user: String,
    pub password: String,
    pub dbname: String,
}

/// The server configuration: the websocket address, the HTTP address and
/// the database.
pub struct NodeConfig {
    pub port: String,
    pub wport: String,
    pub db: PgDbConfig,
}

impl PgDbConfig {
    /// The connection settings of the event database.
    pub fn pg_config(self) -> (conf: PgConfig)
        ensures
            conf == (PgConfig {
                host: self.host,
                port: self.port,
                user: self.user,
                password: self.password,
                dbname: self.dbname,
            }),
    {
        PgConfig {
            host: self.host,
            port: self.port,
            user: self.user,
            password: self.password,
            dbname: self.dbname,
        }
    }
}

impl NodeConfig {
    /// The connection settings of the event database that this
    /// configuration names.
    pub fn pg_config(self) -> (conf: PgConfig)
        ensures
            conf == (PgConfig {
                host: self.db.host,
                port: self.db.port,
                user: self.db.user,
                password: self.db.password,
                dbname: self.db.dbname,
            }),
    {
        self.db.pg_config()
    }
}

/// The body of a range request: the first and the last id wanted.
pub struct RangeQuery {
    pub startid: i32,
    pub lastid: i32,
}

/// The body of an HTTP answer: a list of stored events.
pub struct Response {
    pub message: Vec<Event>,
}

/// Whether an event's id lies between `start` and `last`, both included.
pub open spec fn id_in_range(start: i32, last: i32) -> spec_fn(Event) -> bool {
    |e: Event| start <= e.id && e.id <= last
}

/// The events whose id lies between `start` and `last`, both included, in
/// the order given.
pub fn events_in_range(events: Vec<Event>, start: i32, last: i32) -> (selected: Vec<Event>)
    ensures
        selected@ == events@.filter(id_in_range(start, last)),
{
    let ghost all = events@;
    let ghost pred = id_in_range(start, last);
    let mut rest = events;
    let mut selected: Vec<Event> = Vec::new();
    let ghost mut k: int = 0;
    while rest.len() > 0
        invariant
            0 <= k <= all.len(),
            pred == id_in_range(start, last),
            rest@ == all.skip(k),
            selected@ == all.take(k).filter(pred),
        decreases rest.len(),
    {
        let e = rest.remove(0);
        proof {
            assert(e == all[k]);
            let next = all.take(k + 1);
            assert(next.drop_last() =~= all.take(k));
            assert(next.last() == e);
            reveal(Seq::filter);
            assert(next.filter(pred) == if pred(e) {
                all.take(k).filter(pred).push(e)
            } else {
                all.take(k).filter(pred)
            });
        }
        if start <= e.id && e.id <= last {
            selected.push(e);
        }
        proof {
            assert(rest@ =~= all.skip(k + 1));
            k = k + 1;
        }
    }
    assert(all.take(k) =~= all);
    selected
}

/// The range selection keeps exactly the events in range, in order: each
/// selected event is in range and was given, and every given event in range
/// is selected.
pub proof fn lemma_range_selection(events: Seq<Event>, start: i32, last: i32)
    ensures
        forall|i: int|
            0 <= i < events.filter(id_in_range(start, last)).len() ==> {
                let e = #[trigger] events.filter(id_in_range(start, last))[i];
                &&& start <= e.id <= last
                &&& events.contains(e)
            },
        forall|i: int|
            0 <= i < events.len() && start <= #[trigger] events[i].id <= last ==> events.filter(
                id_in_range(start, last),
            ).contains(events[i]),
        events.filter(id_in_range(start, last)).len() <= events.len(),
{
    broadcast use vstd::seq_lib::group_filter_ensures;

    let pred = id_in_range(start, last);
    assert forall|i: int| 0 <= i < events.filter(pred).len() implies {
        let e = #[trigger] events.filter(pred)[i];
        &&& start <= e.id <= last
        &&& events.contains(e)
    } by {
        let e = events.filter(pred)[i];
        assert(events.filter(pred).contains(e));
        events.lemma_filter_contains_rev(pred, e);
    }
    assert forall|i: int|
        0 <= i < events.len() && start <= #[trigger] events[i].id <= last implies events.filter(
            pred,
        ).contains(events[i]) by {
        events.lemma_filter_contains(pred, i);
    }
}

} // verus!
