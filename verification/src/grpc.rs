//! The gRPC point service: its configuration and the id text it answers
//! an insert with.
use vstd::prelude::*;
use crate::pg::{Event, PgConfig};
use crate::message::{NewEvent, stored_event_spec};
use crate::text::{signed_decimal, i32_to_decimal, lemma_signed_decimal_injective};

verus! {

/// The database part of the service configuration.
pub struct PgDbConfig {
    pub host: String,
    pub port: u16,
    pub user: String,
    pub password: String,
    pub dbname: String,
}

/// The service configuration: the address to serve on and the database.
pub struct NodeConfig {
    pub port: String,
    pub db: PgDbConfig,
}

impl PgDbConfig {
    /// The connection settings of the event database.
    pub fn pg_config(self) -> (conf: PgConfig)
        ensures
            conf == (PgConfig {
                host: self.host,
                port: self.port,
                user: self.user,
                password: self.password,
                dbname: self.dbname,
            }),
    {
        PgConfig {
            host: self.host,
            port: self.port,
            user: self.user,
            password: self.password,
            dbname: self.dbname,
        }
    }
}

impl NodeConfig {
    /// The connection settings of the event database that this
    /// configuration names.
    pub fn pg_config(self) -> (conf: PgConfig)
        ensures
            conf == (PgConfig {
                host: self.db.host,
                port: self.db.port,
                user: self.db.user,
                password: self.db.password,
                dbname: self.db.dbname,
            }),
    {
        self.db.pg_config()
    }
}

/// The table the service creates when it starts.
pub fn service_table_name() -> (name: &'static str)
    ensures
        name@ == "sglk_event"@,
{
    "sglk_event"
}

/// The insert id the service answers with: the stored event's id in decimal.
pub fn insert_id(stored: &Event) -> (id: String)
    ensures
        id@ == signed_decimal(stored.id as int),
{
    i32_to_decimal(stored.id)
}

/// The answer to an insert names the id the event was stored under, which is
/// one above the latest id read before.
pub proof fn lemma_insert_id_is_next_id(latest: i32, e: NewEvent)
    requires
        latest < i32::MAX,
    ensures
        signed_decimal(stored_event_spec(latest, e).id as int) == signed_decimal(latest + 1),
{
}

/// Events stored under different ids are answered with different insert ids.
pub proof fn lemma_insert_ids_distinct(a: Event, b: Event)
    requires
        a.id != b.id,
    ensures
        signed_decimal(a.id as int) != signed_decimal(b.id as int),
{
    if signed_decimal(a.id as int) == signed_decimal(b.id as int) {
        lemma_signed_decimal_injective(a.id as int, b.id as int);
    }
}

} // verus!
