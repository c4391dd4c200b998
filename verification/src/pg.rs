//! The PostgreSQL side: connection settings, the event record, and the
//! statements the event store sends.
use vstd::prelude::*;
use crate::text::{decimal, str_views, push_decimal};
use crate::sql::{insert_sql, insert_text, select_where_sql, select_where_text, pair_views};

verus! {

/// The number of connections the database pool keeps open.
pub const POOL_SIZE: u32 = 15;

/// The settings for connecting to the server before a database exists.
pub struct InitDbConfig {
    pub host: String,
    pub port: u16,
    pub user: String,
    pub password: String,
}

/// The settings for connecting to the event database.
pub struct PgConfig {
    pub host: String,
    pub port: u16,
    pub user: String,
    pub password: String,
    pub dbname: String,
}

/// One stored event: a row of the event table.
pub struct Event {
    pub id: i32,
    pub pk_owner: String,
    pub pk_user: String,
    pub event_meta: Vec<u8>,
    pub event_type: String,
    pub point_amount: i32,
}

impl Event {
    /// The values that the event insert statement binds to `$1` .. `$6`, in
    /// the order of `event_columns`: id, owner, user, metadata, type, points.
    pub fn insert_values(&self) -> (values: (&i32, &String, &String, &Vec<u8>, &String, &i32))
        ensures
            *values.0 == self.id,
            *values.1 == self.pk_owner,
            *values.2 == self.pk_user,
            *values.3 == self.event_meta,
            *values.4 == self.event_type,
            *values.5 == self.point_amount,
    {
        (&self.id, &self.pk_owner, &self.pk_user, &self.event_meta, &self.event_type, &self.point_amount)
    }
}

/// The table that events are written to and read from.
pub open spec fn event_table() -> Seq<char> {
    "event"@
}

/// The name of the table that events are written to and read from.
pub fn event_table_name() -> (name: &'static str)
    ensures
        name@ == event_table(),
{
    "event"
}

/// `host=<host> user=<user> password=<password> port=<port>`.
pub open spec fn connection_text(host: Seq<char>, user: Seq<char>, password: Seq<char>, port: nat) -> Seq<char> {
    "host="@ + host + " user="@ + user + " password="@ + password + " port="@ + decimal(port)
}

/// The connection string used to reach the server to create the database.
pub fn connection_string(conf: &InitDbConfig) -> (s: String)
    ensures
        s@ == connection_text(conf.host@, conf.user@, conf.password@, conf.port as nat),
{
    let mut s = String::new();
    s.append("host=");
    s.append(conf.host.as_str());
    s.append(" user=");
    s.append(conf.user.as_str());
    s.append(" password=");
    s.append(conf.password.as_str());
    s.append(" port=");
    push_decimal(&mut s, conf.port as u64);
    assert(s@ =~= connection_text(conf.host@, conf.user@, conf.password@, conf.port as nat));
    s
}

/// The statement that creates the sample database.
pub fn create_database_sql() -> (sql: String)
    ensures
        sql@ == "CREATE DATABASE sglksample2"@,
{
    String::from_str("CREATE DATABASE sglksample2")
}

/// The column list of the event table, after its name.
pub open spec fn event_table_columns() -> Seq<char> {
    "(\n            id      SERIAL PRIMARY KEY,\n            pk_owner    TEXT NOT NULL,\n            pk_user    TEXT NOT NULL,\n            event_meta    BYTEA,\n            event_type    TEXT NOT NULL,\n            point_amount    INTEGER NOT NULL\n        )"@
}

/// The statement that creates an event table called `table`.
pub fn create_event_table_sql(table: &str) -> (sql: String)
    ensures
        sql@ == "CREATE TABLE "@ + table@ + event_table_columns(),
{
    let mut sql = String::from_str("CREATE TABLE ");
    sql.append(table);
    sql.append(
        "(\n            id      SERIAL PRIMARY KEY,\n            pk_owner    TEXT NOT NULL,\n            pk_user    TEXT NOT NULL,\n            event_meta    BYTEA,\n            event_type    TEXT NOT NULL,\n            point_amount    INTEGER NOT NULL\n        )",
    );
    sql
}

/// The columns of an event row, in the order the statements bind them.
pub open spec fn event_columns() -> Seq<Seq<char>> {
    seq!["id"@, "pk_owner"@, "pk_user"@, "event_meta"@, "event_type"@, "point_amount"@]
}

/// The columns of an event row, in the order the statements bind them.
pub fn event_column_names() -> (names: Vec<&'static str>)
    ensures
        str_views(names@) == event_columns(),
{
    let names = vec!["id", "pk_owner", "pk_user", "event_meta", "event_type", "point_amount"];
    assert(str_views(names@) =~= event_columns());
    names
}

/// The statement that stores one event; the parameters `$1` .. `$6` take
/// the fields in the order of `event_columns`.
pub fn event_insert_sql() -> (sql: String)
    ensures
        sql@ == insert_text(event_table(), event_columns()),
{
    let names = event_column_names();
    insert_sql(event_table_name(), names.as_slice())
}

/// `SELECT id FROM <table> ORDER BY id DESC LIMIT 1`.
pub open spec fn latest_id_text(table: Seq<char>) -> Seq<char> {
    "SELECT id FROM "@ + table + " ORDER BY id DESC LIMIT 1"@
}

/// The statement that reads the largest id of a table.
pub fn latest_id_sql(table: &str) -> (sql: String)
    ensures
        sql@ == latest_id_text(table@),
{
    let mut sql = String::from_str("SELECT id FROM ");
    sql.append(table);
    sql.append(" ORDER BY id DESC LIMIT 1");
    sql
}

/// The latest id read from the rows that the latest-id query returned:
/// the id of the first row, or 0 when there is none.
pub open spec fn latest_of(ids: Seq<i32>) -> i32 {
    if ids.len() == 0 {
        0
    } else {
        ids[0]
    }
}

/// The latest id read from the rows that the latest-id query returned.
pub fn latest_id(ids: &[i32]) -> (id: i32)
    ensures
        id == latest_of(ids@),
{
    if ids.len() == 0 {
        0
    } else {
        ids[0]
    }
}

/// The statement that reads every stored event.
pub fn query_all_events_sql() -> (sql: String)
    ensures
        sql@ == "SELECT * FROM event"@,
{
    String::from_str("SELECT * FROM event")
}

/// The probe statement: `id, name, data` of the person named Nick.
pub fn query_test_sql() -> (sql: String)
    ensures
        sql@ == select_where_text(
            "person"@,
            seq!["id"@, "name"@, "data"@],
            seq![("name"@, "Nick"@)],
        ),
{
    let columns = vec!["id", "name", "data"];
    let conditions = vec![("name", "Nick")];
    let sql = select_where_sql("person", columns.as_slice(), conditions.as_slice());
    assert(str_views(columns@) =~= seq!["id"@, "name"@, "data"@]);
    assert(pair_views(conditions@) =~= seq![("name"@, "Nick"@)]);
    sql
}

} // verus!
