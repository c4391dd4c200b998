use hpoint::pg::{
    connection_string, Event, create_database_sql, create_event_table_sql, event_column_names,
    event_insert_sql, event_table_name, latest_id, latest_id_sql, query_all_events_sql,
    query_test_sql, InitDbConfig, POOL_SIZE,
};
use hpoint::sql::{insert_sql, select_sql, select_where_sql};
use hpoint::text::{i32_to_decimal, join_strs, u64_to_decimal};

#[test]
fn decimal_of_unsigned_numbers() {
    assert_eq!(u64_to_decimal(0), "0");
    assert_eq!(u64_to_decimal(7), "7");
    assert_eq!(u64_to_decimal(10), "10");
    assert_eq!(u64_to_decimal(5432), "5432");
    assert_eq!(u64_to_decimal(u64::MAX), u64::MAX.to_string());
}

#[test]
fn decimal_of_signed_numbers() {
    assert_eq!(i32_to_decimal(0), "0");
    assert_eq!(i32_to_decimal(101), "101");
    assert_eq!(i32_to_decimal(-7), "-7");
    assert_eq!(i32_to_decimal(i32::MAX), "2147483647");
    assert_eq!(i32_to_decimal(i32::MIN), "-2147483648");
}

#[test]
fn join_matches_slice_join() {
    assert_eq!(join_strs(&[], ", "), "");
    assert_eq!(join_strs(&["id"], ", "), "id");
    assert_eq!(join_strs(&["id", "name", "data"], ", "), ["id", "name", "data"].join(", "));
}

#[test]
fn insert_statement_binds_columns_in_order() {
    assert_eq!(insert_sql("person", &["id"]), "INSERT INTO person (id) VALUES ($1)");
    assert_eq!(
        insert_sql("t", &["a", "b", "c", "d", "e", "f", "g", "h", "i", "j", "k"]),
        "INSERT INTO t (a, b, c, d, e, f, g, h, i, j, k) VALUES ($1, $2, $3, $4, $5, $6, $7, $8, $9, $10, $11)"
    );
}

#[test]
fn event_insert_statement() {
    assert_eq!(
        event_insert_sql(),
        "INSERT INTO event (id, pk_owner, pk_user, event_meta, event_type, point_amount) VALUES ($1, $2, $3, $4, $5, $6)"
    );
    assert_eq!(
        event_column_names(),
        vec!["id", "pk_owner", "pk_user", "event_meta", "event_type", "point_amount"]
    );
    assert_eq!(event_table_name(), "event");
}

#[test]
fn select_statements() {
    assert_eq!(select_sql("person", &["id", "name", "data"]), "SELECT id, name, data FROM person");
    assert_eq!(
        select_where_sql("person", &["id", "name", "data"], &[("name", "Nick")]),
        "SELECT id, name, data FROM person WHERE name = 'Nick'"
    );
    // Several conditions are separated by commas, as the macro writes them.
    assert_eq!(
        select_where_sql("person", &["id"], &[("name", "Nick"), ("id", "1")]),
        "SELECT id FROM person WHERE name = 'Nick',id = '1'"
    );
    // Without conditions the trailing space of " WHERE " is what is taken off.
    assert_eq!(select_where_sql("person", &["id"], &[]), "SELECT id FROM person WHERE");
}

#[test]
fn probe_statement() {
    assert_eq!(query_test_sql(), "SELECT id, name, data FROM person WHERE name = 'Nick'");
}

#[test]
fn connection_string_of_test_configuration() {
    let conf = InitDbConfig {
        host: "localhost".to_string(),
        port: 5432,
        user: "postgres".to_string(),
        password: "123".to_string(),
    };
    assert_eq!(connection_string(&conf), "host=localhost user=postgres password=123 port=5432");
    assert_eq!(create_database_sql(), "CREATE DATABASE sglksample2");
}

#[test]
fn create_table_statement() {
    let expected = "CREATE TABLE event(
            id      SERIAL PRIMARY KEY,
            pk_owner    TEXT NOT NULL,
            pk_user    TEXT NOT NULL,
            event_meta    BYTEA,
            event_type    TEXT NOT NULL,
            point_amount    INTEGER NOT NULL
        )";
    assert_eq!(create_event_table_sql("event"), expected);
}

#[test]
fn latest_id_statement_and_result() {
    assert_eq!(latest_id_sql("person"), "SELECT id FROM person ORDER BY id DESC LIMIT 1");
    assert_eq!(latest_id(&[]), 0);
    assert_eq!(latest_id(&[41]), 41);
    assert_eq!(latest_id(&[9, 3]), 9);
    assert_eq!(query_all_events_sql(), "SELECT * FROM event");
    assert_eq!(POOL_SIZE, 15);
}

#[test]
fn insert_values_follow_column_order() {
    let event = Event {
        id: 2,
        pk_owner: "sglk".to_string(),
        pk_user: "user".to_string(),
        event_meta: vec![1, 2],
        event_type: "genius".to_string(),
        point_amount: 100,
    };
    let (id, owner, user, meta, kind, points) = event.insert_values();
    assert_eq!(*id, 2);
    assert_eq!(owner, "sglk");
    assert_eq!(user, "user");
    assert_eq!(meta, &vec![1u8, 2]);
    assert_eq!(kind, "genius");
    assert_eq!(*points, 100);
}
