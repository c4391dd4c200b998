use hpoint::connect::connection_config;
use hpoint::pg::PgConfig;
use tokio_postgres::config::Host;

#[test]
fn driver_configuration_of_test_settings() {
    let conf = PgConfig {
        host: "localhost".to_string(),
        port: 5432,
        user: "postgres".to_string(),
        password: "123".to_string(),
        dbname: "sglk_sample1".to_string(),
    };
    let c = connection_config(&conf);
    assert_eq!(c.get_hosts(), &[Host::Tcp("localhost".to_string())]);
    assert_eq!(c.get_ports(), &[5432]);
    assert_eq!(c.get_user(), Some("postgres"));
    assert_eq!(c.get_password(), Some("123".as_bytes()));
    assert_eq!(c.get_dbname(), Some("sglk_sample1"));
}
