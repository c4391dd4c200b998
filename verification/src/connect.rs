//! The connection settings handed to the PostgreSQL driver.
use vstd::prelude::*;
use tokio_postgres::Config;
use crate::pg::PgConfig;

verus! {

#[verifier::external_type_specification]
#[verifier::external_body]
pub struct ExConfig(tokio_postgres::Config);

/// The hosts of a driver configuration (what `Config::get_hosts` returns),
/// each as the text it was added with.
pub uninterp spec fn config_hosts(c: Config) -> Seq<Seq<char>>;

/// The ports of a driver configuration (what `Config::get_ports` returns).
pub uninterp spec fn config_ports(c: Config) -> Seq<u16>;

/// The user of a driver configuration (what `Config::get_user` returns).
pub uninterp spec fn config_user(c: Config) -> Option<Seq<char>>;

/// The password bytes of a driver configuration (what
/// `Config::get_password` returns).
pub uninterp spec fn config_password(c: Config) -> Option<Seq<u8>>;

/// The database name of a driver configuration (what `Config::get_dbname`
/// returns).
pub uninterp spec fn config_dbname(c: Config) -> Option<Seq<char>>;

/// `Config::new`: a configuration with no host, no port, no user, no
/// password and no database name.
#[verifier::external_body]
fn config_new() -> (c: Config)
    ensures
        config_hosts(c) == Seq::<Seq<char>>::empty(),
        config_ports(c) == Seq::<u16>::empty(),
        config_user(c) is None,
        config_password(c) is None,
        config_dbname(c) is None,
{
    Config::new()
}

/// `Config::host`: appends a host (under unix one that starts with '/' is
/// kept as a socket directory; either way its text is appended) and
/// changes nothing else of what the names here describe.
#[verifier::external_body]
fn config_add_host(c: &mut Config, host: &str)
    ensures
        config_hosts(*final(c)) == config_hosts(*old(c)).push(host@),
        config_ports(*final(c)) == config_ports(*old(c)),
        config_user(*final(c)) == config_user(*old(c)),
        config_password(*final(c)) == config_password(*old(c)),
        config_dbname(*final(c)) == config_dbname(*old(c)),
{
    c.host(host);
}

/// `Config::port`: appends a port.
#[verifier::external_body]
fn config_add_port(c: &mut Config, port: u16)
    ensures
        config_ports(*final(c)) == config_ports(*old(c)).push(port),
        config_hosts(*final(c)) == config_hosts(*old(c)),
        config_user(*final(c)) == config_user(*old(c)),
        config_password(*final(c)) == config_password(*old(c)),
        config_dbname(*final(c)) == config_dbname(*old(c)),
{
    c.port(port);
}

/// `Config::user`: sets the user.
#[verifier::external_body]
fn config_set_user(c: &mut Config, user: &str)
    ensures
        config_user(*final(c)) == Some(user@),
        config_hosts(*final(c)) == config_hosts(*old(c)),
        config_ports(*final(c)) == config_ports(*old(c)),
        config_password(*final(c)) == config_password(*old(c)),
        config_dbname(*final(c)) == config_dbname(*old(c)),
{
    c.user(user);
}

/// `Config::password`: sets the password to the UTF-8 bytes of the text given.
#[verifier::external_body]
fn config_set_password(c: &mut Config, password: &str)
    ensures
        config_password(*final(c)) == Some(vstd::utf8::encode_utf8(password@)),
        config_hosts(*final(c)) == config_hosts(*old(c)),
        config_ports(*final(c)) == config_ports(*old(c)),
        config_user(*final(c)) == config_user(*old(c)),
        config_dbname(*final(c)) == config_dbname(*old(c)),
{
    c.password(password);
}

/// `Config::dbname`: sets the name of the database.
#[verifier::external_body]
fn config_set_dbname(c: &mut Config, dbname: &str)
    ensures
        config_dbname(*final(c)) == Some(dbname@),
        config_hosts(*final(c)) == config_hosts(*old(c)),
        config_ports(*final(c)) == config_ports(*old(c)),
        config_user(*final(c)) == config_user(*old(c)),
        config_password(*final(c)) == config_password(*old(c)),
{
    c.dbname(dbname);
}

/// The driver configuration for the event database: the one host and the
/// one port, the user, the password and the database name of `conf`.
pub fn connection_config(conf: &PgConfig) -> (c: Config)
    ensures
        config_hosts(c) == seq![conf.host@],
        config_ports(c) == seq![conf.port],
        config_user(c) == Some(conf.user@),
        config_password(c) == Some(vstd::utf8::encode_utf8(conf.password@)),
        config_dbname(c) == Some(conf.dbname@),
{
    let mut c = config_new();
    config_add_host(&mut c, conf.host.as_str());
    config_add_port(&mut c, conf.port);
    config_set_user(&mut c, conf.user.as_str());
    config_set_password(&mut c, conf.password.as_str());
    config_set_dbname(&mut c, conf.dbname.as_str());
    assert(config_hosts(c) =~= seq![conf.host@]);
    assert(config_ports(c) =~= seq![conf.port]);
    c
}

} // verus!
