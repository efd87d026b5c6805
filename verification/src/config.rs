//! The server's configuration, where it is read from, and the connection settings derived
//! from it.

use vstd::prelude::*;
use crate::proto::owned;
use crate::text::{decimal, decimal_text};

verus! {

/// The whole configuration file.
pub struct GlobalZZConf {
    pub metasvr_conf: MetaSvr,
    pub db_pg_conf: PgConfig,
    pub redis_conf: Redis,
}

/// The HTTP server's settings.
pub struct MetaSvr {
    pub bind_address: String,
    pub keep_alive: usize,
    pub client_timeout: u64,
    pub shutdown_timeout: u64,
    pub maxconn: usize,
    pub maxconnrate: usize,
    pub workers: usize,
    pub ssl: bool,
}

/// The PostgreSQL connection settings.
pub struct PgConfig {
    pub host: String,
    pub port: usize,
    pub user: String,
    pub password: String,
    pub dbname: String,
    pub max_size: u32,
    pub min_idle: u32,
    pub idle_timeout: u64,
    pub max_lifetime: u64,
    pub connection_timeout: u64,
}

/// The Redis connection settings.
pub struct Redis {
    pub host: String,
    pub port: u16,
    pub passwd: String,
    pub max_size: u32,
    pub min_idle: u32,
    pub idle_timeout: u64,
    pub max_lifetime: u64,
    pub connection_timeout: u64,
}

/// The environment variable that names the configuration file.
pub const CONF_ENV_VAR: &'static str = "ZZ_CONF";

/// The configuration file read when `CONF_ENV_VAR` is not set.
pub const DEFAULT_CONF_FILE: &'static str = "etc/zz_metasvr.toml";

/// The Redis database that the server uses.
pub const REDIS_DB: u64 = 0;

/// How many connections the event bridge's Redis pool holds.
pub const BRIDGE_POOL_SIZE: u32 = 2;

/// The configuration file: the one that `CONF_ENV_VAR` names, else `DEFAULT_CONF_FILE`.
pub fn conf_file(env_value: Option<String>) -> (r: String)
    ensures
        env_value matches Some(s) ==> r@ == s@,
        env_value is None ==> r@ == DEFAULT_CONF_FILE@,
{
    match env_value {
        Some(s) => s,
        None => owned(DEFAULT_CONF_FILE),
    }
}

/// The Redis URL of a configuration: `redis://:<passwd>@<host>:<port>/<REDIS_DB>`.
pub open spec fn redis_url_of(passwd: Seq<char>, host: Seq<char>, port: u16) -> Seq<char> {
    "redis://:"@ + passwd + "@"@ + host + ":"@ + decimal(port as nat) + "/"@ + decimal(REDIS_DB as nat)
}

/// The Redis URL of every configuration, piece by piece: `redis://:`, the password, `@` (also
/// when the password is empty), the host, `:`, the port's decimal digits, and `/0`.
pub proof fn lemma_redis_url_pieces(passwd: Seq<char>, host: Seq<char>, port: u16)
    ensures
        redis_url_of(passwd, host, port) == seq!['r', 'e', 'd', 'i', 's', ':', '/', '/', ':'] + passwd + seq!['@']
            + host + seq![':'] + decimal(port as nat) + seq!['/', '0'],
        redis_url_of(passwd, host, port)[9 + passwd.len() as int] == '@',
{
    reveal_strlit("redis://:");
    reveal_strlit("@");
    reveal_strlit(":");
    reveal_strlit("/");
    assert(decimal(REDIS_DB as nat) == seq!['0']);
    let u = redis_url_of(passwd, host, port);
    let v = seq!['r', 'e', 'd', 'i', 's', ':', '/', '/', ':'] + passwd + seq!['@'] + host + seq![':'] + decimal(port as nat) + seq!['/', '0'];
    assert(u =~= v);
    assert(v[9 + passwd.len() as int] == '@');
}

/// The Redis URL that the pools and the event bridge connect to.
pub fn redis_url(conf: &Redis) -> (r: String)
    ensures
        r@ == redis_url_of(conf.passwd@, conf.host@, conf.port),
{
    let mut s = owned("redis://:");
    s.append(conf.passwd.as_str());
    s.append("@");
    s.append(conf.host.as_str());
    s.append(":");
    let port = decimal_text(conf.port as u64);
    s.append(port.as_str());
    s.append("/");
    let db = decimal_text(REDIS_DB);
    s.append(db.as_str());
    s
}

/// What the request-time Redis pool is built with.
pub struct RedisPoolSettings {
    pub url: String,
    pub max_size: usize,
    pub wait_secs: u64,
    pub create_secs: u64,
    pub recycle_secs: u64,
}

/// The request-time Redis pool of a configuration: at most `max_size` connections; a caller
/// waits up to `idle_timeout` seconds, a connection is made within `connection_timeout`
/// seconds and recycled within `max_lifetime` seconds.
pub fn redis_pool_settings(conf: &Redis) -> (r: RedisPoolSettings)
    ensures
        r.url@ == redis_url_of(conf.passwd@, conf.host@, conf.port),
        r.max_size == conf.max_size,
        r.wait_secs == conf.idle_timeout,
        r.create_secs == conf.connection_timeout,
        r.recycle_secs == conf.max_lifetime,
{
    RedisPoolSettings {
        url: redis_url(conf),
        max_size: conf.max_size as usize,
        wait_secs: conf.idle_timeout,
        create_secs: conf.connection_timeout,
        recycle_secs: conf.max_lifetime,
    }
}

/// What the PostgreSQL pool is built with.
pub struct PgPoolSettings {
    pub host: String,
    pub port: u16,
    pub user: String,
    pub password: String,
    pub dbname: String,
    pub connect_timeout_secs: u64,
    pub keepalives: bool,
    pub keepalives_idle_secs: u64,
    pub max_size: usize,
}

/// The PostgreSQL pool of a configuration: its address and credentials, the port cut to 16
/// bits, a connect timeout of `connection_timeout` seconds, keepalives on with an idle time of
/// `idle_timeout` seconds, and at most `max_size` connections.
pub fn pg_pool_settings(conf: &PgConfig) -> (r: PgPoolSettings)
    ensures
        r.host@ == conf.host@,
        r.port == conf.port as u16,
        r.user@ == conf.user@,
        r.password@ == conf.password@,
        r.dbname@ == conf.dbname@,
        r.connect_timeout_secs == conf.connection_timeout,
        r.keepalives,
        r.keepalives_idle_secs == conf.idle_timeout,
        r.max_size == conf.max_size,
{
    PgPoolSettings {
        host: conf.host.clone(),
        port: conf.port as u16,
        user: conf.user.clone(),
        password: conf.password.clone(),
        dbname: conf.dbname.clone(),
        connect_timeout_secs: conf.connection_timeout,
        keepalives: true,
        keepalives_idle_secs: conf.idle_timeout,
        max_size: conf.max_size as usize,
    }
}

} // verus!
