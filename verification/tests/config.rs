use zz_metasvr::config::{conf_file, pg_pool_settings, redis_pool_settings, redis_url, PgConfig, Redis, DEFAULT_CONF_FILE};
use zz_metasvr::text::decimal_text;

fn redis_conf() -> Redis {
    Redis {
        host: "127.0.0.1".to_string(),
        port: 6379,
        passwd: "pw".to_string(),
        max_size: 16,
        min_idle: 1,
        idle_timeout: 30,
        max_lifetime: 600,
        connection_timeout: 5,
    }
}

#[test]
fn redis_url_has_password_host_port_and_db() {
    assert_eq!(redis_url(&redis_conf()), "redis://:pw@127.0.0.1:6379/0");
}

#[test]
fn decimal_text_of_numbers() {
    assert_eq!(decimal_text(0), "0");
    assert_eq!(decimal_text(7), "7");
    assert_eq!(decimal_text(10), "10");
    assert_eq!(decimal_text(65535), "65535");
    assert_eq!(decimal_text(u64::MAX), "18446744073709551615");
}

#[test]
fn conf_file_defaults_without_the_variable() {
    assert_eq!(conf_file(None), DEFAULT_CONF_FILE);
    assert_eq!(DEFAULT_CONF_FILE, "etc/zz_metasvr.toml");
    assert_eq!(conf_file(Some("/tmp/x.toml".to_string())), "/tmp/x.toml");
}

#[test]
fn redis_pool_settings_map_the_timeouts() {
    let s = redis_pool_settings(&redis_conf());
    assert_eq!(s.url, "redis://:pw@127.0.0.1:6379/0");
    assert_eq!((s.max_size, s.wait_secs, s.create_secs, s.recycle_secs), (16, 30, 5, 600));
}

#[test]
fn pg_pool_settings_cut_the_port() {
    let conf = PgConfig {
        host: "db".to_string(),
        port: 65536 + 5432,
        user: "u".to_string(),
        password: "p".to_string(),
        dbname: "d".to_string(),
        max_size: 8,
        min_idle: 1,
        idle_timeout: 60,
        max_lifetime: 300,
        connection_timeout: 3,
    };
    let s = pg_pool_settings(&conf);
    assert_eq!(s.port, 5432);
    assert_eq!((s.host.as_str(), s.user.as_str(), s.password.as_str(), s.dbname.as_str()), ("db", "u", "p", "d"));
    assert_eq!((s.connect_timeout_secs, s.keepalives, s.keepalives_idle_secs, s.max_size), (3, true, 60, 8));
}
