use zz_metasvr::proto::Session;
use zz_metasvr::session::GlobalSession;

fn session(name: &str, key: &str, ts: i64) -> Session {
    Session { acc_name: name.to_string(), magic_key: key.to_string(), login_time: ts }
}

#[test]
fn get_gives_back_what_was_added() {
    let mut s = GlobalSession::new();
    assert_eq!(s.get_magic_key("alice".to_string()), "");
    s.add_session(session("alice", "k1", 1));
    s.add_session(session("bob", "k2", 2));
    assert_eq!(s.get_magic_key("alice".to_string()), "k1");
    assert_eq!(s.get_magic_key("bob".to_string()), "k2");
    s.add_session(session("alice", "k3", 3));
    assert_eq!(s.get_magic_key("alice".to_string()), "k3");
    assert_eq!(s.get_magic_key("carol".to_string()), "");
}

#[test]
fn refresh_keeps_the_magic_key() {
    let mut s = GlobalSession::new();
    s.add_session(session("alice", "k1", 1));
    s.refresh_login_time("alice".to_string(), 99);
    assert_eq!(s.get_magic_key("alice".to_string()), "k1");
}

#[test]
fn refresh_of_an_unknown_account_adds_nothing() {
    let mut s = GlobalSession::new();
    s.refresh_login_time("ghost".to_string(), 5);
    assert_eq!(s.get_magic_key("ghost".to_string()), "");
}
