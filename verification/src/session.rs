//! The table of logged-in accounts, keyed by account name.

use vstd::prelude::*;
use vstd::hash_map::StringHashMap;
use crate::proto::{Session, SessionView};

verus! {

broadcast use vstd::hash_map::group_hash_map_axioms;

/// The sessions of the accounts that are logged in on this server, by account name.
pub struct GlobalSession {
    session_map: StringHashMap<Session>,
}

/// Every session is filed under its own account name.
pub open spec fn keyed_by_name(m: Map<Seq<char>, SessionView>) -> bool {
    forall|k: Seq<char>| #[trigger] m.contains_key(k) ==> m[k].acc_name == k
}

/// The sessions after `session` was filed under its account name.
pub open spec fn with_session(m: Map<Seq<char>, SessionView>, session: SessionView) -> Map<Seq<char>, SessionView> {
    m.insert(session.acc_name, session)
}

/// The sessions after the login time of `acc_name` was set to `ts`; unchanged where that
/// account has no session.
pub open spec fn with_login_time(m: Map<Seq<char>, SessionView>, acc_name: Seq<char>, ts: i64) -> Map<Seq<char>, SessionView> {
    if m.contains_key(acc_name) {
        m.insert(acc_name, SessionView { login_time: ts, ..m[acc_name] })
    } else {
        m
    }
}

/// The magic key of `acc_name`'s session, or the empty text where it has none.
pub open spec fn magic_key_of(m: Map<Seq<char>, SessionView>, acc_name: Seq<char>) -> Seq<char> {
    if m.contains_key(acc_name) {
        m[acc_name].magic_key
    } else {
        Seq::empty()
    }
}

/// After a session is added, looking up its account gives its magic key, and every other
/// account's magic key is what it was.
pub proof fn lemma_get_after_add(m: Map<Seq<char>, SessionView>, session: SessionView, acc_name: Seq<char>)
    ensures
        magic_key_of(with_session(m, session), session.acc_name) == session.magic_key,
        acc_name != session.acc_name ==> magic_key_of(with_session(m, session), acc_name) == magic_key_of(m, acc_name),
{
}

/// Refreshing a login time changes no account's magic key and no account's presence.
pub proof fn lemma_refresh_keeps_keys(m: Map<Seq<char>, SessionView>, acc_name: Seq<char>, ts: i64, other: Seq<char>)
    ensures
        magic_key_of(with_login_time(m, acc_name, ts), other) == magic_key_of(m, other),
        with_login_time(m, acc_name, ts).dom() == m.dom(),
{
    if m.contains_key(acc_name) {
        assert(with_login_time(m, acc_name, ts).dom() =~= m.dom());
    }
}

/// After a refresh, a present account's session carries the new login time.
pub proof fn lemma_refresh_sets_time(m: Map<Seq<char>, SessionView>, acc_name: Seq<char>, ts: i64)
    requires
        m.contains_key(acc_name),
    ensures
        with_login_time(m, acc_name, ts)[acc_name].login_time == ts,
        with_login_time(m, acc_name, ts)[acc_name].acc_name == m[acc_name].acc_name,
{
}

/// Adding a session and refreshing a login time both keep every session filed under its own
/// account name.
pub proof fn lemma_updates_keep_keying(m: Map<Seq<char>, SessionView>, session: SessionView, acc_name: Seq<char>, ts: i64)
    requires
        keyed_by_name(m),
    ensures
        keyed_by_name(with_session(m, session)),
        keyed_by_name(with_login_time(m, acc_name, ts)),
{
}

impl View for GlobalSession {
    type V = Map<Seq<char>, SessionView>;

    closed spec fn view(&self) -> Map<Seq<char>, SessionView> {
        self.session_map@.map_values(|s: Session| s@)
    }
}

impl GlobalSession {
    #[verifier::type_invariant]
    spec fn sessions_keyed_by_name(self) -> bool {
        forall|k: Seq<char>| #[trigger] self.session_map@.contains_key(k) ==> self.session_map@[k].acc_name@ == k
    }

    /// An empty table.
    pub fn new() -> (r: Self)
        ensures
            r@ == Map::<Seq<char>, SessionView>::empty(),
            keyed_by_name(r@),
    {
        let r = GlobalSession { session_map: StringHashMap::new() };
        assert(r@ =~= Map::<Seq<char>, SessionView>::empty());
        r
    }

    /// Files `session` under its account name, replacing that account's earlier session.
    pub fn add_session(&mut self, session: Session)
        ensures
            final(self)@ == with_session(old(self)@, session@),
            keyed_by_name(final(self)@),
    {
        proof { use_type_invariant(&*self); }
        let ghost sv = session@;
        let key = session.acc_name.clone();
        let mut map = StringHashMap::new();
        std::mem::swap(&mut map, &mut self.session_map);
        map.insert(key, session);
        self.session_map = map;
        assert(self@ =~= with_session(old(self)@, sv));
    }

    /// Sets the login time of `acc_name`'s session to `ts`; does nothing where that account
    /// has no session.
    pub fn refresh_login_time(&mut self, acc_name: String, ts: i64)
        ensures
            final(self)@ == with_login_time(old(self)@, acc_name@, ts),
            keyed_by_name(final(self)@),
    {
        proof { use_type_invariant(&*self); }
        let refreshed = match self.session_map.get(acc_name.as_str()) {
            Some(v) => Some(Session { acc_name: v.acc_name.clone(), magic_key: v.magic_key.clone(), login_time: ts }),
            None => None,
        };
        match refreshed {
            Some(session) => {
                let mut map = StringHashMap::new();
                std::mem::swap(&mut map, &mut self.session_map);
                map.insert(acc_name, session);
                self.session_map = map;
                assert(self@ =~= with_login_time(old(self)@, acc_name@, ts));
            },
            None => {
                assert(self@ =~= with_login_time(old(self)@, acc_name@, ts));
            },
        }
    }

    /// The magic key of `acc_name`'s session, or the empty text where it has none.
    pub fn get_magic_key(&self, acc_name: String) -> (r: String)
        ensures
            r@ == magic_key_of(self@, acc_name@),
    {
        match self.session_map.get(acc_name.as_str()) {
            Some(v) => v.magic_key.clone(),
            None => String::new(),
        }
    }
}

} // verus!
