//! The decisions of the registration and login requests. The server performs each action
//! (a query, a Redis call, a fresh key) and feeds back what it got.

use vstd::prelude::*;
use crate::dao::{
    DaoAcc, CheckAction, CheckActionView, CheckStage, QueryReply, QueryReplyView, login_result, check_step,
    lemma_taken_values_refused,
};
use crate::proto::{failed, RetResponse, RetResponseView, ZZAccount, ZZAccountView, ACC_LOGIN_SUCC, CODE_OK};

verus! {

/// What a registration asks for next.
pub enum RegisterAction {
    /// Run the count query of this stage and pass its reply to `DaoAcc::check_acc_step`.
    Count(CheckStage),
    /// The check passed: store the account and answer with `DaoAcc::acc_insert` of the reply.
    Insert,
    /// Answer with this response.
    Respond(RetResponse),
}

/// A registration action with its response viewed.
pub enum RegisterActionView {
    Count(CheckStage),
    Insert,
    Respond(RetResponseView),
}

impl View for RegisterAction {
    type V = RegisterActionView;

    open spec fn view(&self) -> RegisterActionView {
        match self {
            RegisterAction::Count(s) => RegisterActionView::Count(*s),
            RegisterAction::Insert => RegisterActionView::Insert,
            RegisterAction::Respond(r) => RegisterActionView::Respond(r@),
        }
    }
}

/// What follows a step of the registration check: a pending count goes on, an accepted check
/// leads to storing the account, a refused one is the answer.
pub open spec fn register_after(check: CheckActionView) -> RegisterActionView {
    match check {
        CheckActionView::Count(s) => RegisterActionView::Count(s),
        CheckActionView::Done(r) => if r.ret_code == CODE_OK {
            RegisterActionView::Insert
        } else {
            RegisterActionView::Respond(r)
        },
    }
}

/// The account that a registration request stores: the requested name, phone, mail and
/// password, with the given id and creation time.
pub open spec fn account_of(info: ZZAccountView, acc_id: Seq<char>, ts: i64) -> ZZAccountView {
    ZZAccountView { acc_id: acc_id, create_time: ts, ..info }
}

/// The account that a registration request stores, with the id and creation time that the
/// server assigned.
pub fn new_account(info: &ZZAccount, acc_id: String, ts: i64) -> (r: ZZAccount)
    ensures
        r@ == account_of(info@, acc_id@, ts),
{
    ZZAccount {
        acc_id,
        acc_name: info.acc_name.clone(),
        phone_num: info.phone_num.clone(),
        mail: info.mail.clone(),
        passwd: info.passwd.clone(),
        create_time: ts,
    }
}

/// A registration stores the account only after a check that ended accepted: a check that ended
/// refused is the answer as it is, and a pending count goes on unchanged.
pub proof fn lemma_insert_only_after_acceptance(check: CheckActionView)
    ensures
        (register_after(check) == RegisterActionView::Insert)
            <==> (check matches CheckActionView::Done(r) && r.ret_code == CODE_OK),
        check matches CheckActionView::Done(r) ==> (r.ret_code != CODE_OK ==> register_after(check) == RegisterActionView::Respond(r)),
        check matches CheckActionView::Count(s) ==> (register_after(check) == RegisterActionView::Count(s)),
{
}

/// A registration whose count at some stage found an account is answered with that refusal and
/// nothing is stored.
pub proof fn lemma_taken_value_not_stored(stage: CheckStage, rows: Seq<i64>)
    requires
        rows.len() > 0,
        rows[0] > 0,
    ensures
        register_after(check_step(stage, QueryReplyView::Rows(rows))) != RegisterActionView::Insert,
        register_after(check_step(stage, QueryReplyView::Rows(rows))) is Respond,
{
    lemma_taken_values_refused(stage, rows);
    lemma_insert_only_after_acceptance(check_step(stage, QueryReplyView::Rows(rows)));
}

/// What a registration does after a step of its check.
pub fn register_next(check: CheckAction) -> (r: RegisterAction)
    ensures
        r@ == register_after(check@),
{
    match check {
        CheckAction::Count(s) => RegisterAction::Count(s),
        CheckAction::Done(ret) => if ret.ret_code == CODE_OK {
            RegisterAction::Insert
        } else {
            RegisterAction::Respond(ret)
        },
    }
}

/// What a login request gets back from the outside.
pub enum LoginEvent {
    /// The reply of the login query.
    Authenticated(QueryReply),
    /// The magic key that Redis holds for the account, if any.
    MagicKey(Option<String>),
    /// A freshly generated magic key.
    FreshKey(String),
    /// The login state was written.
    Stored,
}

/// A login event with its texts viewed.
pub enum LoginEventView {
    Authenticated(QueryReplyView),
    MagicKey(Option<Seq<char>>),
    FreshKey(Seq<char>),
    Stored,
}

impl View for LoginEvent {
    type V = LoginEventView;

    open spec fn view(&self) -> LoginEventView {
        match self {
            LoginEvent::Authenticated(r) => LoginEventView::Authenticated(r@),
            LoginEvent::MagicKey(k) => LoginEventView::MagicKey(
                match k {
                    Some(s) => Some(s@),
                    None => None,
                },
            ),
            LoginEvent::FreshKey(k) => LoginEventView::FreshKey(k@),
            LoginEvent::Stored => LoginEventView::Stored,
        }
    }
}

/// What a login request asks for next.
#[derive(Clone, Copy, Debug, PartialEq, Eq, Structural)]
pub enum LoginAction {
    /// Ask Redis for the account's magic key.
    GetMagicKey,
    /// Generate a fresh magic key.
    GenerateKey,
    /// Write the login time (Redis and `DaoAcc::refresh_login_time`), then report `Stored`.
    RefreshLoginTime,
    /// Write the new login state (Redis and `DaoAcc::save_login_state`), then report `Stored`.
    SaveLoginState,
    /// Answer with the response.
    Respond,
}

/// The response and the next action of a login after an event: an accepted login query leads
/// to the magic key lookup, any other reply is answered; a key that Redis holds is reused and
/// its login time refreshed; without one a fresh key is made and a new login state saved.
pub open spec fn login_step(ret: RetResponseView, event: LoginEventView) -> (RetResponseView, LoginAction) {
    match event {
        LoginEventView::Authenticated(reply) => {
            let r = login_result(ret, reply);
            (r, if r.ret_code == CODE_OK { LoginAction::GetMagicKey } else { LoginAction::Respond })
        },
        LoginEventView::MagicKey(Some(k)) => (RetResponseView { magic_key: k, ..ret }, LoginAction::RefreshLoginTime),
        LoginEventView::MagicKey(None) => (ret, LoginAction::GenerateKey),
        LoginEventView::FreshKey(k) => (RetResponseView { magic_key: k, ..ret }, LoginAction::SaveLoginState),
        LoginEventView::Stored => (ret, LoginAction::Respond),
    }
}

/// A login that starts from a fresh response is accepted only when the login query found a
/// matching account, and is otherwise answered at once as refused. An accepted login is
/// answered, after its login state is written, with `ACC_LOGIN_SUCC` and the magic key that
/// Redis held for the account, or, where Redis held none, the fresh key.
pub proof fn lemma_login_run(reply: QueryReplyView, key: Option<Seq<char>>, fresh: Seq<char>)
    ensures
        ({
            let start = failed(Seq::empty());
            let (r1, a1) = login_step(start, LoginEventView::Authenticated(reply));
            &&& (a1 == LoginAction::GetMagicKey) <==> (reply matches QueryReplyView::Rows(rows) && rows.len() > 0 && rows[0] > 0)
            &&& a1 != LoginAction::GetMagicKey ==> a1 == LoginAction::Respond && r1.ret_code != CODE_OK
            &&& a1 == LoginAction::GetMagicKey ==> {
                let (r2, a2) = login_step(r1, LoginEventView::MagicKey(key));
                match key {
                    Some(k) => {
                        &&& a2 == LoginAction::RefreshLoginTime
                        &&& login_step(r2, LoginEventView::Stored) == (
                            RetResponseView { ret_code: CODE_OK, ret_info: ACC_LOGIN_SUCC@, magic_key: k },
                            LoginAction::Respond,
                        )
                    },
                    None => {
                        let (r3, a3) = login_step(r2, LoginEventView::FreshKey(fresh));
                        &&& a2 == LoginAction::GenerateKey
                        &&& a3 == LoginAction::SaveLoginState
                        &&& login_step(r3, LoginEventView::Stored) == (
                            RetResponseView { ret_code: CODE_OK, ret_info: ACC_LOGIN_SUCC@, magic_key: fresh },
                            LoginAction::Respond,
                        )
                    },
                }
            }
        }),
{
}

/// Takes an event of a login request into its response and says what comes next.
pub fn login_next(ret_response: &mut RetResponse, event: LoginEvent) -> (r: LoginAction)
    ensures
        (final(ret_response)@, r) == login_step(old(ret_response)@, event@),
{
    match event {
        LoginEvent::Authenticated(reply) => {
            DaoAcc::acc_login(&reply, ret_response);
            if ret_response.ret_code == CODE_OK {
                LoginAction::GetMagicKey
            } else {
                LoginAction::Respond
            }
        },
        LoginEvent::MagicKey(reply) => {
            let (found, key) = DaoAcc::get_magic_key(reply);
            if found {
                ret_response.magic_key = key;
                LoginAction::RefreshLoginTime
            } else {
                LoginAction::GenerateKey
            }
        },
        LoginEvent::FreshKey(key) => {
            ret_response.magic_key = key;
            LoginAction::SaveLoginState
        },
        LoginEvent::Stored => LoginAction::Respond,
    }
}

} // verus!
