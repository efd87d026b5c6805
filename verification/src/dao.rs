//! The account rules: what a registration is checked against, how a password is stored, and
//! what a login and its database and Redis replies are answered with.

use vstd::prelude::*;
use vstd::utf8::encode_utf8;
use crate::aes_wrapper::{encrypt, aes_256_cbc_encrypted, CryptoError, MAX_CIPHER_INPUT};
use crate::proto::{
    owned, failed, succeeded, RetResponse, RetResponseView, ZZAccount, ZZAccountView, LoginInfo, Session,
    SessionView, CODE_OK, LOGIN_TTL, MAGIC_KEY, SESSION_CREATE, LOGIN_TIME, CODE_NOK, INFO_DB_ERR, PASSWD_MIX, ACC_CREATE_SUCC, ACC_PASSWD_NOT_ALLOW_EMPTY,
    ACC_NAME_NOT_ALLOW_EMPTY, ACC_PHONE_NOT_ALLOW_EMPTY, ACC_MAIL_NOT_ALLOW_EMPTY, ACC_MAIL_REGX_NOT_MATCH,
    ACC_PHONE_REGX_NOT_MATCH, ACC_NAME_EXISTS, ACC_PHONE_EXISTS, ACC_MAIL_EXISTS, ACC_LOGIN_SUCC, ACC_LOGIN_FAIL,
    ACC_CHECK_SUCC,
};
use crate::session::{GlobalSession, with_session, with_login_time};
use crate::text::{signed_decimal, signed_decimal_text};
use crate::validate::{mail_matches, phone_matches, passes, MAIL_PATTERN, PHONE_PATTERN};

verus! {

/// The account queries and their answers.
pub struct DaoAcc {}

/// Which uniqueness check of a registration is under way: account name, phone number or mail.
#[derive(Clone, Copy, Debug, PartialEq, Eq, Structural)]
pub enum CheckStage {
    Name,
    Phone,
    Mail,
}

/// What a database query gave back: the `cnt` column of each row, or a failure.
pub enum QueryReply {
    Rows(Vec<i64>),
    Failed,
}

/// A query reply with the rows taken as a sequence.
pub enum QueryReplyView {
    Rows(Seq<i64>),
    Failed,
}

impl View for QueryReply {
    type V = QueryReplyView;

    open spec fn view(&self) -> QueryReplyView {
        match self {
            QueryReply::Rows(v) => QueryReplyView::Rows(v@),
            QueryReply::Failed => QueryReplyView::Failed,
        }
    }
}

/// What a registration check asks for next: a count query of the given stage, or nothing more,
/// with the response it ends with.
pub enum CheckAction {
    Count(CheckStage),
    Done(RetResponse),
}

/// A check action with its response viewed.
pub enum CheckActionView {
    Count(CheckStage),
    Done(RetResponseView),
}

impl View for CheckAction {
    type V = CheckActionView;

    open spec fn view(&self) -> CheckActionView {
        match self {
            CheckAction::Count(s) => CheckActionView::Count(*s),
            CheckAction::Done(r) => CheckActionView::Done(r@),
        }
    }
}

/// The login query and its parameters.
pub struct LoginQuery {
    pub sql: &'static str,
    pub acc_name: String,
    pub passwd: Vec<u8>,
}

/// The query that stores an account, and its parameters.
pub struct InsertQuery {
    pub sql: &'static str,
    pub acc_id: String,
    pub acc_name: String,
    pub phone_num: String,
    pub mail: String,
    pub passwd: Vec<u8>,
    pub create_time: i64,
}

/// Counts the accounts with a given name.
pub const COUNT_BY_NAME_SQL: &'static str = "SELECT COUNT(*) cnt FROM zz_account where acc_name = $1";

/// Counts the accounts with a given phone number.
pub const COUNT_BY_PHONE_SQL: &'static str = "SELECT COUNT(*) cnt FROM zz_account where phone_num = $1";

/// Counts the accounts with a given mail address.
pub const COUNT_BY_MAIL_SQL: &'static str = "SELECT COUNT(*) cnt FROM zz_account where mail = $1";

/// Stores a new account.
pub const INSERT_ACCOUNT_SQL: &'static str = "INSERT INTO zz_account(acc_id, acc_name, phone_num, mail, passwd, create_time)VALUES($1, $2, $3, $4, $5, $6)";

/// Counts the accounts with a given name and encrypted password.
pub const LOGIN_SQL: &'static str = "select count(*) cnt from zz_account where acc_name=$1 and passwd=$2";

/// The AES key under which passwords are stored.
pub open spec fn passwd_key() -> Seq<u8> {
    Seq::new(32, |i: int| 65u8)
}

/// The AES IV under which passwords are stored.
pub open spec fn passwd_iv() -> Seq<u8> {
    Seq::new(16, |i: int| 97u8)
}

/// The text that is encrypted for an account: its name, `PASSWD_MIX`, its password.
pub open spec fn mixed(acc_name: Seq<char>, passwd: Seq<char>) -> Seq<char> {
    acc_name + PASSWD_MIX@ + passwd
}

/// Whether the mixed text of an account fits what one cipher call takes.
pub open spec fn fits_cipher(acc_name: Seq<char>, passwd: Seq<char>) -> bool {
    encode_utf8(mixed(acc_name, passwd)).len() <= MAX_CIPHER_INPUT
}

/// The bytes stored as an account's password: the mixed text, UTF-8 encoded, encrypted under the
/// password key and IV.
pub open spec fn stored_passwd(acc_name: Seq<char>, passwd: Seq<char>) -> Seq<u8> {
    aes_256_cbc_encrypted(passwd_key(), passwd_iv(), encode_utf8(mixed(acc_name, passwd)))
}

/// Under one account name, two passwords give the same mixed text only when they are equal.
pub proof fn lemma_mixed_injective(acc_name: Seq<char>, p1: Seq<char>, p2: Seq<char>)
    requires
        mixed(acc_name, p1) == mixed(acc_name, p2),
    ensures
        p1 == p2,
{
    let prefix = acc_name + PASSWD_MIX@;
    assert(mixed(acc_name, p1) == prefix + p1);
    assert(mixed(acc_name, p2) == prefix + p2);
    assert(p1 =~= (prefix + p1).subrange(prefix.len() as int, (prefix + p1).len() as int));
    assert(p2 =~= (prefix + p2).subrange(prefix.len() as int, (prefix + p2).len() as int));
}

/// The first rule of a registration's fields that it breaks, as the text of the refusal, given
/// whether the mail address and the phone number passed their patterns: password, name, phone
/// and mail must not be empty, then the mail and the phone number must pass.
pub open spec fn field_failure_with(acc: ZZAccountView, mail_ok: bool, phone_ok: bool) -> Option<Seq<char>> {
    if acc.passwd.len() == 0 {
        Some(ACC_PASSWD_NOT_ALLOW_EMPTY@)
    } else if acc.acc_name.len() == 0 {
        Some(ACC_NAME_NOT_ALLOW_EMPTY@)
    } else if acc.phone_num.len() == 0 {
        Some(ACC_PHONE_NOT_ALLOW_EMPTY@)
    } else if acc.mail.len() == 0 {
        Some(ACC_MAIL_NOT_ALLOW_EMPTY@)
    } else if !mail_ok {
        Some(ACC_MAIL_REGX_NOT_MATCH@)
    } else if !phone_ok {
        Some(ACC_PHONE_REGX_NOT_MATCH@)
    } else {
        None
    }
}

/// The first rule of a registration's fields that it breaks, with the mail and phone patterns
/// applied.
pub open spec fn field_failure(acc: ZZAccountView) -> Option<Seq<char>> {
    field_failure_with(acc, passes(MAIL_PATTERN@, acc.mail), passes(PHONE_PATTERN@, acc.phone_num))
}

/// The first action of a registration check, given the pattern results.
pub open spec fn check_start_with(acc: ZZAccountView, mail_ok: bool, phone_ok: bool) -> CheckActionView {
    match field_failure_with(acc, mail_ok, phone_ok) {
        Some(info) => CheckActionView::Done(failed(info)),
        None => CheckActionView::Count(CheckStage::Name),
    }
}

/// The text of the refusal when a stage finds an account that already has the value.
pub open spec fn exists_info(stage: CheckStage) -> Seq<char> {
    match stage {
        CheckStage::Name => ACC_NAME_EXISTS@,
        CheckStage::Phone => ACC_PHONE_EXISTS@,
        CheckStage::Mail => ACC_MAIL_EXISTS@,
    }
}

/// The first action of a registration check.
pub open spec fn check_start(acc: ZZAccountView) -> CheckActionView {
    check_start_with(acc, passes(MAIL_PATTERN@, acc.mail), passes(PHONE_PATTERN@, acc.phone_num))
}

/// The action of a registration check after the count query of `stage` replied: a failed
/// query or a positive count ends it refused; otherwise the next stage is queried, and after
/// the last one the check ends accepted.
pub open spec fn check_step(stage: CheckStage, reply: QueryReplyView) -> CheckActionView {
    match reply {
        QueryReplyView::Failed => CheckActionView::Done(failed(INFO_DB_ERR@)),
        QueryReplyView::Rows(rows) => if rows[0] > 0 {
            CheckActionView::Done(failed(exists_info(stage)))
        } else {
            match stage {
                CheckStage::Name => CheckActionView::Count(CheckStage::Phone),
                CheckStage::Phone => CheckActionView::Count(CheckStage::Mail),
                CheckStage::Mail => CheckActionView::Done(succeeded(ACC_CHECK_SUCC@)),
            }
        },
    }
}

/// The response a storing query's reply is answered with.
pub open spec fn insert_result(reply: QueryReplyView) -> RetResponseView {
    match reply {
        QueryReplyView::Failed => failed(INFO_DB_ERR@),
        QueryReplyView::Rows(_) => succeeded(ACC_CREATE_SUCC@),
    }
}

/// The response after a login query replied: a failed query refuses with `INFO_DB_ERR`, a
/// first row with a positive count accepts, a first row with none refuses, and no row at all
/// leaves the response as it was. The magic key is kept.
pub open spec fn login_result(ret: RetResponseView, reply: QueryReplyView) -> RetResponseView {
    match reply {
        QueryReplyView::Failed => RetResponseView { ret_code: CODE_NOK, ret_info: INFO_DB_ERR@, ..ret },
        QueryReplyView::Rows(rows) => if rows.len() > 0 {
            if rows[0] > 0 {
                RetResponseView { ret_code: CODE_OK, ret_info: ACC_LOGIN_SUCC@, ..ret }
            } else {
                RetResponseView { ret_code: CODE_NOK, ret_info: ACC_LOGIN_FAIL@, ..ret }
            }
        } else {
            ret
        },
    }
}

/// A reply that a count query can give: a failure, or at least one row.
pub open spec fn count_reply(reply: QueryReplyView) -> bool {
    reply matches QueryReplyView::Rows(rows) ==> rows.len() > 0
}

/// The field rules of a registration, stated on its fields: it passes them exactly when its
/// password, name, phone number and mail are all non-empty and the mail address and phone number
/// passed their patterns, and then the account-name count comes next. Otherwise it is refused,
/// with no magic key, by the first rule broken in the order password, name, phone, mail, mail
/// pattern, phone pattern.
pub proof fn lemma_field_rules(acc: ZZAccountView, mail_ok: bool, phone_ok: bool)
    ensures
        ({
            let start = check_start_with(acc, mail_ok, phone_ok);
            let filled = acc.passwd.len() > 0 && acc.acc_name.len() > 0 && acc.phone_num.len() > 0 && acc.mail.len() > 0;
            let refused = |info: Seq<char>|
                CheckActionView::Done(RetResponseView { ret_code: CODE_NOK, ret_info: info, magic_key: Seq::empty() });
            &&& (start is Count) <==> (filled && mail_ok && phone_ok)
            &&& (start is Count) ==> start == CheckActionView::Count(CheckStage::Name)
            &&& acc.passwd.len() == 0 ==> start == refused(ACC_PASSWD_NOT_ALLOW_EMPTY@)
            &&& acc.passwd.len() > 0 && acc.acc_name.len() == 0 ==> start == refused(ACC_NAME_NOT_ALLOW_EMPTY@)
            &&& acc.passwd.len() > 0 && acc.acc_name.len() > 0 && acc.phone_num.len() == 0
                ==> start == refused(ACC_PHONE_NOT_ALLOW_EMPTY@)
            &&& acc.passwd.len() > 0 && acc.acc_name.len() > 0 && acc.phone_num.len() > 0 && acc.mail.len() == 0
                ==> start == refused(ACC_MAIL_NOT_ALLOW_EMPTY@)
            &&& filled && !mail_ok ==> start == refused(ACC_MAIL_REGX_NOT_MATCH@)
            &&& filled && mail_ok && !phone_ok ==> start == refused(ACC_PHONE_REGX_NOT_MATCH@)
        }),
{
}

/// The same rules with the patterns applied: a registration with an empty password is refused
/// with `ACC_PASSWD_NOT_ALLOW_EMPTY` whatever its other fields are, and one goes on to the counts
/// only when every field is non-empty and the mail and phone number pass their patterns.
pub proof fn lemma_check_acc_rules(acc: ZZAccountView)
    ensures
        acc.passwd.len() == 0 ==> check_start(acc)
            == CheckActionView::Done(RetResponseView { ret_code: CODE_NOK, ret_info: ACC_PASSWD_NOT_ALLOW_EMPTY@, magic_key: Seq::empty() }),
        (check_start(acc) is Count) <==> (acc.passwd.len() > 0 && acc.acc_name.len() > 0 && acc.phone_num.len() > 0
            && acc.mail.len() > 0 && passes(MAIL_PATTERN@, acc.mail) && passes(PHONE_PATTERN@, acc.phone_num)),
{
    lemma_field_rules(acc, passes(MAIL_PATTERN@, acc.mail), passes(PHONE_PATTERN@, acc.phone_num));
}

/// A positive count at any stage ends the check refused, with that stage's text and no magic
/// key; a failed count query ends it refused with `INFO_DB_ERR`.
pub proof fn lemma_taken_values_refused(stage: CheckStage, rows: Seq<i64>)
    ensures
        rows.len() > 0 && rows[0] > 0 ==> check_step(stage, QueryReplyView::Rows(rows)) == CheckActionView::Done(
            RetResponseView {
                ret_code: CODE_NOK,
                ret_info: if stage == CheckStage::Name {
                    ACC_NAME_EXISTS@
                } else if stage == CheckStage::Phone {
                    ACC_PHONE_EXISTS@
                } else {
                    ACC_MAIL_EXISTS@
                },
                magic_key: Seq::empty(),
            },
        ),
        check_step(stage, QueryReplyView::Failed) == CheckActionView::Done(
            RetResponseView { ret_code: CODE_NOK, ret_info: INFO_DB_ERR@, magic_key: Seq::empty() },
        ),
{
}

/// The action after one more reply: an ended check stays ended, a pending count takes it.
pub open spec fn check_after(action: CheckActionView, reply: QueryReplyView) -> CheckActionView {
    match action {
        CheckActionView::Done(r) => CheckActionView::Done(r),
        CheckActionView::Count(stage) => check_step(stage, reply),
    }
}

/// A count query that found no account with the value.
pub open spec fn unused(reply: QueryReplyView) -> bool {
    reply matches QueryReplyView::Rows(rows) && rows[0] <= 0
}

/// A registration check, from its fields and the replies of the account-name, phone and mail
/// counts, ends after those three replies at the latest; it ends accepted, with
/// `ACC_CHECK_SUCC`, exactly when every field rule holds and no count found an account, and a
/// broken field rule ends it with that rule's refusal before any query is made.
pub proof fn lemma_check_outcome(acc: ZZAccountView, name: QueryReplyView, phone: QueryReplyView, mail: QueryReplyView)
    ensures
        ({
            let end = check_after(check_after(check_after(check_start(acc), name), phone), mail);
            &&& end is Done
            &&& (end matches CheckActionView::Done(r) && r.ret_code == CODE_OK)
                <==> (field_failure(acc) is None && unused(name) && unused(phone) && unused(mail))
            &&& (end matches CheckActionView::Done(r) && r.ret_code == CODE_OK) ==> end == CheckActionView::Done(succeeded(ACC_CHECK_SUCC@))
            &&& field_failure(acc) matches Some(info) ==> check_start(acc) == CheckActionView::Done(failed(info))
        }),
{
}

/// The texts of a Redis command, in order.
pub open spec fn texts(command: Seq<String>) -> Seq<Seq<char>> {
    command.map_values(|s: String| s@)
}

impl DaoAcc {
    /// The Redis command that reads an account's magic key: `HGET <name> magic_key`.
    pub fn magic_key_command(login_info: &LoginInfo) -> (r: Vec<String>)
        ensures
            texts(r@) == seq!["HGET"@, login_info.acc_name@, MAGIC_KEY@],
    {
        let mut v: Vec<String> = Vec::new();
        v.push(owned("HGET"));
        v.push(login_info.acc_name.clone());
        v.push(owned(MAGIC_KEY));
        assert(texts(v@) =~= seq!["HGET"@, login_info.acc_name@, MAGIC_KEY@]);
        v
    }

    /// The Redis commands that save a new login state: the account's hash gets the magic key
    /// and `ts` as creation and login time, then lives `LOGIN_TTL` seconds.
    pub fn save_login_commands(login_info: &LoginInfo, ret_response: &RetResponse, ts: i64) -> (r: (Vec<String>, Vec<String>))
        ensures
            texts(r.0@) == seq![
                "HMSET"@, login_info.acc_name@, MAGIC_KEY@, ret_response.magic_key@,
                SESSION_CREATE@, signed_decimal(ts as int), LOGIN_TIME@, signed_decimal(ts as int),
            ],
            texts(r.1@) == seq!["EXPIRE"@, login_info.acc_name@, signed_decimal(LOGIN_TTL as int)],
    {
        let mut set: Vec<String> = Vec::new();
        set.push(owned("HMSET"));
        set.push(login_info.acc_name.clone());
        set.push(owned(MAGIC_KEY));
        set.push(ret_response.magic_key.clone());
        set.push(owned(SESSION_CREATE));
        set.push(signed_decimal_text(ts));
        set.push(owned(LOGIN_TIME));
        set.push(signed_decimal_text(ts));
        let mut expire: Vec<String> = Vec::new();
        expire.push(owned("EXPIRE"));
        expire.push(login_info.acc_name.clone());
        expire.push(signed_decimal_text(LOGIN_TTL as i64));
        assert(texts(set@) =~= seq![
            "HMSET"@, login_info.acc_name@, MAGIC_KEY@, ret_response.magic_key@,
            SESSION_CREATE@, signed_decimal(ts as int), LOGIN_TIME@, signed_decimal(ts as int),
        ]);
        assert(texts(expire@) =~= seq!["EXPIRE"@, login_info.acc_name@, signed_decimal(LOGIN_TTL as int)]);
        (set, expire)
    }

    /// The Redis command that refreshes the login time of an account's login state:
    /// `HSET <name> login_time <ts>`.
    pub fn refresh_login_command(login_info: &LoginInfo, ts: i64) -> (r: Vec<String>)
        ensures
            texts(r@) == seq!["HSET"@, login_info.acc_name@, LOGIN_TIME@, signed_decimal(ts as int)],
    {
        let mut v: Vec<String> = Vec::new();
        v.push(owned("HSET"));
        v.push(login_info.acc_name.clone());
        v.push(owned(LOGIN_TIME));
        v.push(signed_decimal_text(ts));
        assert(texts(v@) =~= seq!["HSET"@, login_info.acc_name@, LOGIN_TIME@, signed_decimal(ts as int)]);
        v
    }

    /// The text that is encrypted for an account: its name, `PASSWD_MIX`, its password.
    pub fn mix_passwd(acc_name: &str, passwd: &str) -> (r: String)
        ensures
            r@ == mixed(acc_name@, passwd@),
    {
        let mut s = owned(acc_name);
        s.append(PASSWD_MIX);
        s.append(passwd);
        s
    }

    /// The encrypted password that is stored for an account: the mixed text, UTF-8 encoded,
    /// under the password key and IV. Whether it succeeds is OpenSSL's decision.
    pub fn passwd_cipher(acc_name: &str, passwd: &str) -> (r: Result<Vec<u8>, CryptoError>)
        requires
            fits_cipher(acc_name@, passwd@),
        ensures
            r matches Ok(v) ==> v@ == stored_passwd(acc_name@, passwd@),
            r matches Ok(v) ==> forall|p: Seq<char>|
                fits_cipher(acc_name@, p) ==> (#[trigger] stored_passwd(acc_name@, p) == v@ <==> p == passwd@),
            r matches Err(e) ==> e == CryptoError::Openssl,
    {
        let mix = Self::mix_passwd(acc_name, passwd);
        let key: [u8; 32] = [65u8; 32];
        let iv: [u8; 16] = [97u8; 16];
        assert(key@ =~= passwd_key());
        assert(iv@ =~= passwd_iv());
        let r = encrypt(mix.as_str().as_bytes(), key.as_slice(), iv.as_slice());
        proof {
            if let Ok(v) = &r {
                assert forall|p: Seq<char>|
                    fits_cipher(acc_name@, p) implies (#[trigger] stored_passwd(acc_name@, p) == v@ <==> p == passwd@) by {
                    if stored_passwd(acc_name@, p) == v@ {
                        let m = encode_utf8(mixed(acc_name@, p));
                        assert(aes_256_cbc_encrypted(key@, iv@, m) == v@);
                        assert(m == encode_utf8(mixed(acc_name@, passwd@)));
                        vstd::utf8::encode_utf8_decode_utf8(mixed(acc_name@, p));
                        vstd::utf8::encode_utf8_decode_utf8(mixed(acc_name@, passwd@));
                        lemma_mixed_injective(acc_name@, p, passwd@);
                    }
                }
            }
        }
        r
    }

    /// The login query of a login request: `LOGIN_SQL` with the account name and the bytes that
    /// registration stores for that name and the given password. Those bytes equal what was
    /// stored for the name exactly when the passwords are equal.
    pub fn login_query(login_info: &LoginInfo) -> (r: Result<LoginQuery, CryptoError>)
        requires
            fits_cipher(login_info.acc_name@, login_info.passwd@),
        ensures
            r matches Ok(q) ==> q.sql@ == LOGIN_SQL@ && q.acc_name@ == login_info.acc_name@
                && q.passwd@ == stored_passwd(login_info.acc_name@, login_info.passwd@),
            r matches Ok(q) ==> forall|p: Seq<char>|
                fits_cipher(login_info.acc_name@, p)
                    ==> (#[trigger] stored_passwd(login_info.acc_name@, p) == q.passwd@ <==> p == login_info.passwd@),
            r matches Err(e) ==> e == CryptoError::Openssl,
    {
        match Self::passwd_cipher(login_info.acc_name.as_str(), login_info.passwd.as_str()) {
            Ok(passwd) => Ok(LoginQuery { sql: LOGIN_SQL, acc_name: login_info.acc_name.clone(), passwd }),
            Err(e) => Err(e),
        }
    }

    /// The query that stores an account: `INSERT_ACCOUNT_SQL` with its id, name, phone, mail,
    /// the bytes stored for its password, and its creation time.
    pub fn insert_query(acc: &ZZAccount) -> (r: Result<InsertQuery, CryptoError>)
        requires
            fits_cipher(acc.acc_name@, acc.passwd@),
        ensures
            r matches Ok(q) ==> {
                &&& q.sql@ == INSERT_ACCOUNT_SQL@
                &&& q.acc_id@ == acc.acc_id@
                &&& q.acc_name@ == acc.acc_name@
                &&& q.phone_num@ == acc.phone_num@
                &&& q.mail@ == acc.mail@
                &&& q.passwd@ == stored_passwd(acc.acc_name@, acc.passwd@)
                &&& q.create_time == acc.create_time
            },
            r matches Err(e) ==> e == CryptoError::Openssl,
    {
        match Self::passwd_cipher(acc.acc_name.as_str(), acc.passwd.as_str()) {
            Ok(passwd) => Ok(InsertQuery {
                sql: INSERT_ACCOUNT_SQL,
                acc_id: acc.acc_id.clone(),
                acc_name: acc.acc_name.clone(),
                phone_num: acc.phone_num.clone(),
                mail: acc.mail.clone(),
                passwd,
                create_time: acc.create_time,
            }),
            Err(e) => Err(e),
        }
    }

    /// The response a storing query's reply is answered with: a failure refuses with
    /// `INFO_DB_ERR`, anything else accepts with `ACC_CREATE_SUCC`.
    pub fn acc_insert(reply: &QueryReply) -> (r: RetResponse)
        ensures
            r@ == insert_result(reply@),
    {
        match reply {
            QueryReply::Failed => RetResponse { ret_code: CODE_NOK, ret_info: owned(INFO_DB_ERR), magic_key: String::new() },
            QueryReply::Rows(_) => RetResponse { ret_code: CODE_OK, ret_info: owned(ACC_CREATE_SUCC), magic_key: String::new() },
        }
    }

    /// Checks the fields of a registration, given whether its mail address and phone number
    /// passed their patterns: refuses it with the first rule it breaks, or asks for the
    /// account-name count.
    pub fn check_fields(acc: &ZZAccount, mail_ok: bool, phone_ok: bool) -> (r: CheckAction)
        ensures
            r@ == check_start_with(acc@, mail_ok, phone_ok),
    {
        let info: Option<&'static str> = if acc.passwd.as_str().is_empty() {
            Some(ACC_PASSWD_NOT_ALLOW_EMPTY)
        } else if acc.acc_name.as_str().is_empty() {
            Some(ACC_NAME_NOT_ALLOW_EMPTY)
        } else if acc.phone_num.as_str().is_empty() {
            Some(ACC_PHONE_NOT_ALLOW_EMPTY)
        } else if acc.mail.as_str().is_empty() {
            Some(ACC_MAIL_NOT_ALLOW_EMPTY)
        } else if !mail_ok {
            Some(ACC_MAIL_REGX_NOT_MATCH)
        } else if !phone_ok {
            Some(ACC_PHONE_REGX_NOT_MATCH)
        } else {
            None
        };
        match info {
            Some(text) => CheckAction::Done(RetResponse { ret_code: CODE_NOK, ret_info: owned(text), magic_key: String::new() }),
            None => CheckAction::Count(CheckStage::Name),
        }
    }

    /// Checks the fields of a registration, applying the mail and phone patterns: refuses it
    /// with the first rule it breaks, or asks for the account-name count.
    pub fn check_acc(acc: &ZZAccount) -> (r: CheckAction)
        ensures
            r@ == check_start(acc@),
    {
        let mail_ok = mail_matches(acc.mail.as_str());
        let phone_ok = phone_matches(acc.phone_num.as_str());
        Self::check_fields(acc, mail_ok, phone_ok)
    }

    /// The query and its parameter for the count of a stage.
    pub fn count_query(stage: CheckStage, acc: &ZZAccount) -> (r: (&'static str, &String))
        ensures
            stage == CheckStage::Name ==> r.0@ == COUNT_BY_NAME_SQL@ && r.1@ == acc.acc_name@,
            stage == CheckStage::Phone ==> r.0@ == COUNT_BY_PHONE_SQL@ && r.1@ == acc.phone_num@,
            stage == CheckStage::Mail ==> r.0@ == COUNT_BY_MAIL_SQL@ && r.1@ == acc.mail@,
    {
        match stage {
            CheckStage::Name => (COUNT_BY_NAME_SQL, &acc.acc_name),
            CheckStage::Phone => (COUNT_BY_PHONE_SQL, &acc.phone_num),
            CheckStage::Mail => (COUNT_BY_MAIL_SQL, &acc.mail),
        }
    }

    /// Takes the reply of the count query of `stage` and says what comes next. A count query
    /// returns a row, so a reply with no rows is not taken.
    pub fn check_acc_step(stage: CheckStage, reply: &QueryReply) -> (r: CheckAction)
        requires
            count_reply(reply@),
        ensures
            r@ == check_step(stage, reply@),
    {
        match reply {
            QueryReply::Failed => CheckAction::Done(RetResponse { ret_code: CODE_NOK, ret_info: owned(INFO_DB_ERR), magic_key: String::new() }),
            QueryReply::Rows(rows) => {
                if rows[0] > 0 {
                    let text = match stage {
                        CheckStage::Name => ACC_NAME_EXISTS,
                        CheckStage::Phone => ACC_PHONE_EXISTS,
                        CheckStage::Mail => ACC_MAIL_EXISTS,
                    };
                    CheckAction::Done(RetResponse { ret_code: CODE_NOK, ret_info: owned(text), magic_key: String::new() })
                } else {
                    match stage {
                        CheckStage::Name => CheckAction::Count(CheckStage::Phone),
                        CheckStage::Phone => CheckAction::Count(CheckStage::Mail),
                        CheckStage::Mail => CheckAction::Done(RetResponse { ret_code: CODE_OK, ret_info: owned(ACC_CHECK_SUCC), magic_key: String::new() }),
                    }
                }
            },
        }
    }

    /// Answers a login from the reply of the login query.
    pub fn acc_login(reply: &QueryReply, ret_response: &mut RetResponse)
        ensures
            final(ret_response)@ == login_result(old(ret_response)@, reply@),
    {
        match reply {
            QueryReply::Failed => {
                ret_response.ret_code = CODE_NOK;
                ret_response.ret_info = owned(INFO_DB_ERR);
            },
            QueryReply::Rows(rows) => {
                if rows.len() > 0 {
                    if rows[0] > 0 {
                        ret_response.ret_code = CODE_OK;
                        ret_response.ret_info = owned(ACC_LOGIN_SUCC);
                    } else {
                        ret_response.ret_code = CODE_NOK;
                        ret_response.ret_info = owned(ACC_LOGIN_FAIL);
                    }
                }
            },
        }
    }

    /// The magic key that Redis gave back for an account: whether there was one, and the key
    /// (empty where there was none).
    pub fn get_magic_key(reply: Option<String>) -> (r: (bool, String))
        ensures
            r.0 == (reply is Some),
            reply matches Some(k) ==> r.1@ == k@,
            reply is None ==> r.1@ == Seq::<char>::empty(),
    {
        match reply {
            Some(s) => (true, s),
            None => (false, String::new()),
        }
    }

    /// Records a new login on this server: the account's session gets the response's magic
    /// key and the login time `ts`.
    pub fn save_login_state(login_info: &LoginInfo, ret_response: &RetResponse, ts: i64, sessions: &mut GlobalSession)
        ensures
            final(sessions)@ == with_session(
                old(sessions)@,
                SessionView { acc_name: login_info.acc_name@, magic_key: ret_response.magic_key@, login_time: ts },
            ),
    {
        let session = Session {
            acc_name: login_info.acc_name.clone(),
            magic_key: ret_response.magic_key.clone(),
            login_time: ts,
        };
        sessions.add_session(session);
    }

    /// Records a repeated login on this server: the account's session, if any, gets the login
    /// time `ts`.
    pub fn refresh_login_time(login_info: &LoginInfo, ts: i64, sessions: &mut GlobalSession)
        ensures
            final(sessions)@ == with_login_time(old(sessions)@, login_info.acc_name@, ts),
    {
        sessions.refresh_login_time(login_info.acc_name.clone(), ts);
    }
}

} // verus!
