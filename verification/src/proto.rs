//! Wire types, result codes and the texts that responses carry.

use vstd::prelude::*;

verus! {

/// Result code of a request that succeeded.
pub const CODE_OK: i32 = 0;

/// Result code of a request that failed.
pub const CODE_NOK: i32 = -1;

/// How long, in seconds, a login state kept in Redis lives.
pub const LOGIN_TTL: i32 = 3600;

/// Text of a response that went through.
pub const INFO_OK: &'static str = "OK";

/// Text of a response whose database query failed.
pub const INFO_DB_ERR: &'static str = "db error";

/// Text of a response whose network I/O failed.
pub const INFO_NETWORK_ERR: &'static str = "io network error";

/// What separates the account name from the password in the text that is encrypted and stored.
pub const PASSWD_MIX: &'static str = "^^||";

/// Redis hash field of a login state that holds the magic key.
pub const MAGIC_KEY: &'static str = "magic_key";

/// Redis hash field of a login state that holds the time it was created.
pub const SESSION_CREATE: &'static str = "create_time";

/// Redis hash field of a login state that holds the last login time.
pub const LOGIN_TIME: &'static str = "login_time";

pub const ACC_CREATE_SUCC: &'static str = "账户创建成功";
pub const ACC_PASSWD_NOT_ALLOW_EMPTY: &'static str = "密码不能为空";
pub const ACC_NAME_NOT_ALLOW_EMPTY: &'static str = "用户名不能为空";
pub const ACC_PHONE_NOT_ALLOW_EMPTY: &'static str = "手机号不能为空";
pub const ACC_MAIL_NOT_ALLOW_EMPTY: &'static str = "邮箱不能为空";
pub const ACC_MAIL_REGX_NOT_MATCH: &'static str = "邮箱正则校验不符合规则";
pub const ACC_PHONE_REGX_NOT_MATCH: &'static str = "手机号码正则校验不符合规则";
pub const ACC_NAME_EXISTS: &'static str = "用户名已存在";
pub const ACC_PHONE_EXISTS: &'static str = "手机号码已存在";
pub const ACC_MAIL_EXISTS: &'static str = "邮箱已存在";
pub const ACC_LOGIN_SUCC: &'static str = "账户密码认证通过";
pub const ACC_LOGIN_FAIL: &'static str = "账户密码认证未通过";
pub const ACC_CHECK_SUCC: &'static str = "账户信息校验通过";

/// The response that every account request answers with.
pub struct RetResponse {
    pub ret_code: i32,
    pub ret_info: String,
    pub magic_key: String,
}

/// What a response says, with its texts taken as character sequences.
pub struct RetResponseView {
    pub ret_code: i32,
    pub ret_info: Seq<char>,
    pub magic_key: Seq<char>,
}

impl View for RetResponse {
    type V = RetResponseView;

    open spec fn view(&self) -> RetResponseView {
        RetResponseView { ret_code: self.ret_code, ret_info: self.ret_info@, magic_key: self.magic_key@ }
    }
}

impl RetResponse {
    /// A fresh response: failed, with no text and no magic key.
    pub fn new() -> (r: Self)
        ensures
            r.ret_code == CODE_NOK,
            r.ret_info@ == Seq::<char>::empty(),
            r.magic_key@ == Seq::<char>::empty(),
    {
        RetResponse { ret_code: CODE_NOK, ret_info: String::new(), magic_key: String::new() }
    }
}

/// A failed response with the given text and no magic key.
pub open spec fn failed(info: Seq<char>) -> RetResponseView {
    RetResponseView { ret_code: CODE_NOK, ret_info: info, magic_key: Seq::empty() }
}

/// A response that went through, with the given text and no magic key.
pub open spec fn succeeded(info: Seq<char>) -> RetResponseView {
    RetResponseView { ret_code: CODE_OK, ret_info: info, magic_key: Seq::empty() }
}

/// An owned copy of a text.
pub fn owned(s: &str) -> (r: String)
    ensures
        r@ == s@,
{
    s.to_owned()
}

/// An account as it is registered.
pub struct ZZAccount {
    pub acc_id: String,
    pub acc_name: String,
    pub phone_num: String,
    pub mail: String,
    pub passwd: String,
    pub create_time: i64,
}

/// An account with its texts taken as character sequences.
pub struct ZZAccountView {
    pub acc_id: Seq<char>,
    pub acc_name: Seq<char>,
    pub phone_num: Seq<char>,
    pub mail: Seq<char>,
    pub passwd: Seq<char>,
    pub create_time: i64,
}

impl View for ZZAccount {
    type V = ZZAccountView;

    open spec fn view(&self) -> ZZAccountView {
        ZZAccountView {
            acc_id: self.acc_id@,
            acc_name: self.acc_name@,
            phone_num: self.phone_num@,
            mail: self.mail@,
            passwd: self.passwd@,
            create_time: self.create_time,
        }
    }
}

/// The credentials of a login request.
pub struct LoginInfo {
    pub acc_name: String,
    pub passwd: String,
}

impl Clone for LoginInfo {
    fn clone(&self) -> (r: Self)
        ensures
            r.acc_name@ == self.acc_name@,
            r.passwd@ == self.passwd@,
    {
        LoginInfo { acc_name: self.acc_name.clone(), passwd: self.passwd.clone() }
    }
}

/// A logged-in account: its name, the magic key it was given and when it last logged in.
pub struct Session {
    pub acc_name: String,
    pub magic_key: String,
    pub login_time: i64,
}

/// A session with its texts taken as character sequences.
pub struct SessionView {
    pub acc_name: Seq<char>,
    pub magic_key: Seq<char>,
    pub login_time: i64,
}

impl View for Session {
    type V = SessionView;

    open spec fn view(&self) -> SessionView {
        SessionView { acc_name: self.acc_name@, magic_key: self.magic_key@, login_time: self.login_time }
    }
}

impl Clone for Session {
    fn clone(&self) -> (r: Self)
        ensures
            r@ == self@,
    {
        Session { acc_name: self.acc_name.clone(), magic_key: self.magic_key.clone(), login_time: self.login_time }
    }
}

} // verus!
