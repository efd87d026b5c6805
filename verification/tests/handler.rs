use zz_metasvr::dao::{CheckStage, DaoAcc, QueryReply};
use zz_metasvr::handler::{login_next, new_account, register_next, LoginAction, LoginEvent, RegisterAction};
use zz_metasvr::proto::{RetResponse, ZZAccount, ACC_LOGIN_FAIL, ACC_LOGIN_SUCC, ACC_NAME_EXISTS, CODE_NOK, CODE_OK};

fn request() -> ZZAccount {
    ZZAccount {
        acc_id: String::new(),
        acc_name: "bob".to_string(),
        phone_num: "13888888888".to_string(),
        mail: "bob@x.cn".to_string(),
        passwd: "pw".to_string(),
        create_time: 0,
    }
}

#[test]
fn new_account_takes_id_and_time() {
    let acc = new_account(&request(), "uuid-1".to_string(), 1234);
    assert_eq!(acc.acc_id, "uuid-1");
    assert_eq!(acc.create_time, 1234);
    assert_eq!((acc.acc_name.as_str(), acc.phone_num.as_str(), acc.mail.as_str(), acc.passwd.as_str()), ("bob", "13888888888", "bob@x.cn", "pw"));
}

#[test]
fn registration_runs_three_counts_then_inserts() {
    let acc = new_account(&request(), "id".to_string(), 1);
    let mut action = register_next(DaoAcc::check_acc(&acc));
    let mut counts = vec![];
    loop {
        match action {
            RegisterAction::Count(stage) => {
                counts.push(stage);
                action = register_next(DaoAcc::check_acc_step(stage, &QueryReply::Rows(vec![0])));
            },
            RegisterAction::Insert => break,
            RegisterAction::Respond(_) => panic!("expected an insert"),
        }
    }
    assert_eq!(counts, vec![CheckStage::Name, CheckStage::Phone, CheckStage::Mail]);
}

#[test]
fn registration_of_a_taken_name_is_answered_at_once() {
    match register_next(DaoAcc::check_acc_step(CheckStage::Name, &QueryReply::Rows(vec![1]))) {
        RegisterAction::Respond(r) => {
            assert_eq!(r.ret_code, CODE_NOK);
            assert_eq!(r.ret_info, ACC_NAME_EXISTS);
        },
        _ => panic!("expected a response"),
    }
}

#[test]
fn login_reuses_the_stored_magic_key() {
    let mut r = RetResponse::new();
    assert_eq!(login_next(&mut r, LoginEvent::Authenticated(QueryReply::Rows(vec![1]))), LoginAction::GetMagicKey);
    assert_eq!(login_next(&mut r, LoginEvent::MagicKey(Some("old".to_string()))), LoginAction::RefreshLoginTime);
    assert_eq!(login_next(&mut r, LoginEvent::Stored), LoginAction::Respond);
    assert_eq!((r.ret_code, r.ret_info.as_str(), r.magic_key.as_str()), (CODE_OK, ACC_LOGIN_SUCC, "old"));
}

#[test]
fn login_without_a_stored_key_gets_a_fresh_one() {
    let mut r = RetResponse::new();
    assert_eq!(login_next(&mut r, LoginEvent::Authenticated(QueryReply::Rows(vec![3]))), LoginAction::GetMagicKey);
    assert_eq!(login_next(&mut r, LoginEvent::MagicKey(None)), LoginAction::GenerateKey);
    assert_eq!(login_next(&mut r, LoginEvent::FreshKey("fresh".to_string())), LoginAction::SaveLoginState);
    assert_eq!(login_next(&mut r, LoginEvent::Stored), LoginAction::Respond);
    assert_eq!(r.magic_key, "fresh");
    assert_eq!(r.ret_code, CODE_OK);
}

#[test]
fn failed_login_is_answered_at_once() {
    let mut r = RetResponse::new();
    assert_eq!(login_next(&mut r, LoginEvent::Authenticated(QueryReply::Rows(vec![0]))), LoginAction::Respond);
    assert_eq!((r.ret_code, r.ret_info.as_str(), r.magic_key.as_str()), (CODE_NOK, ACC_LOGIN_FAIL, ""));
}
