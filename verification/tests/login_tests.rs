use dashboard_auth::config::JwtConfig;
use dashboard_auth::login::{login, login_reply, login_with_hash, LoginParameter, LoginReply};
use dashboard_auth::token::{token_validation, HttpStatus};

fn sample_jwt() -> JwtConfig {
    JwtConfig::new(
        "dashboard-users".to_string(),
        "dashboard-server".to_string(),
        "dashboard-login".to_string(),
        "SECRET-REDACTED".to_string(),
    )
}

const NOW: u64 = 1_725_000_000;

fn params(account: &str, password: &str) -> LoginParameter {
    LoginParameter { account: account.to_string(), password: password.to_string() }
}

fn assert_granted(reply: &LoginReply, account: &str) {
    assert_eq!(reply.status, HttpStatus::Success);
    assert_eq!(reply.result.message, "Login Success");
    assert_eq!(reply.result.nickname, "shandy");
    let claims = reply.claims.as_ref().expect("a granted login carries claims");
    assert_eq!(claims.account, account);
    assert_eq!(claims.aud, "dashboard-users");
    assert_eq!(claims.iss, "dashboard-server");
    assert_eq!(claims.sub, "dashboard-login");
    assert_eq!(claims.exp as u64, NOW + 3600);
}

fn assert_refused(reply: &LoginReply) {
    assert_eq!(reply.status, HttpStatus::Unauthorized);
    assert_eq!(reply.result.message, "Account or Password isn't validate");
    assert_eq!(reply.result.nickname, "");
    assert!(reply.claims.is_none());
}

#[test]
fn registered_account_and_password_log_in() {
    let reply = login(params("test111", "qwerty"), NOW, &sample_jwt()).unwrap();
    assert_granted(&reply, "test111");
}

#[test]
fn wrong_password_is_refused() {
    let reply = login(params("test111", "qwerty1"), NOW, &sample_jwt()).unwrap();
    assert_refused(&reply);
    let reply = login(params("test111", ""), NOW, &sample_jwt()).unwrap();
    assert_refused(&reply);
}

#[test]
fn password_with_trailing_nul_is_refused() {
    let reply = login(params("test111", "qwerty\0"), NOW, &sample_jwt()).unwrap();
    assert_refused(&reply);
}

#[test]
fn other_account_is_refused() {
    let reply = login(params("test112", "qwerty"), NOW, &sample_jwt()).unwrap();
    assert_refused(&reply);
    let reply = login(params("TEST111", "qwerty"), NOW, &sample_jwt()).unwrap();
    assert_refused(&reply);
    let reply = login(params("", ""), NOW, &sample_jwt()).unwrap();
    assert_refused(&reply);
}

#[test]
fn refusals_look_the_same_for_account_and_password() {
    let a = login(params("nobody", "qwerty"), NOW, &sample_jwt()).unwrap();
    let b = login(params("test111", "nope"), NOW, &sample_jwt()).unwrap();
    assert_eq!(a.status, b.status);
    assert_eq!(a.result.message, b.result.message);
    assert_eq!(a.result.nickname, b.result.nickname);
}

#[test]
fn reply_from_check_results() {
    let jwt = sample_jwt();
    assert_granted(&login_reply("test111".to_string(), true, true, NOW, &jwt), "test111");
    assert_refused(&login_reply("test111".to_string(), true, false, NOW, &jwt));
    assert_refused(&login_reply("test111".to_string(), false, true, NOW, &jwt));
    assert_refused(&login_reply("test111".to_string(), false, false, NOW, &jwt));
}

#[test]
fn granted_login_claims_agree_with_token_rules() {
    let jwt = sample_jwt();
    let reply = login(params("test111", "qwerty"), NOW, &jwt).unwrap();
    let claims = reply.claims.expect("granted");
    let rules = token_validation(&jwt);
    assert!(rules.audience.contains(&claims.aud));
    assert!(rules.issuer.contains(&claims.iss));
    assert_eq!(rules.subject, Some(claims.sub.clone()));
}

#[test]
fn decision_follows_the_hash_of_the_sent_password() {
    let jwt = sample_jwt();
    let right = bcrypt::hash("qwerty", 4).unwrap();
    let wrong = bcrypt::hash("qwertz", 4).unwrap();
    assert_granted(&login_with_hash("test111".to_string(), &right, NOW, &jwt), "test111");
    assert_refused(&login_with_hash("test111".to_string(), &wrong, NOW, &jwt));
    // another account is refused whatever the hash
    assert_refused(&login_with_hash("test112".to_string(), &right, NOW, &jwt));
}

#[test]
fn unparsable_hash_is_a_refusal() {
    let jwt = sample_jwt();
    assert_refused(&login_with_hash("test111".to_string(), "", NOW, &jwt));
    assert_refused(&login_with_hash("test111".to_string(), "qwerty", NOW, &jwt));
}

#[test]
fn refusals_reveal_nothing_of_account_or_hash() {
    let jwt = sample_jwt();
    let wrong = bcrypt::hash("nope", 4).unwrap();
    let right = bcrypt::hash("qwerty", 4).unwrap();
    let a = login_with_hash("test111".to_string(), &wrong, NOW, &jwt);
    let b = login_with_hash("someone".to_string(), &right, NOW, &jwt);
    assert_eq!(a.status, b.status);
    assert_eq!(a.result.message, b.result.message);
    assert_eq!(a.result.nickname, b.result.nickname);
    assert!(a.claims.is_none() && b.claims.is_none());
}
