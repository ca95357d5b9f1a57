//! Logging in: the account and password a user sends are checked against the
//! one registered account; a successful login is answered with the claims of
//! a new token, a failed one with a refusal.
//!
//! The password check goes through bcrypt: the sent password is hashed with a
//! fresh random salt, and the registered password is then verified against
//! that hash.

use vstd::prelude::*;
use vstd::utf8::*;
use crate::config::{JwtConfig, JwtConfigView};
use crate::password_hash::{bcrypt_hash, bcrypt_verify, SaltUnavailable};
use crate::token::{
    claims_agree_with, create_token_claims, ClaimsView, issued_claims, lemma_issued_claims_agree_with_rules,
    validation_rules, Claims, HttpStatus, TOKEN_LEEWAY_SECS, TOKEN_LIFETIME_SECS,
};

verus! {

/// The only account that can log in.
pub open spec fn registered_account() -> Seq<char> {
    "test111"@
}

/// The password of the registered account.
pub open spec fn registered_password() -> Seq<char> {
    "qwerty"@
}

/// The bytes bcrypt derives its key from: the password, NUL-terminated, and
/// cut after 72 bytes (so a password of 72 bytes or more loses its NUL and
/// everything after its 72nd byte).
pub open spec fn bcrypt_key(password: Seq<u8>) -> Seq<u8> {
    if password.len() < 72 {
        password.push(0u8)
    } else {
        password.take(72)
    }
}

/// What `bcrypt::verify` returns for a password and a hash string: `None`
/// where it returns an error, else whether the password matches the hash.
pub uninterp spec fn bcrypt_verify_outcome(password: Seq<u8>, hash: Seq<char>) -> Option<bool>;

/// What a user sends to log in.
#[derive(Debug)]
pub struct LoginParameter {
    pub account: String,
    pub password: String,
}

/// The message a login is answered with.
#[derive(Debug)]
pub struct LoginResult {
    pub message: String,
    pub nickname: String,
}

/// The answer to a login: the status, the message, and, for a successful
/// login, the claims of the token to hand out.
#[derive(Debug)]
pub struct LoginReply {
    pub status: HttpStatus,
    pub result: LoginResult,
    pub claims: Option<Claims>,
}

/// Abstract value of a [`LoginReply`].
pub struct LoginReplyView {
    pub status: HttpStatus,
    pub message: Seq<char>,
    pub nickname: Seq<char>,
    pub claims: Option<ClaimsView>,
}

impl View for LoginReply {
    type V = LoginReplyView;

    open spec fn view(&self) -> LoginReplyView {
        LoginReplyView {
            status: self.status,
            message: self.result.message@,
            nickname: self.result.nickname@,
            claims: match self.claims {
                Some(c) => Some(c@),
                None => None,
            },
        }
    }
}

/// The hash of the sent password could not be made: bcrypt could not draw a
/// random salt. It holds the failure that the hashing call reported, which
/// nothing but a failed call of `bcrypt::hash` can make, so a login fails only
/// where that call failed.
#[derive(Debug, Clone, Copy)]
pub struct PasswordHashFailure {
    pub cause: SaltUnavailable,
}

impl LoginReply {
    /// A successful login of `account` at the UTC time `now`: status 200,
    /// "Login Success" for the nickname "shandy", and the claims of the token
    /// issued to `account` at `now`.
    pub open spec fn is_granted_to(self, account: Seq<char>, now: nat, cfg: JwtConfigView) -> bool {
        &&& self.status == HttpStatus::Success
        &&& self.result.message@ == "Login Success"@
        &&& self.result.nickname@ == "shandy"@
        &&& self.claims matches Some(c) && c@ == issued_claims(account, now, cfg)
    }

    /// A refused login: status 401, "Account or Password isn't validate", an
    /// empty nickname, and no token.
    pub open spec fn is_refusal(self) -> bool {
        &&& self.status == HttpStatus::Unauthorized
        &&& self.result.message@ == "Account or Password isn't validate"@
        &&& self.result.nickname@ == Seq::<char>::empty()
        &&& self.claims is None
    }
}

/// The answer to a login once the two checks are done: granted to `account`
/// at the time `now` when the account is the registered one and the password
/// was verified, refused otherwise.
pub fn login_reply(
    account: String,
    account_matches: bool,
    password_verified: bool,
    now: u64,
    jwt_config: &JwtConfig,
) -> (r: LoginReply)
    requires
        now + TOKEN_LIFETIME_SECS <= usize::MAX,
    ensures
        account_matches && password_verified ==> r.is_granted_to(account@, now as nat, jwt_config@),
        !(account_matches && password_verified) ==> r.is_refusal(),
{
    if account_matches && password_verified {
        let claims = create_token_claims(account, now, jwt_config);
        LoginReply {
            status: HttpStatus::Success,
            result: LoginResult {
                message: "Login Success".to_owned(),
                nickname: "shandy".to_owned(),
            },
            claims: Some(claims),
        }
    } else {
        LoginReply {
            status: HttpStatus::Unauthorized,
            result: LoginResult {
                message: "Account or Password isn't validate".to_owned(),
                nickname: String::new(),
            },
            claims: None,
        }
    }
}

/// Whether a login of `account` is granted given `hashed`, the bcrypt hash
/// of the sent password: the account is the registered one and bcrypt
/// accepts the registered password against that hash.
pub open spec fn login_accepted(account: Seq<char>, hashed: Seq<char>) -> bool {
    account == registered_account() && bcrypt_verify_outcome(
        encode_utf8(registered_password()),
        hashed,
    ) == Some(true)
}

/// The answer to a login of `account` at the time `now`, given `hashed`, the
/// bcrypt hash of the password that was sent: the registered password is
/// verified against the hash, and the login is granted exactly when the
/// account is the registered one and that verification accepts (an error of
/// the verification counts as a refusal).
pub fn login_with_hash(account: String, hashed: &str, now: u64, jwt_config: &JwtConfig) -> (r:
    LoginReply)
    requires
        now + TOKEN_LIFETIME_SECS <= usize::MAX,
    ensures
        login_accepted(account@, hashed@) ==> r.is_granted_to(account@, now as nat, jwt_config@),
        !login_accepted(account@, hashed@) ==> r.is_refusal(),
{
    let registered = "test111".to_owned();
    if !(account == registered) {
        return login_reply(account, false, false, now, jwt_config);
    }
    let verified = match bcrypt_verify("qwerty".as_bytes(), hashed) {
        Some(v) => v,
        None => false,
    };
    login_reply(account, true, verified, now, jwt_config)
}

/// Handles a login at the UTC time `now` (in seconds). Another account than
/// the registered one is refused without any hashing. For the registered
/// account, the sent password is hashed with bcrypt and a fresh random salt,
/// and [`login_with_hash`] decides with that hash; so the login is granted
/// exactly when bcrypt accepts the registered password against the hash of
/// the sent one. It fails only where the hash could not be made.
pub fn login(payload: LoginParameter, now: u64, jwt_config: &JwtConfig) -> (r: Result<
    LoginReply,
    PasswordHashFailure,
>)
    requires
        now + TOKEN_LIFETIME_SECS <= usize::MAX,
    ensures
        payload.account@ != registered_account() ==> (r matches Ok(reply) && reply.is_refusal()),
        r is Err ==> payload.account@ == registered_account(),
        r matches Ok(reply) ==> reply.is_granted_to(payload.account@, now as nat, jwt_config@)
            || reply.is_refusal(),
        r matches Ok(reply) && reply.is_granted_to(payload.account@, now as nat, jwt_config@)
            ==> payload.account@ == registered_account(),
        r matches Ok(reply) ==> (payload.account@ == registered_account() ==> exists|h: Seq<char>|
            #![trigger bcrypt_verify_outcome(encode_utf8(registered_password()), h)]
            (forall|p: Seq<u8>|
                bcrypt_key(p) == bcrypt_key(encode_utf8(payload.password@))
                    ==> #[trigger] bcrypt_verify_outcome(p, h) == Some(true)) && (
            reply.is_granted_to(payload.account@, now as nat, jwt_config@) <==> bcrypt_verify_outcome(
                encode_utf8(registered_password()),
                h,
            ) == Some(true))),
        payload.account@ == registered_account() && bcrypt_key(encode_utf8(payload.password@))
            == bcrypt_key(encode_utf8(registered_password())) ==> (r matches Ok(reply)
            ==> reply.is_granted_to(payload.account@, now as nat, jwt_config@)),
{
    let registered = "test111".to_owned();
    if !(payload.account == registered) {
        return Ok(login_reply(payload.account, false, false, now, jwt_config));
    }
    let hashed = match bcrypt_hash(payload.password.as_str().as_bytes()) {
        Ok(h) => h,
        Err(cause) => return Err(PasswordHashFailure { cause }),
    };
    let ghost account = payload.account@;
    let reply = login_with_hash(payload.account, hashed.as_str(), now, jwt_config);
    proof {
        let h = hashed@;
        assert(reply.is_granted_to(account, now as nat, jwt_config@) <==> bcrypt_verify_outcome(
            encode_utf8(registered_password()),
            h,
        ) == Some(true));
    }
    Ok(reply)
}

/// Law: a login is accepted exactly when the account is "test111" and bcrypt
/// accepts the password "qwerty" against the hash of the sent password.
pub proof fn lemma_login_accepted_means_test111_and_qwerty(account: Seq<char>, hashed: Seq<char>)
    ensures
        login_accepted(account, hashed) <==> (account =~= seq!['t', 'e', 's', 't', '1', '1', '1']
            && bcrypt_verify_outcome(encode_utf8(seq!['q', 'w', 'e', 'r', 't', 'y']), hashed) == Some(true)),
{
    reveal_strlit("test111");
    reveal_strlit("qwerty");
    assert(registered_account() =~= seq!['t', 'e', 's', 't', '1', '1', '1']);
    assert(registered_password() =~= seq!['q', 'w', 'e', 'r', 't', 'y']);
}

/// Law: a granted login answers 200 with "Login Success" for "shandy" and
/// the claims of the account's token, expiring one hour after the login; a
/// refused one answers 401 with "Account or Password isn't validate", an empty
/// nickname and no claims; no answer is both.
pub proof fn lemma_grant_and_refusal_answers(
    r: LoginReply,
    account: Seq<char>,
    now: nat,
    cfg: JwtConfigView,
)
    ensures
        r.is_granted_to(account, now, cfg) ==> {
            &&& r.status == HttpStatus::Success
            &&& r.result.message@ =~= seq!['L', 'o', 'g', 'i', 'n', ' ', 'S', 'u', 'c', 'c', 'e', 's', 's']
            &&& r.result.nickname@ =~= seq!['s', 'h', 'a', 'n', 'd', 'y']
            &&& r.claims matches Some(c) && c.account@ == account && c.exp == now + 3600
        },
        r.is_refusal() ==> {
            &&& r.status == HttpStatus::Unauthorized
            &&& r.result.message@ =~= seq!['A', 'c', 'c', 'o', 'u', 'n', 't', ' ', 'o', 'r', ' ', 'P', 'a', 's', 's', 'w', 'o', 'r', 'd', ' ', 'i', 's', 'n', '\'', 't', ' ', 'v', 'a', 'l', 'i', 'd', 'a', 't', 'e']
            &&& r.result.nickname@.len() == 0
            &&& r.claims is None
        },
        !(r.is_granted_to(account, now, cfg) && r.is_refusal()),
{
    reveal_strlit("Login Success");
    reveal_strlit("shandy");
    reveal_strlit("Account or Password isn't validate");
}

/// Law: bcrypt's key keeps every password shorter than 72 bytes apart from
/// every other such password, and makes two passwords of 72 bytes or more the
/// same exactly when their first 72 bytes are.
pub proof fn lemma_bcrypt_key_separates_short_and_cuts_long(p: Seq<u8>, q: Seq<u8>)
    ensures
        p.len() < 72 && q.len() < 72 ==> (bcrypt_key(p) == bcrypt_key(q) <==> p == q),
        p.len() >= 72 && q.len() >= 72 ==> (bcrypt_key(p) == bcrypt_key(q) <==> p.take(72)
            == q.take(72)),
{
    if p.len() < 72 && q.len() < 72 && bcrypt_key(p) == bcrypt_key(q) {
        assert(bcrypt_key(p) == p.push(0u8));
        assert(bcrypt_key(q) == q.push(0u8));
        assert(p.push(0u8).len() == q.push(0u8).len());
        assert forall|i: int| 0 <= i < p.len() implies p[i] == q[i] by {
            assert(p.push(0u8)[i] == q.push(0u8)[i]);
        }
        assert(p =~= q);
    }
}

/// Law: the answer to a login reveals nothing of what was sent but whether
/// it was accepted. Two answers given by [`login_with_hash`] at the same time
/// under the same settings are equal whenever both logins were accepted or
/// both were not, whatever the accounts and hashes.
pub proof fn lemma_login_reply_reveals_only_acceptance(
    a1: Seq<char>,
    h1: Seq<char>,
    r1: LoginReply,
    a2: Seq<char>,
    h2: Seq<char>,
    r2: LoginReply,
    now: nat,
    cfg: JwtConfigView,
)
    requires
        login_accepted(a1, h1) ==> r1.is_granted_to(a1, now, cfg),
        !login_accepted(a1, h1) ==> r1.is_refusal(),
        login_accepted(a2, h2) ==> r2.is_granted_to(a2, now, cfg),
        !login_accepted(a2, h2) ==> r2.is_refusal(),
        login_accepted(a1, h1) == login_accepted(a2, h2),
    ensures
        r1@ == r2@,
{
}

/// Law: the token claims of a granted login at the time `now` agree with the
/// rules that a request's token is checked against under the same settings,
/// whenever the check happens no later than one hour and the leeway after
/// `now`.
pub proof fn lemma_granted_login_claims_agree_with_rules(
    reply: LoginReply,
    account: Seq<char>,
    now: nat,
    cfg: JwtConfigView,
    t: nat,
)
    requires
        reply.is_granted_to(account, now, cfg),
        t <= now + TOKEN_LIFETIME_SECS + TOKEN_LEEWAY_SECS,
    ensures
        reply.claims matches Some(c) && claims_agree_with(c@, validation_rules(cfg), t),
{
    lemma_issued_claims_agree_with_rules(account, now, cfg, t);
}

} // verus!
