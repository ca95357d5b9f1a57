//! JSON web tokens: the claims a login issues, the rules a request's token is
//! checked against, how the token is taken from the `Authorization` header,
//! and what a request is answered after the check.
//!
//! Encoding and decoding a token (serialising the claims, signing, checking
//! the signature and the claims) is done by the service with the
//! `jsonwebtoken` crate, from the values this module computes.

use vstd::prelude::*;
use vstd::utf8::*;
use crate::config::{JwtConfig, JwtConfigView};

verus! {

/// How long an issued token stays valid: one hour, in seconds. Its `exp`
/// claim is the issue time plus this.
pub const TOKEN_LIFETIME_SECS: usize = 3600;

/// Clock skew, in seconds, allowed when a token's `exp` is checked.
pub const TOKEN_LEEWAY_SECS: u64 = 60;

/// HTTP statuses that this service's own rules answer with.
#[derive(Debug, Clone, Copy, PartialEq, Eq, Structural)]
pub enum HttpStatus {
    /// 200
    Success,
    /// 401
    Unauthorized,
}

impl HttpStatus {
    /// The numeric status code.
    pub fn code(&self) -> (r: u16)
        ensures
            r == (match self {
                HttpStatus::Success => 200u16,
                HttpStatus::Unauthorized => 401u16,
            }),
    {
        match self {
            HttpStatus::Success => 200,
            HttpStatus::Unauthorized => 401,
        }
    }
}

/// The claims carried by a token.
#[derive(Debug)]
pub struct Claims {
    /// Audience.
    pub aud: String,
    /// Expiration time, as a UTC timestamp in seconds: the token must be
    /// refused after it.
    pub exp: usize,
    /// Issuer.
    pub iss: String,
    /// Subject.
    pub sub: String,
    /// Account of the logged-in user.
    pub account: String,
}

/// Abstract value of [`Claims`].
pub struct ClaimsView {
    pub aud: Seq<char>,
    pub exp: nat,
    pub iss: Seq<char>,
    pub sub: Seq<char>,
    pub account: Seq<char>,
}

impl View for Claims {
    type V = ClaimsView;

    open spec fn view(&self) -> ClaimsView {
        ClaimsView {
            aud: self.aud@,
            exp: self.exp as nat,
            iss: self.iss@,
            sub: self.sub@,
            account: self.account@,
        }
    }
}

/// The claims of the token issued to `account` at the UTC time `now` (in
/// seconds) under the settings `cfg`.
pub open spec fn issued_claims(account: Seq<char>, now: nat, cfg: JwtConfigView) -> ClaimsView {
    ClaimsView {
        aud: cfg.aud,
        exp: now + (TOKEN_LIFETIME_SECS as nat),
        iss: cfg.iss,
        sub: cfg.sub,
        account: account,
    }
}

/// Builds the claims of the token issued to `account` at the UTC time `now`
/// (in seconds): audience, issuer and subject from the settings, `exp` one
/// hour after `now`, and the account. The expiration time must fit in a
/// `usize`.
pub fn create_token_claims(account: String, now: u64, jwt_config: &JwtConfig) -> (r: Claims)
    requires
        now + TOKEN_LIFETIME_SECS <= usize::MAX,
    ensures
        r@ == issued_claims(account@, now as nat, jwt_config@),
{
    Claims {
        aud: jwt_config.get_aud(),
        exp: now as usize + TOKEN_LIFETIME_SECS,
        iss: jwt_config.get_iss(),
        sub: jwt_config.get_sub(),
        account,
    }
}

/// Signature algorithms that tokens of this service may use.
#[derive(Debug, Clone, Copy, PartialEq, Eq, Structural)]
pub enum SigningAlgorithm {
    /// HMAC with SHA-256.
    HS256,
}

/// What a request's token is checked against: the accepted algorithm, the
/// expected subject, the accepted audiences and issuers, the registered
/// claims that must be present, and how the times are checked (whether `exp`,
/// `nbf` and `aud` are checked, the leeway in seconds, and how many seconds
/// before its `exp` a token is already refused).
#[derive(Debug)]
pub struct TokenValidation {
    pub algorithm: SigningAlgorithm,
    pub leeway: u64,
    pub reject_tokens_expiring_in_less_than: u64,
    pub validate_exp: bool,
    pub validate_nbf: bool,
    pub validate_aud: bool,
    pub subject: Option<String>,
    pub audience: Vec<String>,
    pub issuer: Vec<String>,
    pub required_claims: Vec<String>,
}

/// Abstract value of [`TokenValidation`].
pub struct TokenValidationView {
    pub algorithm: SigningAlgorithm,
    pub leeway: nat,
    pub reject_tokens_expiring_in_less_than: nat,
    pub validate_exp: bool,
    pub validate_nbf: bool,
    pub validate_aud: bool,
    pub subject: Option<Seq<char>>,
    pub audience: Seq<Seq<char>>,
    pub issuer: Seq<Seq<char>>,
    pub required_claims: Seq<Seq<char>>,
}

/// The view of an optional string.
pub open spec fn opt_string_view(s: Option<String>) -> Option<Seq<char>> {
    match s {
        Some(s) => Some(s@),
        None => None,
    }
}

/// The views of a sequence of strings.
pub open spec fn strings_view(v: Seq<String>) -> Seq<Seq<char>> {
    v.map_values(|s: String| s@)
}

impl View for TokenValidation {
    type V = TokenValidationView;

    open spec fn view(&self) -> TokenValidationView {
        TokenValidationView {
            algorithm: self.algorithm,
            leeway: self.leeway as nat,
            reject_tokens_expiring_in_less_than: self.reject_tokens_expiring_in_less_than as nat,
            validate_exp: self.validate_exp,
            validate_nbf: self.validate_nbf,
            validate_aud: self.validate_aud,
            subject: opt_string_view(self.subject),
            audience: strings_view(self.audience@),
            issuer: strings_view(self.issuer@),
            required_claims: strings_view(self.required_claims@),
        }
    }
}

/// The registered claims that every checked token must carry: `exp`, `sub`, `aud`.
pub open spec fn required_claim_names() -> Seq<Seq<char>> {
    seq![seq!['e', 'x', 'p'], seq!['s', 'u', 'b'], seq!['a', 'u', 'd']]
}

/// The rules derived from the settings `cfg`.
pub open spec fn validation_rules(cfg: JwtConfigView) -> TokenValidationView {
    TokenValidationView {
        algorithm: SigningAlgorithm::HS256,
        leeway: TOKEN_LEEWAY_SECS as nat,
        reject_tokens_expiring_in_less_than: 0,
        validate_exp: true,
        validate_nbf: false,
        validate_aud: true,
        subject: Some(cfg.sub),
        audience: seq![cfg.aud],
        issuer: seq![cfg.iss],
        required_claims: required_claim_names(),
    }
}

/// Builds the rules a request's token is checked against: HS256 only, the
/// configured subject, audience and issuer, and `exp`, `sub`, `aud` required;
/// `exp` and `aud` are checked and `nbf` is not, with a leeway of 60 seconds
/// and no early refusal before `exp`.
pub fn token_validation(jwt_config: &JwtConfig) -> (r: TokenValidation)
    ensures
        r@ == validation_rules(jwt_config@),
{
    let mut audience: Vec<String> = Vec::new();
    audience.push(jwt_config.get_aud());
    let mut issuer: Vec<String> = Vec::new();
    issuer.push(jwt_config.get_iss());
    let mut required_claims: Vec<String> = Vec::new();
    let exp = "exp".to_owned();
    let sub = "sub".to_owned();
    let aud = "aud".to_owned();
    proof {
        reveal_strlit("exp");
        reveal_strlit("sub");
        reveal_strlit("aud");
        assert(exp@ =~= seq!['e', 'x', 'p']);
        assert(sub@ =~= seq!['s', 'u', 'b']);
        assert(aud@ =~= seq!['a', 'u', 'd']);
    }
    required_claims.push(exp);
    required_claims.push(sub);
    required_claims.push(aud);
    let r = TokenValidation {
        algorithm: SigningAlgorithm::HS256,
        leeway: TOKEN_LEEWAY_SECS,
        reject_tokens_expiring_in_less_than: 0,
        validate_exp: true,
        validate_nbf: false,
        validate_aud: true,
        subject: Some(jwt_config.get_sub()),
        audience,
        issuer,
        required_claims,
    };
    assert(r@.audience =~= seq![jwt_config@.aud]);
    assert(r@.issuer =~= seq![jwt_config@.iss]);
    assert(r@.required_claims =~= required_claim_names());
    r
}

/// Whether the claims agree with the rules when checked at the UTC time `t`
/// (in seconds): where `exp` is checked, `exp` less the early-refusal margin
/// is not before `t` less the leeway; the audience and the issuer are
/// accepted ones, the subject is the expected one, and every required claim
/// is among those the claims carry.
pub open spec fn claims_agree_with(c: ClaimsView, v: TokenValidationView, t: nat) -> bool {
    &&& v.validate_exp ==> c.exp - v.reject_tokens_expiring_in_less_than >= t - v.leeway
    &&& v.audience.contains(c.aud)
    &&& v.issuer.contains(c.iss)
    &&& (v.subject matches Some(s) ==> s == c.sub)
    &&& forall|i: int| 0 <= i < v.required_claims.len() ==> carried_claim_names().contains(
        #[trigger] v.required_claims[i],
    )
}

/// The registered claims that [`Claims`] always carries.
pub open spec fn carried_claim_names() -> Seq<Seq<char>> {
    seq![seq!['a', 'u', 'd'], seq!['e', 'x', 'p'], seq!['i', 's', 's'], seq!['s', 'u', 'b']]
}

/// Law: the claims issued to any account at the time `now` under some
/// settings agree with the rules derived from the same settings whenever they
/// are checked no later than one hour and the leeway after `now`: not
/// expired, and the audience, issuer, subject and required claims all agree.
pub proof fn lemma_issued_claims_agree_with_rules(
    account: Seq<char>,
    now: nat,
    cfg: JwtConfigView,
    t: nat,
)
    requires
        t <= now + TOKEN_LIFETIME_SECS + TOKEN_LEEWAY_SECS,
    ensures
        claims_agree_with(issued_claims(account, now, cfg), validation_rules(cfg), t),
{
    let c = issued_claims(account, now, cfg);
    let v = validation_rules(cfg);
    assert(v.audience[0] == c.aud);
    assert(v.issuer[0] == c.iss);
    assert forall|i: int| 0 <= i < v.required_claims.len() implies carried_claim_names().contains(
        #[trigger] v.required_claims[i],
    ) by {
        if i == 0 {
            assert(carried_claim_names()[1] == v.required_claims[i]);
        } else if i == 1 {
            assert(carried_claim_names()[3] == v.required_claims[i]);
        } else {
            assert(carried_claim_names()[0] == v.required_claims[i]);
        }
    }
}

/// Whether `b` may stand in HTTP header text: visible ASCII or a tab.
pub open spec fn is_header_text_byte(b: u8) -> bool {
    (32 <= b && b < 127) || b == 9
}

/// Whether every byte of a header value may stand in header text.
pub open spec fn is_header_text(bytes: Seq<u8>) -> bool {
    forall|i: int| 0 <= i < bytes.len() ==> is_header_text_byte(#[trigger] bytes[i])
}

/// Law: claims issued under one setting never agree with the rules of a
/// setting with another audience, issuer or subject, whenever they are checked.
pub proof fn lemma_issued_claims_refused_under_other_settings(
    account: Seq<char>,
    now: nat,
    issuing: JwtConfigView,
    checking: JwtConfigView,
    t: nat,
)
    requires
        issuing.aud != checking.aud || issuing.iss != checking.iss || issuing.sub
            != checking.sub,
    ensures
        !claims_agree_with(issued_claims(account, now, issuing), validation_rules(checking), t),
{
    let c = issued_claims(account, now, issuing);
    let v = validation_rules(checking);
    if v.audience.contains(c.aud) {
        let i = choose|i: int| 0 <= i < v.audience.len() && v.audience[i] == c.aud;
        assert(v.audience[i] == checking.aud);
    }
    if v.issuer.contains(c.iss) {
        let i = choose|i: int| 0 <= i < v.issuer.len() && v.issuer[i] == c.iss;
        assert(v.issuer[i] == checking.iss);
    }
}

/// Law: the claims issued at one time under one setting are determined by
/// the account, and different accounts get different claims.
pub proof fn lemma_issued_claims_determined_by_account(
    a1: Seq<char>,
    a2: Seq<char>,
    now: nat,
    cfg: JwtConfigView,
)
    ensures
        issued_claims(a1, now, cfg) == issued_claims(a2, now, cfg) <==> a1 == a2,
{
    if issued_claims(a1, now, cfg) == issued_claims(a2, now, cfg) {
        assert(issued_claims(a1, now, cfg).account == issued_claims(a2, now, cfg).account);
    }
}

/// Law: a header value is header text exactly when each of its bytes, at
/// any length, is visible ASCII (32 to 126) or a tab (9); so
/// [`auth_header_token`] hands every such value on unchanged and refuses
/// every other.
pub proof fn lemma_header_text_is_visible_ascii_or_tab(bytes: Seq<u8>)
    ensures
        is_header_text(bytes) <==> forall|i: int|
            0 <= i < bytes.len() ==> (32 <= #[trigger] bytes[i] <= 126 || bytes[i] == 9),
{
}

/// Law: the claims issued to `account` at the time `now` carry the
/// settings' audience, issuer and subject and the account, and expire
/// exactly one hour (3600 seconds) after `now`.
pub proof fn lemma_issued_claims_expire_one_hour_after_issue(
    account: Seq<char>,
    now: nat,
    cfg: JwtConfigView,
)
    ensures
        issued_claims(account, now, cfg).exp == now + 3600,
        issued_claims(account, now, cfg).aud == cfg.aud,
        issued_claims(account, now, cfg).iss == cfg.iss,
        issued_claims(account, now, cfg).sub == cfg.sub,
        issued_claims(account, now, cfg).account == account,
{
}

/// Law: the rules check expiry under every setting: claims issued at `now`
/// no longer agree with the rules of the same setting when checked later than
/// one hour and sixty seconds after `now`.
pub proof fn lemma_issued_claims_refused_after_expiry(
    account: Seq<char>,
    now: nat,
    cfg: JwtConfigView,
    t: nat,
)
    requires
        t > now + 3600 + 60,
    ensures
        !claims_agree_with(issued_claims(account, now, cfg), validation_rules(cfg), t),
{
}

/// Law: under every setting the rules accept HS256 only, check `exp` with a
/// leeway of 60 seconds and no early refusal, check `aud` but not `nbf`,
/// expect the setting's subject, accept exactly its audience and issuer, and
/// require `exp`, `sub` and `aud`.
pub proof fn lemma_validation_rules_of_every_setting(cfg: JwtConfigView)
    ensures
        validation_rules(cfg).algorithm == SigningAlgorithm::HS256,
        validation_rules(cfg).validate_exp,
        validation_rules(cfg).leeway == 60,
        validation_rules(cfg).reject_tokens_expiring_in_less_than == 0,
        validation_rules(cfg).validate_aud,
        !validation_rules(cfg).validate_nbf,
        validation_rules(cfg).subject == Some(cfg.sub),
        validation_rules(cfg).audience =~= seq![cfg.aud],
        validation_rules(cfg).issuer =~= seq![cfg.iss],
        validation_rules(cfg).required_claims =~= seq![
            seq!['e', 'x', 'p'],
            seq!['s', 'u', 'b'],
            seq!['a', 'u', 'd'],
        ],
{
}

/// Bytes that are all below 128 form valid UTF-8.
proof fn lemma_ascii_bytes_valid_utf8(bytes: Seq<u8>)
    requires
        forall|i: int| 0 <= i < bytes.len() ==> #[trigger] bytes[i] < 128,
    ensures
        valid_utf8(bytes),
{
    assert(bytes.subrange(0, 0).len() == 0);
    assert(partial_valid_utf8(bytes, 0));
    assert forall|i: int| 0 <= i < bytes.len() implies #[trigger] is_leading_byte_width_1(bytes[i]) by {
        assert(bytes[i] < 128);
    }
    partial_valid_utf8_extend_ascii_block(bytes, 0, bytes.len() as int);
    assert(bytes.subrange(0, bytes.len() as int) =~= bytes);
}

/// `std::str::from_utf8`: the text that `bytes` encode in UTF-8, if they are
/// valid UTF-8. Its documentation promises exactly that: `Ok` for valid UTF-8,
/// with a string slice whose bytes are `bytes`, and `Err` otherwise.
#[verifier::external_body]
fn utf8_text(bytes: &[u8]) -> (r: Option<&str>)
    ensures
        r is Some <==> valid_utf8(bytes@),
        r matches Some(s) ==> encode_utf8(s@) == bytes@,
{
    std::str::from_utf8(bytes).ok()
}

/// Takes the token out of the value of a request's `Authorization` header.
/// A missing header, or one holding a byte that is not header text (visible
/// ASCII or a tab), is answered with 401; otherwise the whole value is the
/// token, unchanged.
pub fn auth_header_token(header: Option<&[u8]>) -> (r: Result<String, HttpStatus>)
    ensures
        match header {
            None => r == Err::<String, HttpStatus>(HttpStatus::Unauthorized),
            Some(h) => if is_header_text(h@) {
                r matches Ok(t) && encode_utf8(t@) == h@
            } else {
                r == Err::<String, HttpStatus>(HttpStatus::Unauthorized)
            },
        },
{
    let h = match header {
        None => return Err(HttpStatus::Unauthorized),
        Some(h) => h,
    };
    let mut i: usize = 0;
    while i < h.len()
        invariant
            header == Some(h),
            0 <= i <= h@.len(),
            forall|j: int| 0 <= j < i ==> is_header_text_byte(#[trigger] h@[j]),
        decreases h@.len() - i,
    {
        let b = h[i];
        if !((32 <= b && b < 127) || b == 9) {
            return Err(HttpStatus::Unauthorized);
        }
        i = i + 1;
    }
    proof {
        assert forall|j: int| 0 <= j < h@.len() implies #[trigger] h@[j] < 128 by {
            assert(is_header_text_byte(h@[j]));
        }
        lemma_ascii_bytes_valid_utf8(h@);
    }
    match utf8_text(h) {
        Some(s) => Ok(s.to_owned()),
        None => Err(HttpStatus::Unauthorized),
    }
}

/// Why a token was refused by the token check.
#[derive(Debug, Clone, Copy, PartialEq, Eq, Structural)]
pub enum TokenRejection {
    /// The token is malformed.
    InvalidToken,
    /// The token names an issuer that is not accepted.
    InvalidIssuer,
    /// Any other refusal (signature, expiry, audience, subject, claims, ...).
    Other,
}

/// What a request is answered after its token was checked: it goes through
/// when the check accepted the token, and every refusal is answered with 401.
pub fn admission(decoded: &Result<Claims, TokenRejection>) -> (r: Result<(), HttpStatus>)
    ensures
        r == (match decoded {
            Ok(_) => Ok::<(), HttpStatus>(()),
            Err(_) => Err::<(), HttpStatus>(HttpStatus::Unauthorized),
        }),
{
    match decoded {
        Ok(_) => Ok(()),
        Err(TokenRejection::InvalidToken) => Err(HttpStatus::Unauthorized),
        Err(TokenRejection::InvalidIssuer) => Err(HttpStatus::Unauthorized),
        Err(_) => Err(HttpStatus::Unauthorized),
    }
}

} // verus!
