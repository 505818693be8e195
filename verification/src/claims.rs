//! Identity tokens: the claims that they make, how they are signed and how they are verified.
use crate::config::Config;
use crate::fresh;
use crate::json;
use crate::reply;
use crate::reply::ErrorResponse;
use crate::text;
use base64::engine::general_purpose::URL_SAFE_NO_PAD;
use base64::Engine;
use jsonwebtoken::{Algorithm, DecodingKey, EncodingKey, Header, Validation};
use serde::de::IgnoredAny;
use serde_json::Value;
use vstd::prelude::*;
use vstd::string::StringExecFns;

verus! {

/// The claims of an identity token.
#[derive(Debug)]
pub struct IdTokenClaims {
    /// Who issued the token.
    pub iss: String,
    /// For whom the token is.
    pub aud: String,
    /// Whom the token is about.
    pub sub: String,
    /// The second at which the token was issued.
    pub iat: i64,
    /// The second at which the token expires.
    pub exp: i64,
    /// The identifier of the token.
    pub jti: String,
}

/// [`IdTokenClaims`] as a mathematical value.
pub struct IdTokenClaimsView {
    pub iss: Seq<char>,
    pub aud: Seq<char>,
    pub sub: Seq<char>,
    pub iat: i64,
    pub exp: i64,
    pub jti: Seq<char>,
}

impl View for IdTokenClaims {
    type V = IdTokenClaimsView;

    open spec fn view(&self) -> IdTokenClaimsView {
        IdTokenClaimsView {
            iss: self.iss@,
            aud: self.aud@,
            sub: self.sub@,
            iat: self.iat,
            exp: self.exp,
            jti: self.jti@,
        }
    }
}

/// What a payload says of one claim.
#[derive(Debug)]
pub enum ClaimValue {
    /// A string.
    Text(String),
    /// An integer.
    Integer(i64),
}

/// A [`ClaimValue`] as a mathematical value.
pub enum ClaimView {
    Text(Seq<char>),
    Integer(i64),
}

impl View for ClaimValue {
    type V = ClaimView;

    open spec fn view(&self) -> ClaimView {
        match *self {
            ClaimValue::Text(s) => ClaimView::Text(s@),
            ClaimValue::Integer(n) => ClaimView::Integer(n),
        }
    }
}

/// The members of a payload: the claims by name, in the order in which they are written.
pub open spec fn members(payload: Seq<(String, ClaimValue)>) -> Seq<(Seq<char>, ClaimView)> {
    payload.map_values(|member: (String, ClaimValue)| (member.0@, member.1@))
}

/// Whether no two of the members share a name.
pub open spec fn are_distinct(payload: Seq<(Seq<char>, ClaimView)>) -> bool {
    forall|i: int, j: int|
        0 <= i < j < payload.len() ==> (#[trigger] payload[i]).0 != (#[trigger] payload[j]).0
}

/// The claims of an identity token among the members of a JSON object, if each of the six is there
/// once, with the right type.
pub open spec fn claims_among(members: Seq<(Seq<char>, Seq<u8>)>) -> Option<IdTokenClaimsView> {
    match (
        json::only_string(members, "iss"@),
        json::only_string(members, "aud"@),
        json::only_string(members, "sub"@),
        json::only_integer(members, "iat"@),
        json::only_integer(members, "exp"@),
        json::only_string(members, "jti"@),
    ) {
        (Some(iss), Some(aud), Some(sub), Some(iat), Some(exp), Some(jti)) => Some(
            IdTokenClaimsView { iss, aud, sub, iat, exp, jti },
        ),
        _ => None,
    }
}

/// The claims of an identity token in a JSON object.
pub open spec fn claims_in(bytes: Seq<u8>) -> Option<IdTokenClaimsView> {
    match json::object_members(bytes) {
        Some(members) => claims_among(members),
        None => None,
    }
}

/// What `base64::engine::general_purpose::URL_SAFE_NO_PAD` decodes `text` to, if it is an encoding.
pub uninterp spec fn base64_bytes(text: Seq<char>) -> Option<Seq<u8>>;

/// The payload of a token: what stands between the last two dots, decoded.
pub open spec fn payload_bytes(token: Seq<char>) -> Option<Seq<u8>> {
    match text::around_last(token, '.') {
        Some((message, _)) => match text::around_last(message, '.') {
            Some((_, payload)) => base64_bytes(payload),
            None => None,
        },
        None => None,
    }
}

/// The claims of an identity token in the payload of a token.
pub open spec fn token_claims(token: Seq<char>) -> Option<IdTokenClaimsView> {
    match payload_bytes(token) {
        Some(bytes) => claims_in(bytes),
        None => None,
    }
}

/// The members that the payload of an identity token with these claims has.
pub open spec fn id_token_members(claims: IdTokenClaimsView) -> Seq<(Seq<char>, ClaimView)> {
    seq![
        ("iss"@, ClaimView::Text(claims.iss)),
        ("aud"@, ClaimView::Text(claims.aud)),
        ("sub"@, ClaimView::Text(claims.sub)),
        ("iat"@, ClaimView::Integer(claims.iat)),
        ("exp"@, ClaimView::Integer(claims.exp)),
        ("jti"@, ClaimView::Text(claims.jti)),
    ]
}

/// For how many seconds after its expiry a token is still taken.
pub const LEEWAY_SECONDS: u64 = 60;

/// Whether a token with these claims is taken at the second `now` by someone who trusts
/// `issuer` and answers to `audience`. Nothing is taken in the first seconds of the epoch, from
/// which the leeway cannot be subtracted.
pub open spec fn is_acceptable(
    claims: IdTokenClaimsView,
    issuer: Seq<char>,
    audience: Seq<char>,
    now: u64,
) -> bool {
    &&& claims.iss == issuer
    &&& claims.aud == audience
    &&& 0 <= claims.exp
    &&& LEEWAY_SECONDS <= now <= claims.exp + LEEWAY_SECONDS
}

/// The token that `jsonwebtoken::encode` makes of a payload with these members and the
/// secret, with HMAC-SHA256, or the text of its error.
pub uninterp spec fn hs256_token(
    payload: Seq<(Seq<char>, ClaimView)>,
    secret: Seq<char>,
) -> Result<Seq<char>, Seq<char>>;

/// The text of the error with which `jsonwebtoken::decode` refuses a token at the second `now`, if
/// it does: it takes one that is signed with the secret by HMAC-SHA256, has not expired, is from
/// `issuer` where it says from whom, and for `audience` where it says for whom.
pub uninterp spec fn hs256_refusal(
    token: Seq<char>,
    secret: Seq<char>,
    issuer: Seq<char>,
    audience: Seq<char>,
    now: u64,
) -> Option<Seq<char>>;

/// Whether `token` says that it is signed by HMAC-SHA256 and ends in the signature that
/// `jsonwebtoken::crypto::sign` makes with `secret` of what stands before it.
pub uninterp spec fn hs256_signed(token: Seq<char>, secret: Seq<char>) -> bool;

/// A text, as a mathematical value.
pub open spec fn optional_text(r: Option<String>) -> Option<Seq<char>> {
    match r {
        Some(s) => Some(s@),
        None => None,
    }
}

/// Whether the JSON value that stands first in `bytes` reads as `value`.
pub open spec fn reads_as(bytes: Seq<u8>, value: ClaimView) -> bool {
    match value {
        ClaimView::Text(s) => json::first_string(bytes) matches Some((read, _)) && read == s,
        ClaimView::Integer(n) => json::first_integer(bytes) == Some(n),
    }
}

/// Whether the payload of `token` is a JSON object that has exactly these members, in their order.
pub open spec fn carries(token: Seq<char>, payload: Seq<(Seq<char>, ClaimView)>) -> bool {
    &&& payload_bytes(token) is Some
    &&& json::object_members(payload_bytes(token)->0) matches Some(read) && {
        &&& read.len() == payload.len()
        &&& forall|i: int|
            0 <= i < payload.len() ==> (#[trigger] read[i]).0 == payload[i].0 && reads_as(
                read[i].1,
                payload[i].1,
            )
    }
}

/// Whether no other payload is made into `token`, with whatever secret.
pub open spec fn stands_for(token: Seq<char>, payload: Seq<(Seq<char>, ClaimView)>) -> bool {
    forall|other: Seq<(Seq<char>, ClaimView)>, secret: Seq<char>|
        are_distinct(other) && (#[trigger] hs256_token(other, secret) matches Ok(made) && made
            == token) ==> other == payload
}

/// Calls `jsonwebtoken::encode` with the header of HMAC-SHA256, a JSON object with the
/// members of `payload` in their order, and a key made of `secret`. It always gives a token:
/// of the ways in which `encode` fails, none is open to a JSON object with an HMAC key and an
/// HMAC algorithm. The object stands in the token, encoded in Base64, and is read back from it as
/// it was written; so no other payload is made into the same token. The token is signed with
/// `secret`. Verified by `jsonwebtoken::decode` with any secret, an identity token is taken
/// exactly where it is signed with that secret and [`is_acceptable`] says so.
#[verifier::external_body]
pub(crate) fn sign(payload: &Vec<(String, ClaimValue)>, secret: &str) -> (r: Result<String, String>)
    requires
        are_distinct(members(payload@)),
    ensures
        text::text_result(r) == hs256_token(members(payload@), secret@),
        r is Ok,
        r matches Ok(token) ==> carries(token@, members(payload@)),
        r matches Ok(token) ==> stands_for(token@, members(payload@)),
        r matches Ok(token) ==> hs256_signed(token@, secret@),
        r matches Ok(token) ==> forall|
            claims: IdTokenClaimsView,
            other_secret: Seq<char>,
            issuer: Seq<char>,
            audience: Seq<char>,
            now: u64,
        |
            #![trigger id_token_members(claims), hs256_refusal(token@, other_secret, issuer, audience, now)]
            members(payload@) == id_token_members(claims) ==> (hs256_refusal(
                token@,
                other_secret,
                issuer,
                audience,
                now,
            ) is None <==> hs256_signed(token@, other_secret) && is_acceptable(
                claims,
                issuer,
                audience,
                now,
            )),
{
    let mut object = serde_json::Map::new();
    for (name, value) in payload {
        let value = match value {
            ClaimValue::Text(s) => Value::String(s.clone()),
            ClaimValue::Integer(n) => Value::from(*n),
        };
        object.insert(name.clone(), value);
    }
    let key = EncodingKey::from_secret(secret.as_bytes());
    jsonwebtoken::encode(&Header::new(Algorithm::HS256), &object, &key).map_err(|e| e.to_string())
}

/// Whether a token can be judged so at `now`: the clock showed that second, and unless the token is
/// refused, the claims of an identity token that it makes are acceptable then.
pub open spec fn is_judged_at(
    refusal: Option<Seq<char>>,
    token: Seq<char>,
    issuer: Seq<char>,
    audience: Seq<char>,
    now: u64,
) -> bool {
    &&& fresh::is_clock_second(now)
    &&& refusal is None ==> (token_claims(token) matches Some(claims) ==> is_acceptable(
        claims,
        issuer,
        audience,
        now,
    ))
}

/// Calls `jsonwebtoken::decode` for HMAC-SHA256 with a key made of `secret`, for tokens from
/// `issuer` to `audience` that have not expired, whatever else they claim: the text of the error,
/// if it refuses the token. That depends on the arguments and on the second that it reads from
/// the clock, which is the clock that is read elsewhere, set to a time within the calendar of
/// `chrono`; it does not return where the clock is set to a time before the epoch, nor, if
/// overflow is checked, in the first seconds after it. A token that it takes is signed with the
/// secret, and if it makes the six claims of an identity token, they are acceptable at that
/// second.
#[verifier::external_body]
pub(crate) fn verify(token: &str, secret: &str, issuer: &str, audience: &str) -> (r: Option<String>)
    ensures
        exists|now: u64|
            {
                &&& optional_text(r) == #[trigger] hs256_refusal(
                    token@,
                    secret@,
                    issuer@,
                    audience@,
                    now,
                )
                &&& is_judged_at(optional_text(r), token@, issuer@, audience@, now)
            },
        r is None ==> hs256_signed(token@, secret@),
{
    let mut validation = Validation::new(Algorithm::HS256);
    validation.validate_exp = true;
    validation.set_issuer(&[issuer]);
    validation.set_audience(&[audience]);
    let key = DecodingKey::from_secret(secret.as_bytes());
    let decoded = jsonwebtoken::decode::<IgnoredAny>(token, &key, &validation);
    decoded.err().map(|e| e.to_string())
}

/// Calls `decode` of `base64::engine::general_purpose::URL_SAFE_NO_PAD`, by which the parts of a
/// token are encoded: the bytes, if `text` is an encoding.
#[verifier::external_body]
fn decode_base64(text: &str) -> (r: Option<Vec<u8>>)
    ensures
        match r {
            Some(bytes) => base64_bytes(text@) == Some(bytes@),
            None => base64_bytes(text@) is None,
        },
{
    URL_SAFE_NO_PAD.decode(text).ok()
}

/// The answer to what signing gave: the token, or a refusal with the text of the error.
pub open spec fn encoding_answer(signed: Result<Seq<char>, Seq<char>>) -> Result<
    Seq<char>,
    (u16, reply::ErrorResponseView),
> {
    match signed {
        Ok(token) => Ok(token),
        Err(e) => Err(
            reply::refusal(
                reply::INTERNAL_SERVER_ERROR,
                "server_error"@,
                "failed to encode id_token: "@ + e,
            ),
        ),
    }
}

/// A token or a refusal, as mathematical values.
pub open spec fn token_result(r: Result<String, (u16, ErrorResponse)>) -> Result<
    Seq<char>,
    (u16, reply::ErrorResponseView),
> {
    match r {
        Ok(token) => Ok(token@),
        Err((status, body)) => Err((status, body@)),
    }
}

/// Makes the answer to what signing gave.
pub fn answer_encoding(signed: Result<String, String>) -> (r: Result<String, (u16, ErrorResponse)>)
    ensures
        token_result(r) == encoding_answer(text::text_result(signed)),
{
    match signed {
        Ok(token) => Ok(token),
        Err(e) => {
            let message: String = "failed to encode id_token: ".to_owned();
            Err(
                reply::error_response(
                    reply::INTERNAL_SERVER_ERROR,
                    "server_error",
                    message.concat(e.as_str()),
                ),
            )
        },
    }
}

/// The claims of the identity tokens that the service issues.
pub open spec fn issued_claims(
    config: &Config,
    sub: Seq<char>,
    iat: i64,
    exp: i64,
    jti: Seq<char>,
) -> IdTokenClaimsView {
    IdTokenClaimsView { iss: config.issuer@, aud: config.audience@, sub, iat, exp, jti }
}

/// The identity token that the service issues with these claims, or the text of the error.
pub open spec fn issued_token(config: &Config, claims: IdTokenClaimsView) -> Result<
    Seq<char>,
    Seq<char>,
> {
    hs256_token(id_token_members(claims), config.signing_secret@)
}

fn payload_of(claims: IdTokenClaims) -> (payload: Vec<(String, ClaimValue)>)
    ensures
        members(payload@) == id_token_members(claims@),
{
    let payload = vec![
        ("iss".to_owned(), ClaimValue::Text(claims.iss)),
        ("aud".to_owned(), ClaimValue::Text(claims.aud)),
        ("sub".to_owned(), ClaimValue::Text(claims.sub)),
        ("iat".to_owned(), ClaimValue::Integer(claims.iat)),
        ("exp".to_owned(), ClaimValue::Integer(claims.exp)),
        ("jti".to_owned(), ClaimValue::Text(claims.jti)),
    ];
    assert(members(payload@) =~= id_token_members(claims@));
    payload
}

/// The names of the members of an identity token are distinct.
proof fn names_are_distinct()
    ensures
        "iss"@ != "aud"@,
        "iss"@ != "sub"@,
        "iss"@ != "iat"@,
        "iss"@ != "exp"@,
        "iss"@ != "jti"@,
        "aud"@ != "sub"@,
        "aud"@ != "iat"@,
        "aud"@ != "exp"@,
        "aud"@ != "jti"@,
        "sub"@ != "iat"@,
        "sub"@ != "exp"@,
        "sub"@ != "jti"@,
        "iat"@ != "exp"@,
        "iat"@ != "jti"@,
        "exp"@ != "jti"@,
{
    reveal_strlit("iss");
    reveal_strlit("aud");
    reveal_strlit("sub");
    reveal_strlit("iat");
    reveal_strlit("exp");
    reveal_strlit("jti");
    assert("iss"@[0] == 'i' && "iss"@[1] == 's');
    assert("aud"@[0] == 'a');
    assert("sub"@[0] == 's');
    assert("iat"@[0] == 'i' && "iat"@[1] == 'a');
    assert("exp"@[0] == 'e');
    assert("jti"@[0] == 'j');
}

/// A token that carries the members of an identity token makes the claims that they are made of.
pub proof fn members_claim_what_they_are_made_of(token: Seq<char>, claims: IdTokenClaimsView)
    requires
        carries(token, id_token_members(claims)),
    ensures
        token_claims(token) == Some(claims),
{
    names_are_distinct();
    let members = id_token_members(claims);
    let read = json::object_members(payload_bytes(token)->0)->0;
    assert forall|i: int| 0 <= i < 6 implies json::is_only(read, #[trigger] members[i].0, i) by {
        assert(read[i].0 == members[i].0);
        assert forall|j: int| 0 <= j < read.len() && j != i implies (#[trigger] read[j]).0
            != members[i].0 by {
            assert(read[j].0 == members[j].0);
        }
    }
    assert forall|i: int| 0 <= i < 6 implies json::only_value(read, #[trigger] members[i].0) == Some(
        read[i].1,
    ) by {
        json::only_value_is(read, members[i].0, i);
    }
    assert(members[0].0 == "iss"@ && members[1].0 == "aud"@ && members[2].0 == "sub"@);
    assert(members[3].0 == "iat"@ && members[4].0 == "exp"@ && members[5].0 == "jti"@);
    assert forall|i: int| 0 <= i < 6 implies reads_as(read[i].1, #[trigger] members[i].1) by {
        assert(read[i].0 == members[i].0);
    }
    assert(reads_as(read[0].1, members[0].1) && reads_as(read[1].1, members[1].1));
    assert(reads_as(read[2].1, members[2].1) && reads_as(read[3].1, members[3].1));
    assert(reads_as(read[4].1, members[4].1) && reads_as(read[5].1, members[5].1));
}

/// Payloads of identity tokens have the same members only if they make the same claims.
proof fn members_tell_claims(claims: IdTokenClaimsView, other: IdTokenClaimsView)
    requires
        id_token_members(claims) == id_token_members(other),
    ensures
        claims == other,
{
    let (a, b) = (id_token_members(claims), id_token_members(other));
    assert(a[0].1 == b[0].1 && a[1].1 == b[1].1 && a[2].1 == b[2].1);
    assert(a[3].1 == b[3].1 && a[4].1 == b[4].1 && a[5].1 == b[5].1);
}

/// Whether `token` is signed with the secret of `config`, makes these claims of an identity token
/// and stands for no others, and is taken by whoever verifies it, with any secret, exactly where
/// it is signed with that secret and the claims are acceptable.
pub open spec fn is_token_of(config: &Config, token: Seq<char>, claims: IdTokenClaimsView) -> bool {
    &&& !text::is_blank(token)
    &&& hs256_signed(token, config.signing_secret@)
    &&& token_claims(token) == Some(claims)
    &&& forall|secret: Seq<char>, issuer: Seq<char>, audience: Seq<char>, now: u64| #[trigger]
        hs256_refusal(token, secret, issuer, audience, now) is None <==> hs256_signed(token, secret)
            && is_acceptable(claims, issuer, audience, now)
    &&& forall|other: IdTokenClaimsView, secret: Seq<char>|
        (#[trigger] hs256_token(id_token_members(other), secret) matches Ok(made) && made == token)
            ==> other == claims
}

/// The identity token about `sub` that is issued at `iat` for the time until `exp`, under the
/// identifier `jti`.
pub fn build_id_token_with(
    config: &Config,
    sub: String,
    iat: i64,
    exp: i64,
    jti: String,
) -> (r: Result<String, (u16, ErrorResponse)>)
    ensures
        token_result(r) == encoding_answer(
            issued_token(config, issued_claims(config, sub@, iat, exp, jti@)),
        ),
        r matches Ok(token) && is_token_of(
            config,
            token@,
            issued_claims(config, sub@, iat, exp, jti@),
        ),
        r matches Ok(token) && hs256_signed(token@, config.signing_secret@) && token_claims(token@)
            == Some(
            IdTokenClaimsView {
                iss: config.issuer@,
                aud: config.audience@,
                sub: sub@,
                iat,
                exp,
                jti: jti@,
            },
        ),
{
    let claims = IdTokenClaims {
        iss: config.issuer.clone(),
        aud: config.audience.clone(),
        sub,
        iat,
        exp,
        jti,
    };
    let ghost made_of = claims@;
    let payload = payload_of(claims);
    proof {
        names_are_distinct();
        assert(are_distinct(members(payload@)));
    }
    let signed = sign(&payload, config.signing_secret.as_str());
    proof {
        let token = signed->Ok_0@;
        members_claim_what_they_are_made_of(token, made_of);
        text::blank_iff_all_white_space(token);
        text::around_last_needs_one(token, '.');
        assert forall|other: IdTokenClaimsView, secret: Seq<char>|
            (#[trigger] hs256_token(id_token_members(other), secret) matches Ok(made) && made
                == token) implies other == made_of by {
            assert(are_distinct(id_token_members(other)));
            members_tell_claims(other, made_of);
        }
    }
    answer_encoding(signed)
}

/// The identity token about `sub` that is issued at `iat` for the time until `exp`, under a
/// new identifier.
pub fn build_id_token(config: &Config, sub: String, iat: i64, exp: i64) -> (r: Result<
    String,
    (u16, ErrorResponse),
>)
    ensures
        exists|jti: Seq<char>|
            {
                &&& fresh::is_uuid_v4(jti)
                &&& fresh::is_drawn(jti)
                &&& token_result(r) == encoding_answer(
                    issued_token(config, #[trigger] issued_claims(config, sub@, iat, exp, jti)),
                )
                &&& r matches Ok(token) && is_token_of(
                    config,
                    token@,
                    issued_claims(config, sub@, iat, exp, jti),
                )
            },
        r matches Ok(token) && hs256_signed(token@, config.signing_secret@) && {
            &&& token_claims(token@) matches Some(made) && {
                &&& made.iss == config.issuer@
                &&& made.aud == config.audience@
                &&& made.sub == sub@
                &&& made.iat == iat
                &&& made.exp == exp
                &&& fresh::is_drawn(made.jti)
            }
        },
{
    let jti = fresh::draw_uuid();
    build_id_token_with(config, sub, iat, exp, jti)
}

/// An optional set of claims, as mathematical values.
pub open spec fn optional_claims(claims: Option<IdTokenClaims>) -> Option<IdTokenClaimsView> {
    match claims {
        Some(claims) => Some(claims@),
        None => None,
    }
}

/// Reads the claims of an identity token from a JSON object. There are none where one of the six
/// is missing, there more than once or of the wrong type.
pub fn claims_of(bytes: &Vec<u8>) -> (r: Option<IdTokenClaims>)
    ensures
        optional_claims(r) == claims_in(bytes@),
{
    let members = match json::read_members(bytes) {
        Some(members) => members,
        None => {
            return None;
        },
    };
    match (
        json::find_string(bytes, &members, "iss"),
        json::find_string(bytes, &members, "aud"),
        json::find_string(bytes, &members, "sub"),
        json::find_integer(bytes, &members, "iat"),
        json::find_integer(bytes, &members, "exp"),
        json::find_string(bytes, &members, "jti"),
    ) {
        (Some(iss), Some(aud), Some(sub), Some(iat), Some(exp), Some(jti)) => Some(
            IdTokenClaims { iss, aud, sub, iat, exp, jti },
        ),
        _ => None,
    }
}

/// Reads the claims of an identity token from the payload of a token.
pub fn read_token(token: &str) -> (r: Option<IdTokenClaims>)
    ensures
        optional_claims(r) == token_claims(token@),
{
    match text::split_at_last(token, '.') {
        Some((message, _)) => match text::split_at_last(message, '.') {
            Some((_, payload)) => match decode_base64(payload) {
                Some(bytes) => claims_of(&bytes),
                None => None,
            },
            None => None,
        },
        None => None,
    }
}

/// A token that signing gave is answered as it is, and a failure with its own words.
pub proof fn signing_is_answered(token: Seq<char>, error: Seq<char>)
    ensures
        encoding_answer(Ok(token)) == Ok::<Seq<char>, (u16, reply::ErrorResponseView)>(token),
        encoding_answer(Err(error)) matches Err((status, body)) && status == 500 && body.error
            == "server_error"@ && body.message == "failed to encode id_token: "@ + error,
{
}

/// Claims are taken with all that they hold.
pub proof fn claims_are_taken_whole(claims: IdTokenClaims)
    ensures
        claims@.iss == claims.iss@,
        claims@.aud == claims.aud@,
        claims@.sub == claims.sub@,
        claims@.iat == claims.iat,
        claims@.exp == claims.exp,
        claims@.jti == claims.jti@,
        optional_claims(Some(claims)) == Some(claims@),
        optional_claims(None) is None,
{
}

/// The claims that are found in an object are those that its members make, whichever member of a
/// name is asked: there is just one for each.
pub proof fn claims_are_those_of_the_members(
    members: Seq<(Seq<char>, Seq<u8>)>,
    claims: IdTokenClaimsView,
    i: int,
)
    requires
        claims_among(members) == Some(claims),
        0 <= i < members.len(),
    ensures
        members[i].0 == "iss"@ ==> reads_as(members[i].1, ClaimView::Text(claims.iss)),
        members[i].0 == "aud"@ ==> reads_as(members[i].1, ClaimView::Text(claims.aud)),
        members[i].0 == "sub"@ ==> reads_as(members[i].1, ClaimView::Text(claims.sub)),
        members[i].0 == "iat"@ ==> reads_as(members[i].1, ClaimView::Integer(claims.iat)),
        members[i].0 == "exp"@ ==> reads_as(members[i].1, ClaimView::Integer(claims.exp)),
        members[i].0 == "jti"@ ==> reads_as(members[i].1, ClaimView::Text(claims.jti)),
        json::is_only(members, members[i].0, i) || (members[i].0 != "iss"@ && members[i].0 != "aud"@
            && members[i].0 != "sub"@ && members[i].0 != "iat"@ && members[i].0 != "exp"@
            && members[i].0 != "jti"@),
{
    json::only_value_is_of(members, members[i].0, i);
}

/// Claims are found wherever each of the six names has one member, of the right type, whatever other
/// members there are.
pub proof fn claims_are_found_where_they_are(
    members: Seq<(Seq<char>, Seq<u8>)>,
    claims: IdTokenClaimsView,
    at: Seq<int>,
)
    requires
        at.len() == 6,
        forall|k: int|
            0 <= k < 6 ==> json::is_only(members, id_token_members(claims)[k].0, #[trigger] at[k])
                && reads_as(members[at[k]].1, id_token_members(claims)[k].1),
    ensures
        claims_among(members) == Some(claims),
{
    let wanted = id_token_members(claims);
    json::only_value_is(members, wanted[0].0, at[0]);
    json::only_value_is(members, wanted[1].0, at[1]);
    json::only_value_is(members, wanted[2].0, at[2]);
    json::only_value_is(members, wanted[3].0, at[3]);
    json::only_value_is(members, wanted[4].0, at[4]);
    json::only_value_is(members, wanted[5].0, at[5]);
}

/// The payload of an identity token has six members, named after its claims and holding them.
pub proof fn payload_has_the_six_claims(claims: IdTokenClaimsView)
    ensures
        id_token_members(claims).len() == 6,
        id_token_members(claims)[0] == ("iss"@, ClaimView::Text(claims.iss)),
        id_token_members(claims)[1] == ("aud"@, ClaimView::Text(claims.aud)),
        id_token_members(claims)[2] == ("sub"@, ClaimView::Text(claims.sub)),
        id_token_members(claims)[3] == ("iat"@, ClaimView::Integer(claims.iat)),
        id_token_members(claims)[4] == ("exp"@, ClaimView::Integer(claims.exp)),
        id_token_members(claims)[5] == ("jti"@, ClaimView::Text(claims.jti)),
{
}

/// The payload of a token is what its middle part decodes to: put together from parts without dots,
/// a token has the payload that was put in.
pub proof fn payload_is_the_middle_part(
    header: Seq<char>,
    payload: Seq<char>,
    signature: Seq<char>,
)
    requires
        !payload.contains('.'),
        !signature.contains('.'),
    ensures
        payload_bytes(header + seq!['.'] + payload + seq!['.'] + signature) == base64_bytes(
            payload,
        ),
        base64_bytes(payload) matches Some(bytes) ==> token_claims(
            header + seq!['.'] + payload + seq!['.'] + signature,
        ) == claims_in(bytes),
{
    text::around_last_parts(header + seq!['.'] + payload, '.', signature);
    text::around_last_parts(header, '.', payload);
}

/// A text without a dot, or with one dot only, has no payload.
pub proof fn payload_needs_two_dots(before: Seq<char>, after: Seq<char>)
    requires
        !before.contains('.'),
        !after.contains('.'),
    ensures
        payload_bytes(before) is None,
        payload_bytes(before + seq!['.'] + after) is None,
        token_claims(before) is None,
        token_claims(before + seq!['.'] + after) is None,
{
    text::around_last_of_none(before, '.');
    text::around_last_parts(before, '.', after);
}

/// What is issued claims what the settings and the request say.
pub proof fn issued_claims_are_as_set(
    config: &Config,
    sub: Seq<char>,
    iat: i64,
    exp: i64,
    jti: Seq<char>,
)
    ensures
        issued_claims(config, sub, iat, exp, jti).iss == config.issuer@,
        issued_claims(config, sub, iat, exp, jti).aud == config.audience@,
        issued_claims(config, sub, iat, exp, jti).sub == sub,
        issued_claims(config, sub, iat, exp, jti).iat == iat,
        issued_claims(config, sub, iat, exp, jti).exp == exp,
        issued_claims(config, sub, iat, exp, jti).jti == jti,
        issued_token(config, issued_claims(config, sub, iat, exp, jti)) == hs256_token(
            id_token_members(issued_claims(config, sub, iat, exp, jti)),
            config.signing_secret@,
        ),
{
}

/// A token or a refusal is taken as it is.
pub proof fn token_results_are_taken_whole(token: String, status: u16, body: ErrorResponse)
    ensures
        token_result(Ok(token)) == Ok::<Seq<char>, (u16, reply::ErrorResponseView)>(token@),
        token_result(Err((status, body))) == Err::<Seq<char>, _>((status, body@)),
        optional_text(Some(token)) == Some(token@),
        optional_text(None) is None,
{
}

} // verus!
