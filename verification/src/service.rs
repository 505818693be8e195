//! The requests: to issue tokens, to refresh them and to validate them.
use crate::claims;
use crate::claims::IdTokenClaims;
use crate::config::Config;
use crate::fresh;
use crate::reply;
use crate::reply::{ErrorResponse, TokenResponse};
use crate::store;
use crate::store::{RefreshEntry, RefreshStore};
use crate::text;
use vstd::prelude::*;

verus! {

/// A request for tokens.
#[derive(Debug)]
pub struct IssueTokenRequest {
    /// Whom the tokens are for.
    pub subject: String,
}

/// A request for new tokens in exchange for a refresh token.
#[derive(Debug)]
pub struct RefreshTokenRequest {
    pub refresh_token: String,
}

/// A request to validate an identity token.
#[derive(Debug)]
pub struct ValidateTokenRequest {
    pub id_token: String,
}

/// The body of an answer that says what a valid token claims.
#[derive(Debug)]
pub struct ValidateTokenResponse {
    pub valid: bool,
    pub claims: IdTokenClaims,
}

/// A [`ValidateTokenResponse`] as a mathematical value.
pub struct ValidateTokenResponseView {
    pub valid: bool,
    pub claims: claims::IdTokenClaimsView,
}

impl View for ValidateTokenResponse {
    type V = ValidateTokenResponseView;

    open spec fn view(&self) -> ValidateTokenResponseView {
        ValidateTokenResponseView { valid: self.valid, claims: self.claims@ }
    }
}

/// The refresh tokens in a store with their entries.
pub type Tokens = Map<Seq<char>, store::RefreshEntryView>;

/// An answer that hands out tokens or refuses to.
pub type TokenAnswer = Result<
    (u16, reply::TokenResponseView),
    (u16, reply::ErrorResponseView),
>;

/// Whether `now` and a lifetime make a time that fits in an `i64`.
pub open spec fn fits(now: i64, ttl: i64) -> bool {
    i64::MIN <= now + ttl <= i64::MAX
}

/// Whether both kinds of token that are issued at `now` expire at a time that fits in an `i64`.
pub open spec fn expiries_fit(config: &Config, now: i64) -> bool {
    fits(now, config.id_token_ttl_seconds) && fits(now, config.refresh_token_ttl_seconds)
}

/// The claims of the identity token that is issued at `now` to `subject`.
pub open spec fn claims_at(
    config: &Config,
    subject: Seq<char>,
    now: i64,
    jti: Seq<char>,
) -> claims::IdTokenClaimsView {
    claims::issued_claims(
        config,
        subject,
        now,
        (now + config.id_token_ttl_seconds) as i64,
        jti,
    )
}

/// What the identity token that is issued at `now` to `subject` comes to.
pub open spec fn id_token_at(config: &Config, subject: Seq<char>, now: i64, jti: Seq<char>) -> Result<
    Seq<char>,
    (u16, reply::ErrorResponseView),
> {
    claims::encoding_answer(claims::issued_token(config, claims_at(config, subject, now, jti)))
}

/// The entry of the refresh token that is issued at `now` to `subject`.
pub open spec fn entry_at(config: &Config, subject: Seq<char>, now: i64) -> store::RefreshEntryView {
    store::RefreshEntryView {
        sub: subject,
        exp: (now + config.refresh_token_ttl_seconds) as i64,
    }
}

/// The answer that hands out these tokens.
pub open spec fn tokens_answer(
    config: &Config,
    id_token: Seq<char>,
    refresh_token: Seq<char>,
) -> TokenAnswer {
    Ok(
        (
            reply::OK,
            reply::TokenResponseView {
                token_type: "Bearer"@,
                id_token,
                refresh_token,
                expires_in: config.id_token_ttl_seconds,
            },
        ),
    )
}

/// Enters a new refresh token for `subject` among `tokens`, where there is room, and answers
/// with it and `id_token`.
pub open spec fn hand_out(
    tokens: Tokens,
    config: &Config,
    subject: Seq<char>,
    now: i64,
    id_token: Seq<char>,
    refresh_token: Seq<char>,
) -> (TokenAnswer, Tokens) {
    if tokens.len() >= config.refresh_store_max_size {
        (
            Err(
                reply::refusal(
                    reply::SERVICE_UNAVAILABLE,
                    "server_overloaded"@,
                    "refresh token store is full"@,
                ),
            ),
            tokens,
        )
    } else {
        (
            tokens_answer(config, id_token, refresh_token),
            tokens.insert(refresh_token, entry_at(config, subject, now)),
        )
    }
}

/// What a request of `subject` for tokens leads to at `now`, where `jti` and `refresh_token`
/// are the new identifiers: the answer, and the refresh tokens from then on.
pub open spec fn issue(
    tokens: Tokens,
    config: &Config,
    subject: Seq<char>,
    now: i64,
    jti: Seq<char>,
    refresh_token: Seq<char>,
) -> (TokenAnswer, Tokens) {
    if text::is_blank(subject) {
        (
            Err(
                reply::refusal(
                    reply::BAD_REQUEST,
                    "invalid_request"@,
                    "subject cannot be empty"@,
                ),
            ),
            tokens,
        )
    } else {
        match id_token_at(config, subject, now, jti) {
            Err(e) => (Err(e), tokens),
            Ok(id_token) => hand_out(
                store::live(tokens, now),
                config,
                subject,
                now,
                id_token,
                refresh_token,
            ),
        }
    }
}

/// The refusal of a refresh token that is not there.
pub open spec fn unknown_refresh_token() -> (u16, reply::ErrorResponseView) {
    reply::refusal(reply::UNAUTHORIZED, "invalid_grant"@, "refresh token is unknown"@)
}

/// What a request to refresh `refresh_token` leads to at `now`, where `jti` and
/// `new_refresh_token` are the new identifiers: the answer, and the refresh tokens from then on.
pub open spec fn refresh(
    tokens: Tokens,
    config: &Config,
    refresh_token: Seq<char>,
    now: i64,
    jti: Seq<char>,
    new_refresh_token: Seq<char>,
) -> (TokenAnswer, Tokens) {
    let current = store::live(tokens, now);
    if !current.contains_key(refresh_token) {
        (Err(unknown_refresh_token()), current)
    } else {
        let subject = current[refresh_token].sub;
        let rest = current.remove(refresh_token);
        match id_token_at(config, subject, now, jti) {
            Err(e) => (Err(e), rest),
            Ok(id_token) => hand_out(rest, config, subject, now, id_token, new_refresh_token),
        }
    }
}

/// Whether tokens can be issued to `subject` at `now`: it is not blank, and among the refresh
/// tokens that have not expired there is room.
pub open spec fn is_issuable(tokens: Tokens, config: &Config, subject: Seq<char>, now: i64) -> bool {
    &&& !text::is_blank(subject)
    &&& store::live(tokens, now).len() < config.refresh_store_max_size
}

/// Whether `refresh_token` can be exchanged at `now`: it is there and has not expired, and
/// with it gone there is room.
pub open spec fn is_refreshable(
    tokens: Tokens,
    config: &Config,
    refresh_token: Seq<char>,
    now: i64,
) -> bool {
    &&& store::live(tokens, now).contains_key(refresh_token)
    &&& store::live(tokens, now).len() <= config.refresh_store_max_size
}

/// Whether the identity token in `answer` is one that makes these claims.
pub open spec fn makes_claims(
    config: &Config,
    answer: TokenAnswer,
    claims: claims::IdTokenClaimsView,
) -> bool {
    answer matches Ok((_, body)) ==> claims::is_token_of(config, body.id_token, claims)
}

/// Enters a new refresh token, if there is room.
fn hand_out_tokens(
    store: &mut RefreshStore,
    config: &Config,
    subject: String,
    now: i64,
    id_token: String,
    refresh_token: String,
) -> (r: Result<(u16, TokenResponse), (u16, ErrorResponse)>)
    requires
        old(store).wf(),
        fits(now, config.refresh_token_ttl_seconds),
    ensures
        final(store).wf(),
        (reply::answer(r), final(store)@) == hand_out(
            old(store)@,
            config,
            subject@,
            now,
            id_token@,
            refresh_token@,
        ),
{
    if store.len() >= config.refresh_store_max_size {
        return Err(
            reply::error_response(
                reply::SERVICE_UNAVAILABLE,
                "server_overloaded",
                "refresh token store is full".to_owned(),
            ),
        );
    }
    let exp: i64 = now + config.refresh_token_ttl_seconds;
    store.insert(refresh_token.clone(), RefreshEntry { sub: subject, exp });
    Ok(
        (
            reply::OK,
            TokenResponse {
                token_type: "Bearer",
                id_token,
                refresh_token,
                expires_in: config.id_token_ttl_seconds,
            },
        ),
    )
}

/// Issues tokens at `now`, under the new identifiers `jti` and `refresh_token`.
pub fn issue_token_at(
    store: &mut RefreshStore,
    config: &Config,
    request: IssueTokenRequest,
    now: i64,
    jti: String,
    refresh_token: String,
) -> (r: Result<(u16, TokenResponse), (u16, ErrorResponse)>)
    requires
        old(store).wf(),
        !text::is_blank(request.subject@) ==> expiries_fit(config, now),
    ensures
        final(store).wf(),
        (reply::answer(r), final(store)@) == issue(
            old(store)@,
            config,
            request.subject@,
            now,
            jti@,
            refresh_token@,
        ),
        makes_claims(config, reply::answer(r), claims_at(config, request.subject@, now, jti@)),
        !text::is_blank(request.subject@) ==> id_token_at(
            config,
            request.subject@,
            now,
            jti@,
        ) is Ok,
        r matches Ok((status, body)) ==> {
            &&& status == 200
            &&& body.token_type@ == "Bearer"@
            &&& body.refresh_token@ == refresh_token@
            &&& body.expires_in == config.id_token_ttl_seconds
            &&& claims::hs256_signed(body.id_token@, config.signing_secret@)
            &&& claims::token_claims(body.id_token@) == Some(
                claims::IdTokenClaimsView {
                    iss: config.issuer@,
                    aud: config.audience@,
                    sub: request.subject@,
                    iat: now,
                    exp: (now + config.id_token_ttl_seconds) as i64,
                    jti: jti@,
                },
            )
            &&& final(store)@.contains_key(refresh_token@)
            &&& final(store)@[refresh_token@].sub == request.subject@
            &&& final(store)@[refresh_token@].exp == now + config.refresh_token_ttl_seconds
        },
        r matches Err((status, body)) ==> {
            ||| text::is_blank(request.subject@) && status == 400 && body.error@
                == "invalid_request"@ && body.message@ == "subject cannot be empty"@
            ||| !text::is_blank(request.subject@) && status == 503 && body.error@
                == "server_overloaded"@ && body.message@ == "refresh token store is full"@
        },
        r is Ok <==> is_issuable(old(store)@, config, request.subject@, now),
{
    if text::trim(request.subject.as_str()).is_empty() {
        return Err(
            reply::error_response(
                reply::BAD_REQUEST,
                "invalid_request",
                "subject cannot be empty".to_owned(),
            ),
        );
    }
    let id_exp: i64 = now + config.id_token_ttl_seconds;
    match claims::build_id_token_with(config, request.subject.clone(), now, id_exp, jti) {
        Err(e) => Err(e),
        Ok(id_token) => {
            store::evict_expired_tokens(store, now);
            hand_out_tokens(store, config, request.subject, now, id_token, refresh_token)
        },
    }
}

/// The refusal of an entry that has expired at `now`.
pub fn check_entry(entry: &RefreshEntry, now: i64) -> (r: Result<(), (u16, ErrorResponse)>)
    ensures
        match r {
            Ok(()) => entry.exp > now,
            Err((status, body)) => entry.exp <= now && (status, body@) == reply::refusal(
                reply::UNAUTHORIZED,
                "invalid_grant"@,
                "refresh token has expired"@,
            ),
        },
{
    if entry.exp <= now {
        return Err(
            reply::error_response(
                reply::UNAUTHORIZED,
                "invalid_grant",
                "refresh token has expired".to_owned(),
            ),
        );
    }
    Ok(())
}

/// Exchanges a refresh token at `now` for new tokens, under the new identifiers `jti` and
/// `new_refresh_token`.
pub fn refresh_token_at(
    store: &mut RefreshStore,
    config: &Config,
    request: RefreshTokenRequest,
    now: i64,
    jti: String,
    new_refresh_token: String,
) -> (r: Result<(u16, TokenResponse), (u16, ErrorResponse)>)
    requires
        old(store).wf(),
        store::live(old(store)@, now).contains_key(request.refresh_token@) ==> expiries_fit(
            config,
            now,
        ),
    ensures
        final(store).wf(),
        (reply::answer(r), final(store)@) == refresh(
            old(store)@,
            config,
            request.refresh_token@,
            now,
            jti@,
            new_refresh_token@,
        ),
        makes_claims(
            config,
            reply::answer(r),
            claims_at(config, old(store)@[request.refresh_token@].sub, now, jti@),
        ),
        store::live(old(store)@, now).contains_key(request.refresh_token@) ==> id_token_at(
            config,
            old(store)@[request.refresh_token@].sub,
            now,
            jti@,
        ) is Ok,
        r matches Ok((status, body)) ==> {
            &&& status == 200
            &&& body.token_type@ == "Bearer"@
            &&& body.refresh_token@ == new_refresh_token@
            &&& body.expires_in == config.id_token_ttl_seconds
            &&& claims::hs256_signed(body.id_token@, config.signing_secret@)
            &&& claims::token_claims(body.id_token@) == Some(
                claims::IdTokenClaimsView {
                    iss: config.issuer@,
                    aud: config.audience@,
                    sub: old(store)@[request.refresh_token@].sub,
                    iat: now,
                    exp: (now + config.id_token_ttl_seconds) as i64,
                    jti: jti@,
                },
            )
            &&& final(store)@.contains_key(new_refresh_token@)
            &&& final(store)@[new_refresh_token@].sub == old(store)@[request.refresh_token@].sub
            &&& final(store)@[new_refresh_token@].exp == now + config.refresh_token_ttl_seconds
        },
        r is Ok ==> old(store)@.contains_key(request.refresh_token@)
            && old(store)@[request.refresh_token@].exp > now,
        final(store)@.contains_key(request.refresh_token@) ==> r is Ok && request.refresh_token@
            == new_refresh_token@,
        r matches Err((status, body)) ==> {
            let is_live = old(store)@.contains_key(request.refresh_token@)
                && old(store)@[request.refresh_token@].exp > now;
            ||| !is_live && status == 401 && body.error@ == "invalid_grant"@ && body.message@
                == "refresh token is unknown"@
            ||| is_live && status == 503 && body.error@ == "server_overloaded"@ && body.message@
                == "refresh token store is full"@
        },
        r is Ok <==> is_refreshable(old(store)@, config, request.refresh_token@, now),
{
    store::evict_expired_tokens(store, now);
    let ghost current = store@;
    proof {
        store.has_finitely_many();
    }
    let entry = match store.remove(request.refresh_token.as_str()) {
        Some(entry) => entry,
        None => {
            assert(current.remove(request.refresh_token@) =~= current);
            return Err(
                reply::error_response(
                    reply::UNAUTHORIZED,
                    "invalid_grant",
                    "refresh token is unknown".to_owned(),
                ),
            );
        },
    };
    match check_entry(&entry, now) {
        Err(e) => {
            return Err(e);
        },
        Ok(()) => {},
    }
    let id_exp: i64 = now + config.id_token_ttl_seconds;
    match claims::build_id_token_with(config, entry.sub.clone(), now, id_exp, jti) {
        Err(e) => Err(e),
        Ok(id_token) => hand_out_tokens(store, config, entry.sub, now, id_token, new_refresh_token),
    }
}

/// An answer with every body taken by its view, if there is one.
pub open spec fn optional_answer(
    r: Option<Result<(u16, TokenResponse), (u16, ErrorResponse)>>,
) -> Option<TokenAnswer> {
    match r {
        Some(r) => Some(reply::answer(r)),
        None => None,
    }
}

/// Whether tokens expire at a time that fits in an `i64` whenever they are issued.
pub open spec fn lifetimes_fit(config: &Config) -> bool {
    &&& config.id_token_ttl_seconds <= i64::MAX - fresh::LAST_SECOND
    &&& config.refresh_token_ttl_seconds <= i64::MAX - fresh::LAST_SECOND
}

/// Whether a request of `subject` for tokens leads to `answer`, and to the refresh tokens
/// `after`, with `now` on the clock and these new identifiers. There is no answer where a
/// token would expire at a time that does not fit in an `i64`.
pub open spec fn is_issued(
    tokens: Tokens,
    config: &Config,
    subject: Seq<char>,
    now: i64,
    jti: Seq<char>,
    refresh_token: Seq<char>,
    answer: Option<TokenAnswer>,
    after: Tokens,
) -> bool {
    &&& fresh::is_clock_time(now)
    &&& fresh::is_clock_reading(now)
    &&& fresh::is_uuid_v4(jti)
    &&& fresh::is_uuid_v4(refresh_token)
    &&& fresh::are_separate_draws(jti, refresh_token)
    &&& if text::is_blank(subject) || expiries_fit(config, now) {
        &&& answer is Some
        &&& (answer->0, after) == issue(tokens, config, subject, now, jti, refresh_token)
        &&& makes_claims(config, answer->0, claims_at(config, subject, now, jti))
        &&& !text::is_blank(subject) ==> id_token_at(config, subject, now, jti) is Ok
        &&& answer->0 is Ok <==> is_issuable(tokens, config, subject, now)
    } else {
        answer is None && after == tokens
    }
}

/// Whether a request to refresh `refresh_token` leads to `answer`, and to the refresh tokens
/// `after`, with `now` on the clock and these new identifiers. There is no answer where a
/// token would expire at a time that does not fit in an `i64`.
pub open spec fn is_refreshed(
    tokens: Tokens,
    config: &Config,
    refresh_token: Seq<char>,
    now: i64,
    jti: Seq<char>,
    new_refresh_token: Seq<char>,
    answer: Option<TokenAnswer>,
    after: Tokens,
) -> bool {
    &&& fresh::is_clock_time(now)
    &&& fresh::is_clock_reading(now)
    &&& fresh::is_uuid_v4(jti)
    &&& fresh::is_uuid_v4(new_refresh_token)
    &&& fresh::are_separate_draws(jti, new_refresh_token)
    &&& if !store::live(tokens, now).contains_key(refresh_token) || expiries_fit(config, now) {
        &&& answer is Some
        &&& (answer->0, after) == refresh(
            tokens,
            config,
            refresh_token,
            now,
            jti,
            new_refresh_token,
        )
        &&& makes_claims(config, answer->0, claims_at(config, tokens[refresh_token].sub, now, jti))
        &&& store::live(tokens, now).contains_key(refresh_token) ==> id_token_at(
            config,
            tokens[refresh_token].sub,
            now,
            jti,
        ) is Ok
        &&& answer->0 is Ok <==> is_refreshable(tokens, config, refresh_token, now)
    } else {
        answer is None && after == tokens
    }
}

/// Whether both kinds of token that are issued at `now` expire at a time that fits.
fn check_expiries(config: &Config, now: i64) -> (r: bool)
    ensures
        r == expiries_fit(config, now),
{
    now.checked_add(config.id_token_ttl_seconds).is_some() && now.checked_add(
        config.refresh_token_ttl_seconds,
    ).is_some()
}

/// Issues tokens now. There is no answer, and nothing happens, where a token would expire at a
/// time that does not fit in an `i64`.
pub fn issue_token(store: &mut RefreshStore, config: &Config, request: IssueTokenRequest) -> (r:
    Option<Result<(u16, TokenResponse), (u16, ErrorResponse)>>)
    requires
        old(store).wf(),
    ensures
        final(store).wf(),
        exists|now: i64, jti: Seq<char>, new_token: Seq<char>| #[trigger]
            is_issued(
                old(store)@,
                config,
                request.subject@,
                now,
                jti,
                new_token,
                optional_answer(r),
                final(store)@,
            ),
        r matches Some(Ok((status, body))) ==> {
            &&& status == 200
            &&& body.token_type@ == "Bearer"@
            &&& claims::hs256_signed(body.id_token@, config.signing_secret@)
            &&& claims::token_claims(body.id_token@) matches Some(made) && {
                &&& made.iss == config.issuer@
                &&& made.aud == config.audience@
                &&& made.sub == request.subject@
                &&& fresh::is_clock_reading(made.iat)
                &&& made.exp - made.iat == body.expires_in
                &&& body.expires_in == config.id_token_ttl_seconds
                &&& fresh::are_separate_draws(made.jti, body.refresh_token@)
                &&& final(store)@.contains_key(body.refresh_token@)
                &&& final(store)@[body.refresh_token@].sub == request.subject@
                &&& final(store)@[body.refresh_token@].exp == made.iat
                    + config.refresh_token_ttl_seconds
            }
        },
        r matches Some(Err((status, body))) ==> {
            ||| text::is_blank(request.subject@) && status == 400 && body.error@
                == "invalid_request"@ && body.message@ == "subject cannot be empty"@
            ||| !text::is_blank(request.subject@) && status == 503 && body.error@
                == "server_overloaded"@ && body.message@ == "refresh token store is full"@
        },
        lifetimes_fit(config) ==> r is Some,
{
    let now = fresh::read_clock();
    let (jti, refresh_token) = fresh::draw_two_uuids();
    let ghost subject = request.subject@;
    let ghost (id, new_token) = (jti@, refresh_token@);
    if text::trim(request.subject.as_str()).is_empty() || check_expiries(config, now) {
        let r = Some(issue_token_at(store, config, request, now, jti, refresh_token));
        assert(is_issued(old(store)@, config, subject, now, id, new_token, optional_answer(r), store@));
        r
    } else {
        assert(is_issued(old(store)@, config, subject, now, id, new_token, None, store@));
        None
    }
}

/// Exchanges a refresh token now for new tokens. There is no answer, and nothing happens,
/// where a token would expire at a time that does not fit in an `i64`.
pub fn refresh_token(store: &mut RefreshStore, config: &Config, request: RefreshTokenRequest) -> (r:
    Option<Result<(u16, TokenResponse), (u16, ErrorResponse)>>)
    requires
        old(store).wf(),
    ensures
        final(store).wf(),
        exists|now: i64, jti: Seq<char>, new_token: Seq<char>| #[trigger]
            is_refreshed(
                old(store)@,
                config,
                request.refresh_token@,
                now,
                jti,
                new_token,
                optional_answer(r),
                final(store)@,
            ),
        r matches Some(Ok((status, body))) ==> {
            &&& status == 200
            &&& body.token_type@ == "Bearer"@
            &&& claims::hs256_signed(body.id_token@, config.signing_secret@)
            &&& claims::token_claims(body.id_token@) matches Some(made) && {
                &&& made.iss == config.issuer@
                &&& made.aud == config.audience@
                &&& made.sub == old(store)@[request.refresh_token@].sub
                &&& fresh::is_clock_reading(made.iat)
                &&& made.exp - made.iat == body.expires_in
                &&& body.expires_in == config.id_token_ttl_seconds
                &&& fresh::are_separate_draws(made.jti, body.refresh_token@)
                &&& final(store)@.contains_key(body.refresh_token@)
                &&& final(store)@[body.refresh_token@].sub == old(store)@[request.refresh_token@].sub
                &&& final(store)@[body.refresh_token@].exp == made.iat
                    + config.refresh_token_ttl_seconds
            }
        },
        r matches Some(Ok((_, body))) ==> old(store)@.contains_key(request.refresh_token@) && (
        final(store)@.contains_key(request.refresh_token@) ==> request.refresh_token@
            == body.refresh_token@),
        r matches Some(Err((status, body))) ==> {
            ||| status == 401 && body.error@ == "invalid_grant"@ && body.message@
                == "refresh token is unknown"@
            ||| status == 503 && body.error@ == "server_overloaded"@ && body.message@
                == "refresh token store is full"@
        },
        lifetimes_fit(config) ==> r is Some,
{
    let now = fresh::read_clock();
    let (jti, new_refresh_token) = fresh::draw_two_uuids();
    let ghost token = request.refresh_token@;
    let ghost (id, new_token) = (jti@, new_refresh_token@);
    let known = match store.get(request.refresh_token.as_str()) {
        Some(entry) => entry.exp > now,
        None => false,
    };
    if !known || check_expiries(config, now) {
        let r = Some(refresh_token_at(store, config, request, now, jti, new_refresh_token));
        assert(is_refreshed(old(store)@, config, token, now, id, new_token, optional_answer(r), store@));
        r
    } else {
        assert(is_refreshed(old(store)@, config, token, now, id, new_token, None, store@));
        None
    }
}

/// Removes the refresh tokens that have expired by now.
pub fn remove_expired_tokens(store: &mut RefreshStore)
    requires
        old(store).wf(),
    ensures
        final(store).wf(),
        exists|now: i64|
            fresh::is_clock_time(now) && fresh::is_clock_reading(now) && final(store)@
                == #[trigger] store::live(old(store)@, now),
{
    let now = fresh::read_clock();
    store::evict_expired_tokens(store, now);
}

/// An answer that says what a token claims or refuses it.
pub type ValidationAnswer = Result<
    (u16, ValidateTokenResponseView),
    (u16, reply::ErrorResponseView),
>;

/// The answer to what verifying a token found, if there was a token to verify: its claims, or a
/// refusal.
pub open spec fn verification_answer(
    verified: Option<Result<claims::IdTokenClaimsView, Seq<char>>>,
) -> ValidationAnswer {
    match verified {
        Some(Ok(claims)) => Ok((reply::OK, ValidateTokenResponseView { valid: true, claims })),
        Some(Err(_)) => Err(
            reply::refusal(reply::UNAUTHORIZED, "invalid_token"@, "id_token is invalid"@),
        ),
        None => Err(
            reply::refusal(
                reply::BAD_REQUEST,
                "invalid_request"@,
                "id_token cannot be empty"@,
            ),
        ),
    }
}

/// What verifying `id_token` finds at the second `now`, if it is not blank: its claims, or why it
/// is refused.
pub open spec fn verification(config: &Config, id_token: Seq<char>, now: u64) -> Option<
    Result<claims::IdTokenClaimsView, Seq<char>>,
> {
    if text::is_blank(id_token) {
        None
    } else {
        match claims::hs256_refusal(
            id_token,
            config.signing_secret@,
            config.issuer@,
            config.audience@,
            now,
        ) {
            Some(e) => Some(Err(e)),
            None => match claims::token_claims(id_token) {
                Some(claims) => Some(Ok(claims)),
                None => Some(Err("claims are missing or cannot be read"@)),
            },
        }
    }
}

/// The answer to a request to validate `id_token` at the second `now`.
pub open spec fn validate(config: &Config, id_token: Seq<char>, now: u64) -> ValidationAnswer {
    verification_answer(verification(config, id_token, now))
}

/// Whether verifying `id_token` leads to `verified` at the second `now`, which the clock showed if
/// there was a token to verify. Claims are found only in a
/// token that is signed, and only if they are acceptable at that second.
pub open spec fn is_verified(
    config: &Config,
    id_token: Seq<char>,
    now: u64,
    verified: Option<Result<claims::IdTokenClaimsView, Seq<char>>>,
) -> bool {
    &&& !text::is_blank(id_token) ==> fresh::is_clock_second(now)
    &&& verified == verification(config, id_token, now)
    &&& verified matches Some(Ok(claims)) ==> claims::hs256_signed(id_token, config.signing_secret@)
        && claims::is_acceptable(claims, config.issuer@, config.audience@, now)
}

/// Whether a request to validate `id_token` leads to `answer` at the second `now`, which the
/// clock showed if there was a token to verify. A token is found valid only if it is signed and
/// its claims are acceptable at that second.
pub open spec fn is_validated(
    config: &Config,
    id_token: Seq<char>,
    now: u64,
    answer: ValidationAnswer,
) -> bool {
    &&& !text::is_blank(id_token) ==> fresh::is_clock_second(now)
    &&& answer == validate(config, id_token, now)
    &&& answer matches Ok((_, body)) ==> claims::hs256_signed(id_token, config.signing_secret@)
        && claims::is_acceptable(body.claims, config.issuer@, config.audience@, now)
}

/// What verifying a token found, if there was a token to verify, as mathematical values.
pub open spec fn found(verified: Option<Result<IdTokenClaims, String>>) -> Option<
    Result<claims::IdTokenClaimsView, Seq<char>>,
> {
    match verified {
        Some(Ok(claims)) => Some(Ok(claims@)),
        Some(Err(e)) => Some(Err(e@)),
        None => None,
    }
}

/// Verifies an identity token now, unless it is blank: its claims, or why it is refused.
pub fn verify_token(config: &Config, request: &ValidateTokenRequest) -> (r: Option<
    Result<IdTokenClaims, String>,
>)
    ensures
        exists|now: u64| #[trigger] is_verified(config, request.id_token@, now, found(r)),
        r is None <==> text::is_blank(request.id_token@),
        r matches Some(Ok(claims)) ==> {
            &&& claims::hs256_signed(request.id_token@, config.signing_secret@)
            &&& claims::token_claims(request.id_token@) == Some(claims@)
            &&& claims.iss@ == config.issuer@
            &&& claims.aud@ == config.audience@
            &&& exists|now: u64| #[trigger] fresh::is_clock_second(now) && now <= claims.exp + 60
        },
{
    if text::trim(request.id_token.as_str()).is_empty() {
        assert(is_verified(config, request.id_token@, 0, None));
        return None;
    }
    let refusal = claims::verify(
        request.id_token.as_str(),
        config.signing_secret.as_str(),
        config.issuer.as_str(),
        config.audience.as_str(),
    );
    let ghost now = choose|now: u64|
        {
            &&& claims::optional_text(refusal) == #[trigger] claims::hs256_refusal(
                request.id_token@,
                config.signing_secret@,
                config.issuer@,
                config.audience@,
                now,
            )
            &&& claims::is_judged_at(
                claims::optional_text(refusal),
                request.id_token@,
                config.issuer@,
                config.audience@,
                now,
            )
        };
    let r = match refusal {
        Some(e) => Some(Err(e)),
        None => match claims::read_token(request.id_token.as_str()) {
            Some(claims) => Some(Ok(claims)),
            None => Some(Err("claims are missing or cannot be read".to_owned())),
        },
    };
    assert(is_verified(config, request.id_token@, now, found(r)));
    r
}

/// Makes the answer to what verifying a token found.
pub fn answer_verification(verified: Option<Result<IdTokenClaims, String>>) -> (r: Result<
    (u16, ValidateTokenResponse),
    (u16, ErrorResponse),
>)
    ensures
        reply::answer(r) == verification_answer(found(verified)),
{
    match verified {
        Some(Ok(claims)) => Ok((reply::OK, ValidateTokenResponse { valid: true, claims })),
        Some(Err(_)) => Err(
            reply::error_response(
                reply::UNAUTHORIZED,
                "invalid_token",
                "id_token is invalid".to_owned(),
            ),
        ),
        None => Err(
            reply::error_response(
                reply::BAD_REQUEST,
                "invalid_request",
                "id_token cannot be empty".to_owned(),
            ),
        ),
    }
}

/// Validates an identity token now.
pub fn validate_token(config: &Config, request: ValidateTokenRequest) -> (r: Result<
    (u16, ValidateTokenResponse),
    (u16, ErrorResponse),
>)
    ensures
        exists|now: u64| #[trigger]
            is_validated(config, request.id_token@, now, reply::answer(r)),
        r matches Ok((status, body)) ==> {
            &&& status == 200
            &&& body.valid
            &&& claims::hs256_signed(request.id_token@, config.signing_secret@)
            &&& claims::token_claims(request.id_token@) == Some(body.claims@)
            &&& body.claims.iss@ == config.issuer@
            &&& body.claims.aud@ == config.audience@
            &&& exists|now: u64| #[trigger]
                fresh::is_clock_second(now) && now <= body.claims.exp + 60
        },
        r matches Err((status, body)) ==> {
            ||| text::is_blank(request.id_token@) && status == 400 && body.error@
                == "invalid_request"@ && body.message@ == "id_token cannot be empty"@
            ||| !text::is_blank(request.id_token@) && status == 401 && body.error@
                == "invalid_token"@ && body.message@ == "id_token is invalid"@
        },
        text::is_blank(request.id_token@) ==> r is Err,
{
    let verified = verify_token(config, &request);
    let ghost now = choose|now: u64| #[trigger]
        is_verified(config, request.id_token@, now, found(verified));
    let r = answer_verification(verified);
    assert(is_validated(config, request.id_token@, now, reply::answer(r)));
    r
}

} // verus!
