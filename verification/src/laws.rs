//! What holds of the service over several requests.
use crate::claims;
use crate::config::Config;
use crate::fresh;
use crate::metrics;
use crate::reply;
use crate::service;
use crate::service::{TokenAnswer, Tokens};
use crate::store;
use crate::text;
use prometheus::proto::MetricFamily;
use vstd::prelude::*;

verus! {

/// Whether `tokens` are no more than `config` lets the service keep.
pub open spec fn is_within_capacity(tokens: Tokens, config: &Config) -> bool {
    tokens.dom().finite() && tokens.len() <= config.refresh_store_max_size
}

proof fn live_is_no_larger(tokens: Tokens, now: i64)
    requires
        tokens.dom().finite(),
    ensures
        store::live(tokens, now).dom().finite(),
        store::live(tokens, now).len() <= tokens.len(),
{
    assert(store::live(tokens, now).dom().subset_of(tokens.dom()));
    vstd::set_lib::lemma_len_subset(store::live(tokens, now).dom(), tokens.dom());
}

/// Removing expired tokens at one time and then at another removes what the later one removes.
pub proof fn removing_expired_tokens_twice(tokens: Tokens, first: i64, second: i64)
    ensures
        store::live(store::live(tokens, first), second) == store::live(
            tokens,
            if first <= second {
                second
            } else {
                first
            },
        ),
{
    assert(store::live(store::live(tokens, first), second) =~= store::live(
        tokens,
        if first <= second {
            second
        } else {
            first
        },
    ));
}

/// That expired tokens were removed at some time before makes no difference to a later request
/// for tokens: neither to its answer nor to the tokens that have not expired.
pub proof fn cleanup_does_not_show_in_issuing(
    tokens: Tokens,
    config: &Config,
    subject: Seq<char>,
    before: i64,
    now: i64,
    jti: Seq<char>,
    refresh_token: Seq<char>,
)
    requires
        before <= now,
    ensures
        ({
            let cleaned = service::issue(
                store::live(tokens, before),
                config,
                subject,
                now,
                jti,
                refresh_token,
            );
            let plain = service::issue(tokens, config, subject, now, jti, refresh_token);
            cleaned.0 == plain.0 && store::live(cleaned.1, now) == store::live(plain.1, now)
        }),
{
    removing_expired_tokens_twice(tokens, before, now);
}

/// That expired tokens were removed at some time before makes no difference to a later refresh.
pub proof fn cleanup_does_not_show_in_refreshing(
    tokens: Tokens,
    config: &Config,
    refresh_token: Seq<char>,
    before: i64,
    now: i64,
    jti: Seq<char>,
    new_refresh_token: Seq<char>,
)
    requires
        before <= now,
    ensures
        service::refresh(
            store::live(tokens, before),
            config,
            refresh_token,
            now,
            jti,
            new_refresh_token,
        ) == service::refresh(tokens, config, refresh_token, now, jti, new_refresh_token),
{
    removing_expired_tokens_twice(tokens, before, now);
}

/// No request, and no removal of expired tokens, makes the refresh tokens more than may be kept.
pub proof fn capacity_is_kept(
    tokens: Tokens,
    config: &Config,
    input: Seq<char>,
    now: i64,
    jti: Seq<char>,
    refresh_token: Seq<char>,
)
    requires
        is_within_capacity(tokens, config),
    ensures
        is_within_capacity(store::live(tokens, now), config),
        is_within_capacity(
            service::issue(tokens, config, input, now, jti, refresh_token).1,
            config,
        ),
        is_within_capacity(
            service::refresh(tokens, config, input, now, jti, refresh_token).1,
            config,
        ),
{
    live_is_no_larger(tokens, now);
}

/// Issuing takes up one place, and no more: after it, anyone can be issued tokens in the same second
/// exactly if one place was left besides. That goes for a refresh token that is new.
pub proof fn issuing_takes_one_place(
    tokens: Tokens,
    config: &Config,
    subject: Seq<char>,
    now: i64,
    jti: Seq<char>,
    refresh_token: Seq<char>,
    other_subject: Seq<char>,
)
    requires
        is_within_capacity(tokens, config),
        service::expiries_fit(config, now),
        config.refresh_token_ttl_seconds > 0,
        service::issue(tokens, config, subject, now, jti, refresh_token).0 is Ok,
        !store::live(tokens, now).contains_key(refresh_token),
        !text::is_blank(other_subject),
    ensures
        ({
            let after = service::issue(tokens, config, subject, now, jti, refresh_token).1;
            &&& store::live(after, now).len() == store::live(tokens, now).len() + 1
            &&& service::is_issuable(after, config, other_subject, now) <==> store::live(
                tokens,
                now,
            ).len() + 1 < config.refresh_store_max_size
        }),
{
    live_is_no_larger(tokens, now);
    let after = service::issue(tokens, config, subject, now, jti, refresh_token).1;
    assert(store::live(after, now) =~= after);
}

/// As long as there are no more tokens than may be kept, a token that has not expired can be
/// refreshed: the exchange makes its own room.
pub proof fn refreshing_makes_its_own_room(
    tokens: Tokens,
    config: &Config,
    refresh_token: Seq<char>,
    now: i64,
)
    requires
        is_within_capacity(tokens, config),
        tokens.contains_key(refresh_token),
        tokens[refresh_token].exp > now,
    ensures
        service::is_refreshable(tokens, config, refresh_token, now),
{
    live_is_no_larger(tokens, now);
}

/// A refresh token works once: whatever the answer to a refresh with it was, any later refresh
/// with it is refused as unknown, unless chance made the new token the same.
pub proof fn refresh_token_works_once(
    tokens: Tokens,
    config: &Config,
    refresh_token: Seq<char>,
    now: i64,
    jti: Seq<char>,
    new_refresh_token: Seq<char>,
    later: i64,
    later_jti: Seq<char>,
    later_refresh_token: Seq<char>,
)
    requires
        new_refresh_token != refresh_token,
    ensures
        service::refresh(
            service::refresh(tokens, config, refresh_token, now, jti, new_refresh_token).1,
            config,
            refresh_token,
            later,
            later_jti,
            later_refresh_token,
        ).0 == TokenAnswer::Err(service::unknown_refresh_token()),
{
}

/// A refresh token that has expired is refused as unknown.
pub proof fn expired_refresh_token_is_unknown(
    tokens: Tokens,
    config: &Config,
    refresh_token: Seq<char>,
    now: i64,
    jti: Seq<char>,
    new_refresh_token: Seq<char>,
)
    requires
        tokens.contains_key(refresh_token),
        tokens[refresh_token].exp <= now,
    ensures
        service::refresh(tokens, config, refresh_token, now, jti, new_refresh_token) == (
            TokenAnswer::Err(service::unknown_refresh_token()),
            store::live(tokens, now),
        ),
{
}

/// A refresh token that was issued can be exchanged until it expires, for tokens of the same
/// subject.
pub proof fn issued_token_can_be_refreshed(
    tokens: Tokens,
    config: &Config,
    subject: Seq<char>,
    now: i64,
    jti: Seq<char>,
    refresh_token: Seq<char>,
    later: i64,
)
    requires
        is_within_capacity(tokens, config),
        service::expiries_fit(config, now),
        service::issue(tokens, config, subject, now, jti, refresh_token).0 is Ok,
        later < now + config.refresh_token_ttl_seconds,
    ensures
        ({
            let after = service::issue(tokens, config, subject, now, jti, refresh_token).1;
            &&& service::is_refreshable(after, config, refresh_token, later)
            &&& after[refresh_token].sub == subject
        }),
{
    capacity_is_kept(tokens, config, subject, now, jti, refresh_token);
    let after = service::issue(tokens, config, subject, now, jti, refresh_token).1;
    refreshing_makes_its_own_room(after, config, refresh_token, later);
}

/// The token that a refresh hands out is for the subject of the one that was exchanged, and
/// can itself be exchanged until it expires.
pub proof fn refreshed_token_can_be_refreshed(
    tokens: Tokens,
    config: &Config,
    refresh_token: Seq<char>,
    now: i64,
    jti: Seq<char>,
    new_refresh_token: Seq<char>,
    later: i64,
)
    requires
        is_within_capacity(tokens, config),
        service::expiries_fit(config, now),
        service::refresh(tokens, config, refresh_token, now, jti, new_refresh_token).0 is Ok,
        later < now + config.refresh_token_ttl_seconds,
    ensures
        ({
            let after = service::refresh(
                tokens,
                config,
                refresh_token,
                now,
                jti,
                new_refresh_token,
            ).1;
            &&& service::is_refreshable(after, config, new_refresh_token, later)
            &&& after[new_refresh_token].sub == tokens[refresh_token].sub
        }),
{
    capacity_is_kept(tokens, config, refresh_token, now, jti, new_refresh_token);
    let after = service::refresh(tokens, config, refresh_token, now, jti, new_refresh_token).1;
    refreshing_makes_its_own_room(after, config, new_refresh_token, later);
}

/// Until it expires, a refresh token stays as it is whatever is asked for, as long as nobody
/// exchanges it and chance does not make it anew.
pub proof fn other_refresh_tokens_stay(
    tokens: Tokens,
    config: &Config,
    token: Seq<char>,
    input: Seq<char>,
    now: i64,
    jti: Seq<char>,
    new_refresh_token: Seq<char>,
)
    requires
        tokens.contains_key(token),
        tokens[token].exp > now,
        token != new_refresh_token,
    ensures
        ({
            let after = service::issue(tokens, config, input, now, jti, new_refresh_token).1;
            after.contains_key(token) && after[token] == tokens[token]
        }),
        input != token ==> ({
            let after = service::refresh(tokens, config, input, now, jti, new_refresh_token).1;
            after.contains_key(token) && after[token] == tokens[token]
        }),
{
}

/// A request for tokens that is refused changes nothing but that expired tokens may be gone.
pub proof fn refused_issue_changes_nothing(
    tokens: Tokens,
    config: &Config,
    subject: Seq<char>,
    now: i64,
    jti: Seq<char>,
    refresh_token: Seq<char>,
)
    requires
        service::issue(tokens, config, subject, now, jti, refresh_token).0 is Err,
    ensures
        store::live(service::issue(tokens, config, subject, now, jti, refresh_token).1, now)
            == store::live(tokens, now),
{
    removing_expired_tokens_twice(tokens, now, now);
}

/// An identity token that was issued at `now` validates, and with the claims that it was issued
/// with, until the leeway after its expiry has passed; afterwards it is refused.
pub proof fn issued_id_token_validates(
    config: &Config,
    id_token: Seq<char>,
    subject: Seq<char>,
    now: i64,
    jti: Seq<char>,
    later: u64,
)
    requires
        service::fits(now, config.id_token_ttl_seconds),
        0 <= now + config.id_token_ttl_seconds,
        claims::LEEWAY_SECONDS <= later,
        claims::is_token_of(config, id_token, service::claims_at(config, subject, now, jti)),
    ensures
        service::validate(config, id_token, later) == if later <= now + config.id_token_ttl_seconds
            + claims::LEEWAY_SECONDS {
            service::ValidationAnswer::Ok(
                (
                    reply::OK,
                    service::ValidateTokenResponseView {
                        valid: true,
                        claims: claims::IdTokenClaimsView {
                            iss: config.issuer@,
                            aud: config.audience@,
                            sub: subject,
                            iat: now,
                            exp: (now + config.id_token_ttl_seconds) as i64,
                            jti,
                        },
                    },
                ),
            )
        } else {
            service::ValidationAnswer::Err(
                reply::refusal(reply::UNAUTHORIZED, "invalid_token"@, "id_token is invalid"@),
            )
        },
{
}

/// An identity token from one service is refused by another that has another issuer or another
/// audience, whatever its secret, or with whose secret the token is not signed.
pub proof fn id_token_of_another_service_is_refused(
    config: &Config,
    other: &Config,
    id_token: Seq<char>,
    claims: claims::IdTokenClaimsView,
    now: u64,
)
    requires
        claims::is_token_of(config, id_token, claims),
        claims.iss == config.issuer@,
        claims.aud == config.audience@,
        other.issuer@ != config.issuer@ || other.audience@ != config.audience@
            || !claims::hs256_signed(id_token, other.signing_secret@),
    ensures
        service::validate(other, id_token, now) == service::ValidationAnswer::Err(
            reply::refusal(reply::UNAUTHORIZED, "invalid_token"@, "id_token is invalid"@),
        ),
{
}

/// Identity tokens that make different claims are different, whoever signed them.
pub proof fn id_tokens_with_different_claims_differ(
    config: &Config,
    id_token: Seq<char>,
    claims: claims::IdTokenClaimsView,
    other: &Config,
    other_token: Seq<char>,
    other_claims: claims::IdTokenClaimsView,
)
    requires
        claims::is_token_of(config, id_token, claims),
        claims::issued_token(other, other_claims) == Ok::<Seq<char>, Seq<char>>(other_token),
        claims != other_claims,
    ensures
        id_token != other_token,
{
}

/// Identity tokens that are issued alike but under different identifiers are different, and
/// their claims differ in the identifier alone.
pub proof fn id_tokens_with_different_identifiers_differ(
    config: &Config,
    sub: Seq<char>,
    iat: i64,
    exp: i64,
    jti: Seq<char>,
    id_token: Seq<char>,
    other_jti: Seq<char>,
    other_token: Seq<char>,
)
    requires
        claims::is_token_of(
            config,
            id_token,
            claims::issued_claims(config, sub, iat, exp, jti),
        ),
        claims::issued_token(config, claims::issued_claims(config, sub, iat, exp, other_jti))
            == Ok::<Seq<char>, Seq<char>>(other_token),
        jti != other_jti,
    ensures
        id_token != other_token,
        claims::issued_claims(config, sub, iat, exp, other_jti) == (claims::IdTokenClaimsView {
            jti: other_jti,
            ..claims::issued_claims(config, sub, iat, exp, jti)
        }),
{
    let claims = claims::issued_claims(config, sub, iat, exp, jti);
    let other_claims = claims::issued_claims(config, sub, iat, exp, other_jti);
    assert(claims.jti != other_claims.jti);
    id_tokens_with_different_claims_differ(
        config,
        id_token,
        claims,
        config,
        other_token,
        other_claims,
    );
}

/// A token that is found to make claims is signed with the secret, from the issuer and for the
/// audience, and had not expired by more than the leeway at a second that the clock showed.
pub proof fn verified_token_has_not_expired(
    config: &Config,
    id_token: Seq<char>,
    now: u64,
    claims: claims::IdTokenClaimsView,
)
    requires
        service::is_verified(config, id_token, now, Some(Ok(claims))),
    ensures
        fresh::is_clock_second(now),
        60 <= now <= claims.exp + 60,
        claims.iss == config.issuer@,
        claims.aud == config.audience@,
        claims::hs256_signed(id_token, config.signing_secret@),
        claims::token_claims(id_token) == Some(claims),
        !text::is_blank(id_token),
{
}

/// A token that is judged at a second more than the leeway after its expiry is refused, whatever
/// it is and whoever made it.
pub proof fn expired_id_token_is_refused(
    config: &Config,
    id_token: Seq<char>,
    now: u64,
    claims: claims::IdTokenClaimsView,
    verified: Option<Result<claims::IdTokenClaimsView, Seq<char>>>,
    answer: service::ValidationAnswer,
)
    requires
        !text::is_blank(id_token),
        claims::token_claims(id_token) == Some(claims),
        claims.exp + 60 < now,
        service::is_verified(config, id_token, now, verified),
        service::is_validated(config, id_token, now, answer),
    ensures
        fresh::is_clock_second(now),
        verified is Some,
        verified->0 is Err,
        answer == service::ValidationAnswer::Err(
            (
                401,
                reply::ErrorResponseView {
                    error: "invalid_token"@,
                    message: "id_token is invalid"@,
                },
            ),
        ),
{
}

/// What validating answers: 400 for a blank token, 401 for one that is refused or whose claims
/// cannot be read, and otherwise 200 with the claims that the token makes.
pub proof fn validation_is_answered(
    config: &Config,
    id_token: Seq<char>,
    now: u64,
    answer: service::ValidationAnswer,
)
    requires
        service::is_validated(config, id_token, now, answer),
    ensures
        match answer {
            Ok((status, body)) => {
                &&& status == 200
                &&& body.valid
                &&& !text::is_blank(id_token)
                &&& claims::token_claims(id_token) == Some(body.claims)
                &&& claims::hs256_refusal(
                    id_token,
                    config.signing_secret@,
                    config.issuer@,
                    config.audience@,
                    now,
                ) is None
            },
            Err((status, body)) => if text::is_blank(id_token) {
                &&& status == 400
                &&& body.error == "invalid_request"@
                &&& body.message == "id_token cannot be empty"@
            } else {
                &&& status == 401
                &&& body.error == "invalid_token"@
                &&& body.message == "id_token is invalid"@
                &&& claims::token_claims(id_token) is None || claims::hs256_refusal(
                    id_token,
                    config.signing_secret@,
                    config.issuer@,
                    config.audience@,
                    now,
                ) is Some
            },
        },
{
}

/// What verifying hands on: the error of a token that is refused, and otherwise its claims.
pub proof fn verification_hands_on_the_refusal(
    config: &Config,
    id_token: Seq<char>,
    now: u64,
    verified: Option<Result<claims::IdTokenClaimsView, Seq<char>>>,
)
    requires
        service::is_verified(config, id_token, now, verified),
    ensures
        verified is None <==> text::is_blank(id_token),
        !text::is_blank(id_token) ==> ({
            let refusal = claims::hs256_refusal(
                id_token,
                config.signing_secret@,
                config.issuer@,
                config.audience@,
                now,
            );
            &&& refusal is Some ==> verified->0 == Err::<claims::IdTokenClaimsView, Seq<char>>(
                refusal->0,
            )
            &&& refusal is None && claims::token_claims(id_token) is Some ==> verified->0
                == Ok::<claims::IdTokenClaimsView, Seq<char>>(claims::token_claims(id_token)->0)
            &&& refusal is None && claims::token_claims(id_token) is None ==> verified->0 is Err
        }),
{
}

/// What issuing hands out is new, is for the subject, and lives as long as the settings say.
pub proof fn issued_tokens_are_new_and_live_as_long_as_set(
    tokens: Tokens,
    config: &Config,
    subject: Seq<char>,
    now: i64,
    jti: Seq<char>,
    refresh_token: Seq<char>,
    status: u16,
    body: reply::TokenResponseView,
    after: Tokens,
)
    requires
        service::is_issued(
            tokens,
            config,
            subject,
            now,
            jti,
            refresh_token,
            Some(Ok((status, body))),
            after,
        ),
    ensures
        body.refresh_token == refresh_token,
        status == 200,
        body.token_type == "Bearer"@,
        fresh::is_clock_reading(now),
        fresh::are_separate_draws(jti, body.refresh_token),
        fresh::is_drawn(body.refresh_token),
        claims::hs256_signed(body.id_token, config.signing_secret@),
        body.expires_in == config.id_token_ttl_seconds,
        claims::token_claims(body.id_token) == Some(
            (claims::IdTokenClaimsView {
                iss: config.issuer@,
                aud: config.audience@,
                sub: subject,
                iat: now,
                exp: (now + body.expires_in) as i64,
                jti,
            }),
        ),
        i64::MIN <= now + body.expires_in <= i64::MAX,
        after.contains_key(body.refresh_token),
        after[body.refresh_token].sub == subject,
        after[body.refresh_token].exp - now == config.refresh_token_ttl_seconds,
{
    fresh::draws_come_from_the_generator(jti, refresh_token);
}

/// What a refresh hands out is new, is for the subject of the token that was exchanged, and lives
/// as long as the settings say; and the token that was exchanged had not expired and is gone,
/// unless chance drew it again.
pub proof fn refreshed_tokens_are_new_and_live_as_long_as_set(
    tokens: Tokens,
    config: &Config,
    refresh_token: Seq<char>,
    now: i64,
    jti: Seq<char>,
    new_refresh_token: Seq<char>,
    status: u16,
    body: reply::TokenResponseView,
    after: Tokens,
)
    requires
        service::is_refreshed(
            tokens,
            config,
            refresh_token,
            now,
            jti,
            new_refresh_token,
            Some(Ok((status, body))),
            after,
        ),
    ensures
        body.refresh_token == new_refresh_token,
        status == 200,
        body.token_type == "Bearer"@,
        fresh::is_clock_reading(now),
        fresh::are_separate_draws(jti, body.refresh_token),
        fresh::is_drawn(body.refresh_token),
        claims::hs256_signed(body.id_token, config.signing_secret@),
        body.expires_in == config.id_token_ttl_seconds,
        tokens.contains_key(refresh_token),
        tokens[refresh_token].exp > now,
        claims::token_claims(body.id_token) == Some(
            (claims::IdTokenClaimsView {
                iss: config.issuer@,
                aud: config.audience@,
                sub: tokens[refresh_token].sub,
                iat: now,
                exp: (now + body.expires_in) as i64,
                jti,
            }),
        ),
        i64::MIN <= now + body.expires_in <= i64::MAX,
        after.contains_key(body.refresh_token),
        after[body.refresh_token].sub == tokens[refresh_token].sub,
        after[body.refresh_token].exp - now == config.refresh_token_ttl_seconds,
        body.refresh_token != refresh_token ==> !after.contains_key(refresh_token),
{
    fresh::draws_come_from_the_generator(jti, new_refresh_token);
}

/// The lifetime that an answer states is the time from the issue to the expiry of the identity
/// token in it, whether it was issued or refreshed.
pub proof fn stated_lifetime_is_that_of_the_id_token(
    tokens: Tokens,
    config: &Config,
    input: Seq<char>,
    now: i64,
    jti: Seq<char>,
    refresh_token: Seq<char>,
    body: reply::TokenResponseView,
    made: claims::IdTokenClaimsView,
)
    requires
        service::expiries_fit(config, now),
        claims::is_token_of(config, body.id_token, made),
        service::issue(tokens, config, input, now, jti, refresh_token).0 == TokenAnswer::Ok(
            (200, body),
        ) || service::refresh(tokens, config, input, now, jti, refresh_token).0 == TokenAnswer::Ok(
            (200, body),
        ),
    ensures
        body.expires_in == made.exp - made.iat,
        body.expires_in == config.id_token_ttl_seconds,
        made.iat == now,
        made.jti == jti,
{
}

/// A refused request for tokens is refused for a reason: the subject is blank, and then nothing
/// changes, or there is no room among the tokens that have not expired, and then only those that
/// have expired go.
pub proof fn issuing_is_refused_for_a_reason(
    tokens: Tokens,
    config: &Config,
    subject: Seq<char>,
    now: i64,
    jti: Seq<char>,
    refresh_token: Seq<char>,
    status: u16,
    body: reply::ErrorResponseView,
    after: Tokens,
)
    requires
        service::is_issued(
            tokens,
            config,
            subject,
            now,
            jti,
            refresh_token,
            Some(Err((status, body))),
            after,
        ),
    ensures
        if text::is_blank(subject) {
            &&& status == 400
            &&& body.error == "invalid_request"@
            &&& body.message == "subject cannot be empty"@
            &&& after == tokens
        } else {
            &&& status == 503
            &&& body.error == "server_overloaded"@
            &&& body.message == "refresh token store is full"@
            &&& store::live(tokens, now).len() >= config.refresh_store_max_size
            &&& after == store::live(tokens, now)
        },
{
}

/// A refused refresh is refused for a reason: the token is not there or has expired, and then only
/// the tokens that have expired go, or there is no room even with the token gone.
pub proof fn refreshing_is_refused_for_a_reason(
    tokens: Tokens,
    config: &Config,
    refresh_token: Seq<char>,
    now: i64,
    jti: Seq<char>,
    new_refresh_token: Seq<char>,
    status: u16,
    body: reply::ErrorResponseView,
    after: Tokens,
)
    requires
        service::is_refreshed(
            tokens,
            config,
            refresh_token,
            now,
            jti,
            new_refresh_token,
            Some(Err((status, body))),
            after,
        ),
    ensures
        if tokens.contains_key(refresh_token) && tokens[refresh_token].exp > now {
            &&& status == 503
            &&& body.error == "server_overloaded"@
            &&& body.message == "refresh token store is full"@
            &&& store::live(tokens, now).len() > config.refresh_store_max_size
            &&& after == store::live(tokens, now).remove(refresh_token)
        } else {
            &&& status == 401
            &&& body.error == "invalid_grant"@
            &&& body.message == "refresh token is unknown"@
            &&& after == store::live(tokens, now)
        },
{
}

/// There is no answer only where a lifetime that the settings give cannot be added to the time that
/// the clock showed, and then nothing changes.
pub proof fn no_answer_only_where_an_expiry_does_not_fit(
    tokens: Tokens,
    config: &Config,
    input: Seq<char>,
    now: i64,
    jti: Seq<char>,
    refresh_token: Seq<char>,
    answer: Option<TokenAnswer>,
    after: Tokens,
)
    requires
        service::is_issued(tokens, config, input, now, jti, refresh_token, answer, after)
            || service::is_refreshed(tokens, config, input, now, jti, refresh_token, answer, after),
    ensures
        answer is None ==> after == tokens,
        answer is None ==> !(i64::MIN <= now + config.id_token_ttl_seconds <= i64::MAX) || !(
        i64::MIN <= now + config.refresh_token_ttl_seconds <= i64::MAX),
        fresh::is_clock_reading(now),
{
}

/// Answers are taken with all that they hold.
pub proof fn answers_are_taken_whole(
    answer: Result<(u16, reply::TokenResponse), (u16, reply::ErrorResponse)>,
    validated: service::ValidateTokenResponse,
    page: metrics::MetricsPage,
    verified: claims::IdTokenClaims,
    error: String,
    bytes: Vec<u8>,
)
    ensures
        service::optional_answer(Some(answer)) == Some(reply::answer(answer)),
        service::optional_answer(None) is None,
        validated@.valid == validated.valid,
        validated@.claims == validated.claims@,
        page@.content_type == page.content_type@,
        page@.payload == page.payload@,
        service::found(Some(Ok(verified))) == Some(
            Ok::<claims::IdTokenClaimsView, Seq<char>>(verified@),
        ),
        service::found(Some(Err(error))) == Some(
            Err::<claims::IdTokenClaimsView, Seq<char>>(error@),
        ),
        service::found(None) is None,
        metrics::bytes_result(Ok(bytes)) == Ok::<Seq<u8>, Seq<char>>(bytes@),
        metrics::bytes_result(Err(error)) == Err::<Seq<u8>, Seq<char>>(error@),
{
}

/// Removing expired tokens keeps every token whose expiry lies ahead as it is, and keeps no other.
pub proof fn cleanup_keeps_what_has_not_expired(tokens: Tokens, now: i64, token: Seq<char>)
    ensures
        tokens.contains_key(token) && now < tokens[token].exp ==> store::live(
            tokens,
            now,
        ).contains_key(token) && store::live(tokens, now)[token] == tokens[token],
        !tokens.contains_key(token) || tokens[token].exp <= now ==> !store::live(
            tokens,
            now,
        ).contains_key(token),
{
}

/// What issuing leaves in the store: the tokens that have not expired, as they were, and the new
/// one; nothing else.
pub proof fn issuing_enters_one_token(
    tokens: Tokens,
    config: &Config,
    subject: Seq<char>,
    now: i64,
    jti: Seq<char>,
    refresh_token: Seq<char>,
    token: Seq<char>,
)
    requires
        service::issue(tokens, config, subject, now, jti, refresh_token).0 is Ok,
        token != refresh_token,
    ensures
        ({
            let after = service::issue(tokens, config, subject, now, jti, refresh_token).1;
            &&& after.contains_key(refresh_token)
            &&& after.contains_key(token) <==> tokens.contains_key(token) && tokens[token].exp > now
            &&& after.contains_key(token) ==> after[token] == tokens[token]
        }),
{
}

/// What a refresh leaves in the store: the tokens that have not expired, as they were, but for the
/// one that was exchanged, and the new one; nothing else.
pub proof fn refreshing_exchanges_one_token(
    tokens: Tokens,
    config: &Config,
    refresh_token: Seq<char>,
    now: i64,
    jti: Seq<char>,
    new_refresh_token: Seq<char>,
    token: Seq<char>,
)
    requires
        service::refresh(tokens, config, refresh_token, now, jti, new_refresh_token).0 is Ok,
        token != new_refresh_token,
    ensures
        ({
            let after = service::refresh(
                tokens,
                config,
                refresh_token,
                now,
                jti,
                new_refresh_token,
            ).1;
            &&& after.contains_key(new_refresh_token)
            &&& after.contains_key(token) <==> tokens.contains_key(token) && tokens[token].exp > now
                && token != refresh_token
            &&& after.contains_key(token) ==> after[token] == tokens[token]
        }),
{
}

/// A refresh token that is not there stays away whatever is asked for, as long as chance does
/// not make it anew.
pub proof fn absent_refresh_token_stays_away(
    tokens: Tokens,
    config: &Config,
    token: Seq<char>,
    input: Seq<char>,
    now: i64,
    jti: Seq<char>,
    new_refresh_token: Seq<char>,
)
    requires
        !tokens.contains_key(token),
        token != new_refresh_token,
    ensures
        !store::live(tokens, now).contains_key(token),
        !service::issue(tokens, config, input, now, jti, new_refresh_token).1.contains_key(token),
        !service::refresh(tokens, config, input, now, jti, new_refresh_token).1.contains_key(token),
{
}

/// A request that starts and finishes leaves the number of requests under way as it was.
pub proof fn finished_request_is_not_in_flight(in_flight: i64)
    ensures
        metrics::previous_i64(metrics::next_i64(in_flight)) == in_flight,
{
}

/// A request is counted once, among the requests of its kind, and changes nothing about the others.
pub proof fn request_is_counted_among_its_kind(
    requests: Map<u64, metrics::CountedSeries>,
    durations: Map<u64, metrics::TimedSeries>,
    values: Seq<Seq<char>>,
    nanos: u64,
    other: u64,
)
    requires
        other != metrics::series_key(values),
    ensures
        ({
            let key = metrics::series_key(values);
            let after = metrics::counted(requests, values);
            &&& after.contains_key(key)
            &&& after[key].count == if requests.contains_key(key) {
                metrics::next_u64(requests[key].count)
            } else {
                1
            }
            &&& after.contains_key(other) == requests.contains_key(other)
            &&& after[other] == requests[other]
        }),
        ({
            let key = metrics::series_key(values);
            let after = metrics::observed(durations, values, nanos);
            &&& after.contains_key(key)
            &&& after[key].total == if durations.contains_key(key) {
                durations[key].total + 1
            } else {
                1
            }
            &&& after.contains_key(other) == durations.contains_key(other)
            &&& after[other] == durations[other]
        }),
{
}

/// A finished request is counted and timed under its method, its path and the decimal digits of its
/// status, in this order.
pub proof fn request_is_labelled_with_what_it_was(method: Seq<char>, path: Seq<char>, status: u16)
    ensures
        ({
            let values = metrics::request_values(method, path, status);
            &&& values.len() == 3
            &&& values[0] == method
            &&& values[1] == path
            &&& text::is_digits(values[2])
            &&& text::digits_value(values[2]) == status
        }),
{
    text::decimal_writes_the_number(status as nat);
}

/// Requests that differ in method, path or status have different label values.
pub proof fn different_requests_have_different_labels(
    method: Seq<char>,
    path: Seq<char>,
    status: u16,
    other_method: Seq<char>,
    other_path: Seq<char>,
    other_status: u16,
)
    requires
        method != other_method || path != other_path || status != other_status,
    ensures
        metrics::request_values(method, path, status) != metrics::request_values(
            other_method,
            other_path,
            other_status,
        ),
{
    request_is_labelled_with_what_it_was(method, path, status);
    request_is_labelled_with_what_it_was(other_method, other_path, other_status);
}

/// A series keeps the label values that it was made for, and counts and times up by one.
pub proof fn series_count_up_by_one(
    requests: Map<u64, metrics::CountedSeries>,
    durations: Map<u64, metrics::TimedSeries>,
    values: Seq<Seq<char>>,
    nanos: u64,
)
    ensures
        ({
            let key = metrics::series_key(values);
            let after = metrics::counted(requests, values)[key];
            if requests.contains_key(key) {
                &&& after.labels == requests[key].labels
                &&& requests[key].count < u64::MAX ==> after.count == requests[key].count + 1
            } else {
                after.labels == values && after.count == 1
            }
        }),
        ({
            let key = metrics::series_key(values);
            let after = metrics::observed(durations, values, nanos)[key];
            if durations.contains_key(key) {
                &&& after.labels == durations[key].labels
                &&& after.total == durations[key].total + 1
            } else {
                after.labels == values && after.total == 1
            }
        }),
{
}

/// Whether each bound has at most as many durations within it as a higher one, and none has more
/// than there are in all.
pub open spec fn is_cumulative(series: metrics::TimedSeries) -> bool {
    &&& series.within.len() == metrics::bounds().len()
    &&& forall|i: int, j: int|
        0 <= i <= j < series.within.len() ==> #[trigger] series.within[i]
            <= #[trigger] series.within[j]
    &&& forall|i: int| 0 <= i < series.within.len() ==> #[trigger] series.within[i] <= series.total
}

/// The counts of a histogram are cumulative from the start, and stay so with every duration.
pub proof fn histograms_are_cumulative(
    values: Seq<Seq<char>>,
    series: metrics::TimedSeries,
    nanos: u64,
)
    requires
        is_cumulative(series),
    ensures
        is_cumulative(metrics::unobserved(values)),
        is_cumulative(metrics::observed_by(series, nanos)),
{
    let after = metrics::observed_by(series, nanos);
    assert forall|i: int, j: int| 0 <= i <= j < after.within.len() implies #[trigger] after.within[i]
        <= #[trigger] after.within[j] by {
        assert(series.within[i] <= series.within[j]);
        assert(metrics::bounds()[i] <= metrics::bounds()[j]);
    }
}

/// A duration is counted within a bound exactly if it is no longer than the bound: five, ten, 25, 50,
/// 100, 250 and 500 milliseconds, and one, two and a half, five and ten seconds.
pub proof fn duration_is_within_the_bounds_that_it_keeps(
    series: metrics::TimedSeries,
    nanos: u64,
    i: int,
)
    requires
        0 <= i < 11,
    ensures
        metrics::bounds() =~= seq![
            5_000_000int,
            10_000_000,
            25_000_000,
            50_000_000,
            100_000_000,
            250_000_000,
            500_000_000,
            1_000_000_000,
            2_500_000_000,
            5_000_000_000,
            10_000_000_000,
        ],
        metrics::observed_by(series, nanos).within.len() == 11,
        metrics::observed_by(series, nanos).within[i] == series.within[i] + (if nanos
            <= metrics::bounds()[i] {
            1int
        } else {
            0
        }),
        metrics::observed_by(series, nanos).total == series.total + 1,
{
}

/// What is encoded as text is shown as that text, whatever it says, and an error is passed on whole.
pub proof fn rendering_changes_nothing(page: Seq<char>, bytes: Seq<u8>, error: Seq<char>)
    ensures
        metrics::rendering(Ok(vstd::utf8::encode_utf8(page))) == Ok::<Seq<char>, Seq<char>>(page),
        metrics::rendering(Err(error)) == Err::<Seq<char>, Seq<char>>("encode failed: "@ + error),
        !vstd::utf8::valid_utf8(bytes) ==> metrics::rendering(Ok(bytes)) == Err::<
            Seq<char>,
            Seq<char>,
        >("utf8 conversion failed: "@ + text::utf8_error(bytes)),
{
    vstd::utf8::encode_utf8_valid_utf8(page);
    vstd::utf8::encode_utf8_decode_utf8(page);
}

/// The page with the metrics is what rendering them gave, as plain text; if that failed, the answer
/// is an error of the server.
pub proof fn page_is_what_was_rendered(page: Seq<char>, error: Seq<char>)
    ensures
        metrics::page_answer(Ok(page)) matches Ok((status, body)) && status == 200
            && body.content_type == "text/plain; version=0.0.4"@ && body.payload == page,
        metrics::page_answer(Err(error)) matches Err((status, body)) && status == 500 && body.error
            == "server_error"@ && body.message == "failed to render metrics"@,
{
}

/// Once a request has finished, all three metrics are shown.
pub proof fn all_metrics_are_shown_after_a_request(
    before: metrics::Metrics,
    after: metrics::Metrics,
    values: Seq<Seq<char>>,
    nanos: u64,
)
    requires
        after.requests() == metrics::counted(before.requests(), values),
        after.durations() == metrics::observed(before.durations(), values, nanos),
    ensures
        after.shown() == seq![
            metrics::exposed(
                metrics::durations_description(),
                metrics::Kind::Histogram,
                after.durations().len(),
            ),
            metrics::exposed(metrics::in_flight_description(), metrics::Kind::Gauge, 1),
            metrics::exposed(
                metrics::requests_description(),
                metrics::Kind::Counter,
                after.requests().len(),
            ),
        ],
{
    assert(after.requests().contains_key(metrics::series_key(values)));
    assert(after.durations().contains_key(metrics::series_key(values)));
}

/// A finished request shows on the next page: under its label values there is one request more,
/// and one duration more, than there was before, as long as numbers are shown exactly. That goes
/// for label values that do not share their series with others that came before them.
pub proof fn finished_request_is_shown(
    before: metrics::Metrics,
    after: metrics::Metrics,
    values: Seq<Seq<char>>,
    nanos: u64,
    families: Seq<MetricFamily>,
)
    requires
        after.requests() == metrics::counted(before.requests(), values),
        after.durations() == metrics::observed(before.durations(), values, nanos),
        after.is_shown_by(families),
        ({
            let key = metrics::series_key(values);
            &&& before.requests().contains_key(key) ==> before.requests()[key].labels == values
            &&& before.durations().contains_key(key) ==> before.durations()[key].labels == values
            &&& metrics::is_exact(after.requests()[key].count as int)
            &&& metrics::is_exact(after.durations()[key].total as int)
        }),
    ensures
        ({
            let key = metrics::series_key(values);
            let counts = metrics::exposed_counts(families);
            let durations = metrics::exposed_durations(families);
            &&& counts.contains_key(values)
            &&& counts[values] == if before.requests().contains_key(key) {
                metrics::next_u64(before.requests()[key].count)
            } else {
                1
            }
            &&& durations.contains_key(values)
            &&& durations[values].1 == if before.durations().contains_key(key) {
                before.durations()[key].total + 1
            } else {
                1
            }
        }),
{
}

} // verus!
