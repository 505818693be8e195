//! What the service answers.
use vstd::prelude::*;

verus! {

/// Success.
pub const OK: u16 = 200;

/// The request makes no sense.
pub const BAD_REQUEST: u16 = 400;

/// The request shows no valid token.
pub const UNAUTHORIZED: u16 = 401;

/// The service failed.
pub const INTERNAL_SERVER_ERROR: u16 = 500;

/// The service has no room left.
pub const SERVICE_UNAVAILABLE: u16 = 503;

/// The body of an answer to a request that is refused.
#[derive(Debug)]
pub struct ErrorResponse {
    /// The kind of error.
    pub error: &'static str,
    /// What went wrong.
    pub message: String,
}

/// An [`ErrorResponse`] as a mathematical value.
pub struct ErrorResponseView {
    pub error: Seq<char>,
    pub message: Seq<char>,
}

impl View for ErrorResponse {
    type V = ErrorResponseView;

    open spec fn view(&self) -> ErrorResponseView {
        ErrorResponseView { error: self.error@, message: self.message@ }
    }
}

/// A refusal: its status, and the kind and the text of the error.
pub open spec fn refusal(status: u16, error: Seq<char>, message: Seq<char>) -> (
    u16,
    ErrorResponseView,
) {
    (status, ErrorResponseView { error, message })
}

/// An answer with every body taken by its view.
pub open spec fn answer<B: View>(r: Result<(u16, B), (u16, ErrorResponse)>) -> Result<
    (u16, B::V),
    (u16, ErrorResponseView),
> {
    match r {
        Ok((status, body)) => Ok((status, body@)),
        Err((status, body)) => Err((status, body@)),
    }
}

/// The refusal with this status, kind of error and message.
pub fn error_response(status: u16, error: &'static str, message: String) -> (r: (
    u16,
    ErrorResponse,
))
    ensures
        (r.0, r.1@) == refusal(status, error@, message@),
        r.0 == status,
        r.1.error@ == error@,
        r.1.message@ == message@,
{
    (status, ErrorResponse { error, message })
}

/// The body of an answer that hands out tokens.
#[derive(Debug)]
pub struct TokenResponse {
    pub token_type: &'static str,
    pub id_token: String,
    pub refresh_token: String,
    pub expires_in: i64,
}

/// A [`TokenResponse`] as a mathematical value.
pub struct TokenResponseView {
    pub token_type: Seq<char>,
    pub id_token: Seq<char>,
    pub refresh_token: Seq<char>,
    pub expires_in: i64,
}

impl View for TokenResponse {
    type V = TokenResponseView;

    open spec fn view(&self) -> TokenResponseView {
        TokenResponseView {
            token_type: self.token_type@,
            id_token: self.id_token@,
            refresh_token: self.refresh_token@,
            expires_in: self.expires_in,
        }
    }
}

/// The body of an answer that says how the service is.
#[derive(Debug)]
pub struct HealthResponse {
    pub status: &'static str,
}

/// Says that the service is up.
pub fn health() -> (r: (u16, HealthResponse))
    ensures
        r.0 == OK,
        r.0 == 200,
        r.1.status@ == "ok"@,
{
    (OK, HealthResponse { status: "ok" })
}

/// An answer is taken with its status and all that its body holds.
pub proof fn answers_are_taken_whole(
    status: u16,
    refused: ErrorResponse,
    issued: TokenResponse,
)
    ensures
        answer::<TokenResponse>(Ok((status, issued))) == Ok::<_, (u16, ErrorResponseView)>(
            (status, issued@),
        ),
        answer::<TokenResponse>(Err((status, refused))) == Err::<(u16, TokenResponseView), _>(
            (status, refused@),
        ),
        refused@.error == refused.error@,
        refused@.message == refused.message@,
        issued@.token_type == issued.token_type@,
        issued@.id_token == issued.id_token@,
        issued@.refresh_token == issued.refresh_token@,
        issued@.expires_in == issued.expires_in,
{
}

/// A refusal has the status, the kind of error and the message that it is given.
pub proof fn refusals_say_what_they_are_given(status: u16, error: Seq<char>, message: Seq<char>)
    ensures
        refusal(status, error, message).0 == status,
        refusal(status, error, message).1.error == error,
        refusal(status, error, message).1.message == message,
{
}

} // verus!
