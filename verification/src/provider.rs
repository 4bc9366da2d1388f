//! The provider client: what is sent to the identity provider's token
//! endpoint, and what its answer amounts to.
//!
//! The call itself is made by the caller. This module builds the request and
//! turns the caller's account of the answer into a grant or an error.

use vstd::prelude::*;

verus! {

/// The grant type of an authorization-code exchange.
pub const GRANT_TYPE: &'static str = "authorization_code";

/// The application's registration with the identity provider.
#[derive(Debug, PartialEq, Eq)]
pub struct ProviderConfig {
    pub client_id: i32,
    pub client_secret: String,
}

/// The body of a token-exchange request.
#[derive(Debug, PartialEq, Eq)]
pub struct ExchangeRequest {
    pub client_id: i32,
    pub client_secret: String,
    pub code: String,
    pub grant_type: String,
}

/// A token-exchange request as a mathematical value.
pub struct ExchangeRequestModel {
    pub client_id: i32,
    pub client_secret: Seq<char>,
    pub code: Seq<char>,
    pub grant_type: Seq<char>,
}

impl View for ExchangeRequest {
    type V = ExchangeRequestModel;

    open spec fn view(&self) -> ExchangeRequestModel {
        ExchangeRequestModel {
            client_id: self.client_id,
            client_secret: self.client_secret@,
            code: self.code@,
            grant_type: self.grant_type@,
        }
    }
}

/// The profile object nested in the provider's answer.
#[derive(Debug, PartialEq, Eq)]
pub struct AthleteSummary {
    pub id: i64,
    pub username: String,
    pub firstname: String,
    pub lastname: String,
    pub profile_medium: String,
}

/// The body of the provider's answer to a successful exchange.
#[derive(Debug, PartialEq, Eq)]
pub struct TokenResponse {
    pub token_type: String,
    pub expires_at: i64,
    pub expires_in: i64,
    pub refresh_token: String,
    pub access_token: String,
    pub athlete: AthleteSummary,
}

/// What is kept of the provider's profile: the external account id and the
/// name to display.
#[derive(Debug, PartialEq, Eq)]
pub struct ProfileSummary {
    pub account_id: i64,
    pub display_name: String,
}

/// The result of a successful exchange: the tokens, the instant at which
/// the access token expires, in seconds since the epoch, and the profile.
#[derive(Debug, PartialEq, Eq)]
pub struct ProviderGrant {
    pub access_token: String,
    pub refresh_token: String,
    pub access_expires_at: i64,
    pub profile: ProfileSummary,
}

/// A grant as a mathematical value.
pub struct ProviderGrantModel {
    pub access_token: Seq<char>,
    pub refresh_token: Seq<char>,
    pub access_expires_at: i64,
    pub account_id: i64,
    pub display_name: Seq<char>,
}

impl View for ProviderGrant {
    type V = ProviderGrantModel;

    open spec fn view(&self) -> ProviderGrantModel {
        ProviderGrantModel {
            access_token: self.access_token@,
            refresh_token: self.refresh_token@,
            access_expires_at: self.access_expires_at,
            account_id: self.profile.account_id,
            display_name: self.profile.display_name@,
        }
    }
}

/// Why an exchange gave no grant.
#[derive(Clone, Copy, Debug, PartialEq, Eq, Structural)]
pub enum ProviderError {
    /// The provider could not be reached.
    Unavailable,
    /// The provider answered with this status, which is not a success.
    Rejected(u16),
    /// The provider's answer could not be read as a grant.
    ResponseInvalid,
}

/// The caller's account of one exchange.
#[derive(Debug, PartialEq, Eq)]
pub enum ExchangeReply {
    /// The request failed in transport.
    Unreachable,
    /// The provider answered with `status`; `body` is the answer's body
    /// where it could be read as a token response.
    Answered { status: u16, body: Option<TokenResponse> },
}

/// Whether `chrono::DateTime::from_timestamp` makes an instant of this
/// number of seconds since the epoch.
pub uninterp spec fn utc_instant_exists(seconds: i64) -> bool;

/// Whether a status is a success: 200 to 299.
pub open spec fn is_success_status(status: u16) -> bool {
    200 <= status <= 299
}

/// The request that exchanges `code` under `config`.
pub open spec fn request_for(config: ProviderConfig, code: Seq<char>) -> ExchangeRequestModel {
    ExchangeRequestModel {
        client_id: config.client_id,
        client_secret: config.client_secret@,
        code,
        grant_type: GRANT_TYPE@,
    }
}

/// The grant that a token response holds: its tokens, its absolute expiry,
/// and the id and user name of its profile.
pub open spec fn grant_of(body: TokenResponse) -> ProviderGrantModel {
    ProviderGrantModel {
        access_token: body.access_token@,
        refresh_token: body.refresh_token@,
        access_expires_at: body.expires_at,
        account_id: body.athlete.id,
        display_name: body.athlete.username@,
    }
}

/// What a token response amounts to, given whether its expiry is an instant.
pub open spec fn response_outcome(body: TokenResponse, expiry_exists: bool) -> Result<
    ProviderGrantModel,
    ProviderError,
> {
    if expiry_exists {
        Ok(grant_of(body))
    } else {
        Err(ProviderError::ResponseInvalid)
    }
}

/// What an exchange amounts to: a transport failure is `Unavailable`, a
/// status that is no success is `Rejected` with that status, a body that
/// could not be read or whose expiry is no instant is `ResponseInvalid`, and
/// anything else is the grant in the body.
pub open spec fn exchange_outcome(reply: ExchangeReply) -> Result<
    ProviderGrantModel,
    ProviderError,
> {
    match reply {
        ExchangeReply::Unreachable => Err(ProviderError::Unavailable),
        ExchangeReply::Answered { status, body } => if !is_success_status(status) {
            Err(ProviderError::Rejected(status))
        } else {
            match body {
                None => Err(ProviderError::ResponseInvalid),
                Some(response) => response_outcome(
                    response,
                    utc_instant_exists(response.expires_at),
                ),
            }
        },
    }
}

/// A grant or an error as a mathematical value.
pub open spec fn outcome_view(outcome: Result<ProviderGrant, ProviderError>) -> Result<
    ProviderGrantModel,
    ProviderError,
> {
    match outcome {
        Ok(grant) => Ok(grant@),
        Err(error) => Err(error),
    }
}

/// Calls `chrono::DateTime::from_timestamp` with no nanoseconds and says
/// whether it gave an instant. Trusted: the answer is `utc_instant_exists`
/// of the seconds, that is, it depends on the seconds alone.
#[verifier::external_body]
fn utc_instant_check(seconds: i64) -> (exists: bool)
    ensures
        exists == utc_instant_exists(seconds),
{
    chrono::DateTime::from_timestamp(seconds, 0).is_some()
}

/// Builds the request that exchanges an authorization code.
pub fn exchange_request(config: &ProviderConfig, code: &str) -> (request: ExchangeRequest)
    requires
        code@.len() > 0,
    ensures
        request@ == request_for(*config, code@),
{
    ExchangeRequest {
        client_id: config.client_id,
        client_secret: config.client_secret.clone(),
        code: code.to_owned(),
        grant_type: GRANT_TYPE.to_owned(),
    }
}

/// Whether a status is a success.
pub fn is_success(status: u16) -> (success: bool)
    ensures
        success == is_success_status(status),
{
    200 <= status && status <= 299
}

/// Makes a grant of a token response whose expiry is an instant, and
/// `ResponseInvalid` of any other.
pub fn grant_from_response(body: TokenResponse, expiry_exists: bool) -> (outcome: Result<
    ProviderGrant,
    ProviderError,
>)
    ensures
        outcome_view(outcome) == response_outcome(body, expiry_exists),
{
    if expiry_exists {
        Ok(
            ProviderGrant {
                access_token: body.access_token,
                refresh_token: body.refresh_token,
                access_expires_at: body.expires_at,
                profile: ProfileSummary {
                    account_id: body.athlete.id,
                    display_name: body.athlete.username,
                },
            },
        )
    } else {
        Err(ProviderError::ResponseInvalid)
    }
}

/// Turns the account of an exchange into a grant or an error.
pub fn interpret_reply(reply: ExchangeReply) -> (outcome: Result<ProviderGrant, ProviderError>)
    ensures
        outcome_view(outcome) == exchange_outcome(reply),
{
    match reply {
        ExchangeReply::Unreachable => Err(ProviderError::Unavailable),
        ExchangeReply::Answered { status, body } => {
            if !is_success(status) {
                Err(ProviderError::Rejected(status))
            } else {
                match body {
                    None => Err(ProviderError::ResponseInvalid),
                    Some(response) => {
                        let expiry_exists = utc_instant_check(response.expires_at);
                        grant_from_response(response, expiry_exists)
                    },
                }
            }
        },
    }
}

} // verus!
