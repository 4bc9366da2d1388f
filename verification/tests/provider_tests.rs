use session_auth::provider::{
    exchange_request, grant_from_response, interpret_reply, is_success, AthleteSummary,
    ExchangeReply, ExchangeRequest, ProfileSummary, ProviderConfig, ProviderError, ProviderGrant,
    TokenResponse, GRANT_TYPE,
};

fn response(expires_at: i64) -> TokenResponse {
    TokenResponse {
        token_type: "Bearer".to_string(),
        expires_at,
        expires_in: 21600,
        refresh_token: "refresh-1".to_string(),
        access_token: "access-1".to_string(),
        athlete: AthleteSummary {
            id: 4242,
            username: "marianne".to_string(),
            firstname: "Marianne".to_string(),
            lastname: "V".to_string(),
            profile_medium: "https://example.test/m.jpg".to_string(),
        },
    }
}

fn grant(expires_at: i64) -> ProviderGrant {
    ProviderGrant {
        access_token: "access-1".to_string(),
        refresh_token: "refresh-1".to_string(),
        access_expires_at: expires_at,
        profile: ProfileSummary { account_id: 4242, display_name: "marianne".to_string() },
    }
}

#[test]
fn the_grant_type_is_fixed() {
    assert_eq!(GRANT_TYPE, "authorization_code");
}

#[test]
fn exchange_request_carries_the_registration_and_the_code() {
    let config = ProviderConfig { client_id: 9001, client_secret: "hush".to_string() };
    let expected = ExchangeRequest {
        client_id: 9001,
        client_secret: "hush".to_string(),
        code: "code-7".to_string(),
        grant_type: "authorization_code".to_string(),
    };
    assert_eq!(exchange_request(&config, "code-7"), expected);
}

#[test]
fn is_success_holds_from_200_to_299() {
    assert!(!is_success(0));
    assert!(!is_success(199));
    assert!(is_success(200));
    assert!(is_success(204));
    assert!(is_success(299));
    assert!(!is_success(300));
    assert!(!is_success(401));
    assert!(!is_success(500));
    assert!(!is_success(u16::MAX));
}

#[test]
fn a_transport_failure_is_unavailable() {
    assert_eq!(interpret_reply(ExchangeReply::Unreachable), Err(ProviderError::Unavailable));
}

#[test]
fn a_status_that_is_no_success_is_rejected_with_it() {
    let refused = ExchangeReply::Answered { status: 401, body: None };
    assert_eq!(interpret_reply(refused), Err(ProviderError::Rejected(401)));
    let broken = ExchangeReply::Answered { status: 503, body: Some(response(1_700_000_000)) };
    assert_eq!(interpret_reply(broken), Err(ProviderError::Rejected(503)));
    let moved = ExchangeReply::Answered { status: 302, body: None };
    assert_eq!(interpret_reply(moved), Err(ProviderError::Rejected(302)));
}

#[test]
fn a_body_that_could_not_be_read_is_invalid() {
    let reply = ExchangeReply::Answered { status: 200, body: None };
    assert_eq!(interpret_reply(reply), Err(ProviderError::ResponseInvalid));
}

#[test]
fn an_expiry_that_is_no_instant_is_invalid() {
    let late = ExchangeReply::Answered { status: 200, body: Some(response(i64::MAX)) };
    assert_eq!(interpret_reply(late), Err(ProviderError::ResponseInvalid));
    let early = ExchangeReply::Answered { status: 200, body: Some(response(i64::MIN)) };
    assert_eq!(interpret_reply(early), Err(ProviderError::ResponseInvalid));
}

#[test]
fn a_good_answer_gives_the_grant() {
    let reply = ExchangeReply::Answered { status: 200, body: Some(response(1_700_000_000)) };
    assert_eq!(interpret_reply(reply), Ok(grant(1_700_000_000)));
    let created = ExchangeReply::Answered { status: 201, body: Some(response(0)) };
    assert_eq!(interpret_reply(created), Ok(grant(0)));
    let past = ExchangeReply::Answered { status: 200, body: Some(response(-86_400)) };
    assert_eq!(interpret_reply(past), Ok(grant(-86_400)));
}

#[test]
fn the_grant_keeps_the_absolute_expiry_and_the_user_name() {
    let outcome = grant_from_response(response(1_431_648_000), true);
    let grant = outcome.unwrap();
    assert_eq!(grant.access_expires_at, 1_431_648_000);
    assert_eq!(grant.profile.account_id, 4242);
    assert_eq!(grant.profile.display_name, "marianne");
    assert_eq!(grant.access_token, "access-1");
    assert_eq!(grant.refresh_token, "refresh-1");
}

#[test]
fn a_response_without_an_instant_gives_no_grant() {
    assert_eq!(
        grant_from_response(response(1_431_648_000), false),
        Err(ProviderError::ResponseInvalid)
    );
}
