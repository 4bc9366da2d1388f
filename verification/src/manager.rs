//! The session manager: what a login request and a logout request lead to.
//!
//! A login is decided in two steps with the exchange between them, so that
//! whoever talks to the identity provider may do so in its own way:
//! `plan_login` says what the request calls for, and `complete_login` says
//! what the provider's answer leads to. `login` runs both around a provider
//! given as a function.

use crate::carrier::{carry, clear, encode, removal_cookie, session_cookie, CookieAttributes};
use crate::laws::law_login_leaves_one_of_each;
use crate::provider::{
    exchange_outcome, exchange_request, interpret_reply, outcome_view, request_for,
    ExchangeReply, ExchangeRequest, ExchangeRequestModel, ProviderConfig, ProviderError,
    ProviderGrant, ProviderGrantModel,
};
use crate::session_id::{canonical_text, parsed_session, SessionId};
use crate::store::{
    new_account, new_credential, AccountModel, CredentialModel, CredentialStore, Session,
    StoreError, StoreModel,
};
use vstd::prelude::*;

verus! {

/// What a login request presents.
#[derive(Clone, Copy, Debug, PartialEq, Eq, Structural)]
pub enum LoginState {
    NoSessionPresented,
    SessionPresented,
    AuthCodePresented,
    Both,
}

/// Why a login gave no session.
#[derive(Clone, Copy, Debug, PartialEq, Eq, Structural)]
pub enum LoginError {
    /// The session cookie presented is not a well-formed identifier.
    MalformedSession,
    /// Neither a session cookie nor an authorization code was presented.
    MissingCredentials,
    /// The exchange with the identity provider gave no grant.
    LoginFailed,
    /// The store could not be reached.
    StoreUnavailable,
    /// The store refused the write as a breach of its rules.
    StoreInvariantViolation,
}

/// How a failed login is answered.
#[derive(Clone, Copy, Debug, PartialEq, Eq, Structural)]
pub enum ResponseClass {
    /// A fault of the request.
    ClientError,
    /// A fault of the service.
    InternalError,
}

/// What a login request calls for.
#[derive(Debug, PartialEq, Eq)]
pub enum LoginPlan {
    /// The session presented is accepted; its cookie goes back unchanged.
    Accept { cookie_value: String },
    /// The request is refused.
    Refuse(LoginError),
    /// The authorization code is to be exchanged with this request.
    Exchange(ExchangeRequest),
}

/// A login plan as a mathematical value.
pub enum LoginPlanModel {
    Accept { cookie_value: Seq<char> },
    Refuse(LoginError),
    Exchange(ExchangeRequestModel),
}

impl View for LoginPlan {
    type V = LoginPlanModel;

    open spec fn view(&self) -> LoginPlanModel {
        match *self {
            LoginPlan::Accept { cookie_value } => LoginPlanModel::Accept {
                cookie_value: cookie_value@,
            },
            LoginPlan::Refuse(error) => LoginPlanModel::Refuse(error),
            LoginPlan::Exchange(request) => LoginPlanModel::Exchange(request@),
        }
    }
}

/// How a login ended well.
#[derive(Debug, PartialEq, Eq)]
pub enum LoginSuccess {
    /// The session presented was accepted; its cookie goes back unchanged.
    Resumed { cookie_value: String },
    /// A session was opened under this identifier.
    Opened(SessionId),
}

/// A good end of a login as a mathematical value.
pub enum LoginSuccessModel {
    Resumed { cookie_value: Seq<char> },
    Opened(SessionId),
}

impl View for LoginSuccess {
    type V = LoginSuccessModel;

    open spec fn view(&self) -> LoginSuccessModel {
        match *self {
            LoginSuccess::Resumed { cookie_value } => LoginSuccessModel::Resumed {
                cookie_value: cookie_value@,
            },
            LoginSuccess::Opened(id) => LoginSuccessModel::Opened(id),
        }
    }
}

/// What a logout did, and what the client is to be told.
#[derive(Debug, PartialEq, Eq)]
pub struct LogoutOutcome {
    /// Whether a session was deleted.
    pub deleted: bool,
    /// The instruction that removes the session cookie.
    pub cookie: CookieAttributes,
}

/// The state of a request by what it presents.
pub open spec fn login_state(session_presented: bool, code_presented: bool) -> LoginState {
    if session_presented {
        if code_presented {
            LoginState::Both
        } else {
            LoginState::SessionPresented
        }
    } else {
        if code_presented {
            LoginState::AuthCodePresented
        } else {
            LoginState::NoSessionPresented
        }
    }
}

/// Whether the session cookie presented, if any, is a well-formed
/// identifier.
pub open spec fn session_well_formed(session: Option<String>) -> bool {
    match session {
        Some(text) => parsed_session(text@) is Some,
        None => false,
    }
}

/// The text that a request presents as its session or as its code; empty
/// where it presents none.
pub open spec fn presented_text(presented: Option<String>) -> Seq<char> {
    match presented {
        Some(text) => text@,
        None => Seq::empty(),
    }
}

/// The policy of login, state by state. With an authorization code,
/// whatever session is presented is ignored and the code is exchanged,
/// unless it is empty: an empty code is never sent and the login fails.
/// With a session and no code, the session is accepted if it is well formed
/// and refused as malformed if not; whether such a session exists is not
/// looked up. With neither, credentials are missing.
pub open spec fn login_plan(
    config: ProviderConfig,
    session: Option<String>,
    well_formed: bool,
    auth_code: Option<String>,
) -> LoginPlanModel {
    match login_state(session is Some, auth_code is Some) {
        LoginState::NoSessionPresented => LoginPlanModel::Refuse(LoginError::MissingCredentials),
        LoginState::SessionPresented => if well_formed {
            LoginPlanModel::Accept { cookie_value: presented_text(session) }
        } else {
            LoginPlanModel::Refuse(LoginError::MalformedSession)
        },
        LoginState::AuthCodePresented | LoginState::Both => if presented_text(auth_code).len()
            == 0 {
            LoginPlanModel::Refuse(LoginError::LoginFailed)
        } else {
            LoginPlanModel::Exchange(request_for(config, presented_text(auth_code)))
        },
    }
}

/// The account row that a login with this grant writes if the account is new.
pub open spec fn login_account(grant: ProviderGrantModel, now: i64) -> AccountModel {
    new_account(grant.account_id, grant.display_name, now)
}

/// The credential row that a login with this grant writes.
pub open spec fn login_credential(grant: ProviderGrantModel) -> CredentialModel {
    new_credential(
        grant.account_id,
        grant.access_token,
        grant.refresh_token,
        grant.access_expires_at,
    )
}

/// The session row that a login with this grant writes.
pub open spec fn login_session(grant: ProviderGrantModel, id: SessionId, now: i64) -> Session {
    Session { session_id: id, account_id: grant.account_id, created_at: now }
}

/// The store after a login is recorded: the account and its credential are
/// upserted, then the session is installed.
pub open spec fn committed(
    before: StoreModel,
    grant: ProviderGrantModel,
    id: SessionId,
    now: i64,
) -> StoreModel {
    before.upsert(login_account(grant, now), login_credential(grant)).install(
        login_session(grant, id, now),
    )
}

/// The account has exactly one account row, one credential row and one
/// session row, and the session `id` exists.
pub open spec fn one_of_each(store: StoreModel, account_id: i64, id: SessionId) -> bool {
    &&& store.account_rows(account_id) == 1
    &&& store.credential_rows(account_id) == 1
    &&& store.session_rows(account_id) == 1
    &&& store.has_session(id)
}

/// What the second step of a login returns, given what the exchange gave
/// and the identifier drawn for the session.
pub open spec fn finished_outcome(
    before: StoreModel,
    exchange: Result<ProviderGrantModel, ProviderError>,
    id: SessionId,
) -> Result<SessionId, LoginError> {
    match exchange {
        Err(_) => Err(LoginError::LoginFailed),
        Ok(grant) => if before.taken_by_other(id, grant.account_id) {
            Err(LoginError::StoreInvariantViolation)
        } else {
            Ok(id)
        },
    }
}

/// What the second step of a login leaves in the store: the login recorded
/// where it returns a session, and the store as it was where it fails.
pub open spec fn finished_store(
    before: StoreModel,
    exchange: Result<ProviderGrantModel, ProviderError>,
    id: SessionId,
    now: i64,
) -> StoreModel {
    match exchange {
        Err(_) => before,
        Ok(grant) => if before.taken_by_other(id, grant.account_id) {
            before
        } else {
            committed(before, grant, id, now)
        },
    }
}

/// How the second step of a login may end, whatever identifier is drawn. A
/// failed exchange fails the login and leaves the store as it was. A grant
/// is recorded under the identifier returned; the login can fail on a grant
/// only where some other account has a session, whose identifier the draw
/// may have hit, and then too the store is as it was.
pub open spec fn login_completed(
    before: StoreModel,
    exchange: Result<ProviderGrantModel, ProviderError>,
    now: i64,
    outcome: Result<SessionId, LoginError>,
    after: StoreModel,
) -> bool {
    match exchange {
        Err(_) => outcome == Err::<SessionId, LoginError>(LoginError::LoginFailed) && after
            == before,
        Ok(grant) => match outcome {
            Ok(id) => !before.taken_by_other(id, grant.account_id) && after == committed(
                before,
                grant,
                id,
                now,
            ),
            Err(error) => {
                &&& error == LoginError::StoreInvariantViolation
                &&& after == before
                &&& exists|i: int|
                    0 <= i < before.sessions.len() && (#[trigger] before.sessions[i]).account_id
                        != grant.account_id
            },
        },
    }
}

/// The session that a logout is to delete: the one that the cookie
/// presented names, if one is presented and it is well formed.
pub open spec fn logout_target_of(session: Option<String>) -> Option<SessionId> {
    match session {
        Some(text) => parsed_session(text@),
        None => None,
    }
}

/// The store after a logout.
pub open spec fn logged_out(before: StoreModel, target: Option<SessionId>) -> StoreModel {
    match target {
        Some(id) => before.delete(id),
        None => before,
    }
}

/// Whether a logout with this target deletes a session.
pub open spec fn logout_deletes(before: StoreModel, target: Option<SessionId>) -> bool {
    match target {
        Some(id) => before.has_session(id),
        None => false,
    }
}

/// Says what a request presents.
pub fn classify(session: &Option<String>, auth_code: &Option<String>) -> (state: LoginState)
    ensures
        state == login_state(session is Some, auth_code is Some),
{
    match (session, auth_code) {
        (Some(_), Some(_)) => LoginState::Both,
        (Some(_), None) => LoginState::SessionPresented,
        (None, Some(_)) => LoginState::AuthCodePresented,
        (None, None) => LoginState::NoSessionPresented,
    }
}

/// How a failed login is answered: a malformed session, missing credentials
/// and a failed exchange are faults of the request, a failure of the store
/// is a fault of the service.
pub fn response_class(error: LoginError) -> (class: ResponseClass)
    ensures
        class == (match error {
            LoginError::MalformedSession => ResponseClass::ClientError,
            LoginError::MissingCredentials => ResponseClass::ClientError,
            LoginError::LoginFailed => ResponseClass::ClientError,
            LoginError::StoreUnavailable => ResponseClass::InternalError,
            LoginError::StoreInvariantViolation => ResponseClass::InternalError,
        }),
{
    match error {
        LoginError::MalformedSession | LoginError::MissingCredentials | LoginError::LoginFailed => {
            ResponseClass::ClientError
        },
        LoginError::StoreUnavailable | LoginError::StoreInvariantViolation => {
            ResponseClass::InternalError
        },
    }
}

/// The login error that a failure of the store amounts to.
pub fn store_failure(error: StoreError) -> (failure: LoginError)
    ensures
        failure == (match error {
            StoreError::Unavailable => LoginError::StoreUnavailable,
            StoreError::InvariantViolation => LoginError::StoreInvariantViolation,
        }),
{
    match error {
        StoreError::Unavailable => LoginError::StoreUnavailable,
        StoreError::InvariantViolation => LoginError::StoreInvariantViolation,
    }
}

/// What an exchange is worth to a login: its grant, or, whatever went wrong
/// with the provider, a failed login.
pub fn grant_or_failure(exchange: Result<ProviderGrant, ProviderError>) -> (outcome: Result<
    ProviderGrant,
    LoginError,
>)
    ensures
        (match exchange {
            Ok(grant) => outcome == Ok::<ProviderGrant, LoginError>(grant),
            Err(_) => outcome == Err::<ProviderGrant, LoginError>(LoginError::LoginFailed),
        }),
{
    match exchange {
        Ok(grant) => Ok(grant),
        Err(_) => Err(LoginError::LoginFailed),
    }
}

/// Applies the policy of login to a request, given whether the session it
/// presents is well formed.
pub fn decide_login(
    config: &ProviderConfig,
    session: Option<String>,
    well_formed: bool,
    auth_code: Option<String>,
) -> (plan: LoginPlan)
    ensures
        plan@ == login_plan(*config, session, well_formed, auth_code),
{
    match auth_code {
        Some(code) => {
            if code.as_str().is_empty() {
                LoginPlan::Refuse(LoginError::LoginFailed)
            } else {
                LoginPlan::Exchange(exchange_request(config, code.as_str()))
            }
        },
        None => match session {
            Some(text) => {
                if well_formed {
                    LoginPlan::Accept { cookie_value: text }
                } else {
                    LoginPlan::Refuse(LoginError::MalformedSession)
                }
            },
            None => LoginPlan::Refuse(LoginError::MissingCredentials),
        },
    }
}

/// The first step of a login: what the request calls for. The store is not
/// consulted.
pub fn plan_login(config: &ProviderConfig, session: Option<String>, auth_code: Option<String>) -> (plan:
    LoginPlan)
    ensures
        plan@ == login_plan(*config, session, session_well_formed(session), auth_code),
{
    let well_formed = match &session {
        Some(text) => SessionId::parse(text.as_str()).is_some(),
        None => false,
    };
    decide_login(config, session, well_formed, auth_code)
}

/// Records a login in the store as one unit: the account and its credential
/// are upserted and the session `id` is installed, or, where another
/// account's session carries `id`, nothing is written.
pub fn record_login(store: &mut CredentialStore, grant: ProviderGrant, id: SessionId, now: i64) -> (outcome:
    Result<Session, StoreError>)
    requires
        old(store).wf(),
    ensures
        final(store).wf(),
        (match outcome {
            Ok(session) => {
                &&& session == login_session(grant@, id, now)
                &&& !old(store)@.taken_by_other(id, grant.profile.account_id)
                &&& final(store)@ == committed(old(store)@, grant@, id, now)
            },
            Err(error) => {
                &&& error == StoreError::InvariantViolation
                &&& old(store)@.taken_by_other(id, grant.profile.account_id)
                &&& final(store)@ == old(store)@
            },
        }),
        outcome is Ok ==> one_of_each(final(store)@, grant.profile.account_id, id),
{
    let account_id = grant.profile.account_id;
    if store.session_taken_by_other(id, account_id) {
        return Err(StoreError::InvariantViolation);
    }
    proof {
        store@.lemma_upsert(login_account(grant@, now), login_credential(grant@));
        law_login_leaves_one_of_each(store@, grant@, id, now);
    }
    store.upsert_account_and_credential(
        account_id,
        grant.profile.display_name,
        grant.access_token,
        grant.refresh_token,
        grant.access_expires_at,
        now,
    );
    match store.install_session(account_id, id, now) {
        Ok(session) => Ok(session),
        Err(error) => Err(error),
    }
}

/// The second step of a login, given what the exchange gave and the
/// identifier drawn for the session. A failed exchange fails the login and
/// writes nothing. A grant is recorded, and the login returns `id`; where
/// another account's session carries `id` nothing is written and the login
/// fails on the store's rules.
pub fn finish_login(
    store: &mut CredentialStore,
    exchange: Result<ProviderGrant, ProviderError>,
    id: SessionId,
    now: i64,
) -> (outcome: Result<SessionId, LoginError>)
    requires
        old(store).wf(),
    ensures
        final(store).wf(),
        outcome == finished_outcome(old(store)@, outcome_view(exchange), id),
        final(store)@ == finished_store(old(store)@, outcome_view(exchange), id, now),
        outcome is Ok ==> (exchange matches Ok(grant) && one_of_each(
            final(store)@,
            grant.profile.account_id,
            id,
        )),
{
    match grant_or_failure(exchange) {
        Err(failure) => Err(failure),
        Ok(grant) => match record_login(store, grant, id, now) {
            Ok(session) => Ok(session.session_id),
            Err(error) => Err(store_failure(error)),
        },
    }
}

/// The second step of a login: interprets the provider's answer, draws a
/// session identifier and records the login.
pub fn complete_login(store: &mut CredentialStore, reply: ExchangeReply, now: i64) -> (outcome:
    Result<SessionId, LoginError>)
    requires
        old(store).wf(),
    ensures
        final(store).wf(),
        login_completed(old(store)@, exchange_outcome(reply), now, outcome, final(store)@),
        outcome matches Ok(id) ==> (exchange_outcome(reply) matches Ok(grant) && one_of_each(
            final(store)@,
            grant.account_id,
            id,
        )),
{
    let exchange = interpret_reply(reply);
    let id = SessionId::mint();
    finish_login(store, exchange, id, now)
}

/// A good end or an error as a mathematical value.
pub open spec fn success_view(outcome: Result<LoginSuccess, LoginError>) -> Result<
    LoginSuccessModel,
    LoginError,
> {
    match outcome {
        Ok(success) => Ok(success@),
        Err(error) => Err(error),
    }
}

/// What a login returns where its second step returned `completed`.
pub open spec fn as_opened(completed: Result<SessionId, LoginError>) -> Result<
    LoginSuccessModel,
    LoginError,
> {
    match completed {
        Ok(id) => Ok(LoginSuccessModel::Opened(id)),
        Err(error) => Err(error),
    }
}

/// A whole login around a provider given as a function. The request is
/// planned; where it calls for an exchange the provider is asked once, and
/// its answer completes the login. Where it does not, the provider is not
/// asked and the store is left as it was.
pub fn login<F: FnOnce(ExchangeRequest) -> ExchangeReply>(
    store: &mut CredentialStore,
    config: &ProviderConfig,
    session: Option<String>,
    auth_code: Option<String>,
    provider: F,
    now: i64,
) -> (outcome: Result<LoginSuccess, LoginError>)
    requires
        old(store).wf(),
        forall|request: ExchangeRequest|
            request@ == request_for(*config, presented_text(auth_code)) ==> call_requires(
                provider,
                (request,),
            ),
    ensures
        final(store).wf(),
        (match login_plan(*config, session, session_well_formed(session), auth_code) {
            LoginPlanModel::Accept { cookie_value } => {
                &&& success_view(outcome) == Ok::<LoginSuccessModel, LoginError>(
                    LoginSuccessModel::Resumed { cookie_value },
                )
                &&& final(store)@ == old(store)@
            },
            LoginPlanModel::Refuse(error) => {
                &&& success_view(outcome) == Err::<LoginSuccessModel, LoginError>(error)
                &&& final(store)@ == old(store)@
            },
            LoginPlanModel::Exchange(wanted) => exists|
                request: ExchangeRequest,
                reply: ExchangeReply,
                completed: Result<SessionId, LoginError>,
            |
                {
                    &&& request@ == wanted
                    &&& call_ensures(provider, (request,), reply)
                    &&& login_completed(
                        old(store)@,
                        exchange_outcome(reply),
                        now,
                        completed,
                        final(store)@,
                    )
                    &&& success_view(outcome) == as_opened(completed)
                },
        }),
{
    match plan_login(config, session, auth_code) {
        LoginPlan::Accept { cookie_value } => Ok(LoginSuccess::Resumed { cookie_value }),
        LoginPlan::Refuse(error) => Err(error),
        LoginPlan::Exchange(request) => {
            let ghost asked = request;
            let reply = provider(request);
            let ghost answered = reply;
            let completed = complete_login(store, reply, now);
            let outcome = match completed {
                Ok(id) => Ok(LoginSuccess::Opened(id)),
                Err(error) => Err(error),
            };
            proof {
                assert(call_ensures(provider, (asked,), answered));
                assert(login_completed(
                    old(store)@,
                    exchange_outcome(answered),
                    now,
                    completed,
                    store@,
                ));
                assert(success_view(outcome) == as_opened(completed));
            }
            outcome
        },
    }
}

/// The cookie that answers a login that ended well: the cookie presented,
/// unchanged, for a session resumed, and the canonical text of the new
/// identifier for a session opened.
pub fn login_cookie(success: LoginSuccess) -> (cookie: CookieAttributes)
    ensures
        cookie@ == (match success@ {
            LoginSuccessModel::Resumed { cookie_value } => session_cookie(cookie_value),
            LoginSuccessModel::Opened(id) => session_cookie(canonical_text(id.value)),
        }),
        success matches LoginSuccess::Opened(id) ==> parsed_session(cookie@.value) == Some(id),
{
    match success {
        LoginSuccess::Resumed { cookie_value } => carry(cookie_value),
        LoginSuccess::Opened(id) => encode(id),
    }
}

/// The session that a logout is to delete.
pub fn logout_target(session: &Option<String>) -> (target: Option<SessionId>)
    ensures
        target == logout_target_of(*session),
{
    match session {
        Some(text) => SessionId::parse(text.as_str()),
        None => None,
    }
}

/// Deletes the target of a logout, if there is one. Whether or not a
/// session was found, the client is told to remove its cookie.
pub fn end_session(store: &mut CredentialStore, target: Option<SessionId>) -> (outcome: LogoutOutcome)
    requires
        old(store).wf(),
    ensures
        final(store).wf(),
        final(store)@ == logged_out(old(store)@, target),
        outcome.deleted == logout_deletes(old(store)@, target),
        !outcome.deleted ==> final(store)@ == old(store)@,
        outcome.cookie@ == removal_cookie(),
{
    let deleted = match target {
        Some(id) => store.delete_session(id),
        None => false,
    };
    LogoutOutcome { deleted, cookie: clear() }
}

/// A logout. It always succeeds: with no cookie, with a cookie that is not
/// well formed and with one that names no session the store is left as it
/// was. The client is always told to remove its cookie.
pub fn logout(store: &mut CredentialStore, session: Option<String>) -> (outcome: LogoutOutcome)
    requires
        old(store).wf(),
    ensures
        final(store).wf(),
        final(store)@ == logged_out(old(store)@, logout_target_of(session)),
        outcome.deleted == logout_deletes(old(store)@, logout_target_of(session)),
        !outcome.deleted ==> final(store)@ == old(store)@,
        outcome.cookie@ == removal_cookie(),
{
    let target = logout_target(&session);
    end_session(store, target)
}

} // verus!
