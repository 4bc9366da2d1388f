//! What holds of logins and logouts over every store that obeys the rules.

use crate::manager::{
    committed, finished_outcome, finished_store, logged_out, login_account, login_credential,
    login_session, LoginError,
};
use crate::provider::ProviderGrantModel;
use crate::session_id::SessionId;
use crate::store::{credential_key, session_key, session_owner, Session, StoreModel};
use crate::table::{
    lemma_contains_push, lemma_without_came_from, lemma_without_keeps, lemma_without_rows,
    without_key,
};
use vstd::prelude::*;

verus! {

/// One login as the store sees it: the grant, the identifier drawn for the
/// session and the time.
pub struct LoginEvent {
    pub grant: ProviderGrantModel,
    pub id: SessionId,
    pub now: i64,
}

/// The store after the logins of `logins` were served one after another,
/// each as the second step of a login serves a grant.
pub open spec fn after_logins(before: StoreModel, logins: Seq<LoginEvent>) -> StoreModel
    decreases logins.len(),
{
    if logins.len() == 0 {
        before
    } else {
        let login = logins.last();
        finished_store(
            after_logins(before, logins.drop_last()),
            Ok(login.grant),
            login.id,
            login.now,
        )
    }
}

/// A recorded login keeps the rules of the store and leaves the account
/// with exactly one account row, one credential row, which holds the tokens
/// of the grant, and one session row, which carries the identifier drawn.
pub proof fn law_login_leaves_one_of_each(
    before: StoreModel,
    grant: ProviderGrantModel,
    id: SessionId,
    now: i64,
)
    requires
        before.wf(),
        !before.taken_by_other(id, grant.account_id),
    ensures
        committed(before, grant, id, now).wf(),
        committed(before, grant, id, now).account_rows(grant.account_id) == 1,
        committed(before, grant, id, now).credential_rows(grant.account_id) == 1,
        committed(before, grant, id, now).session_rows(grant.account_id) == 1,
        committed(before, grant, id, now).has_session(id),
        committed(before, grant, id, now).credentials.contains(login_credential(grant)),
        committed(before, grant, id, now).sessions.contains(login_session(grant, id, now)),
{
    let upserted = before.upsert(login_account(grant, now), login_credential(grant));
    let session = login_session(grant, id, now);
    before.lemma_upsert(login_account(grant, now), login_credential(grant));
    upserted.lemma_install(session);
    let after = upserted.install(session);
    assert(after.credentials[after.credentials.len() - 1] == login_credential(grant));
    assert(after.sessions[after.sessions.len() - 1] == session);
}

/// A recorded login for an account neither adds nor removes a session of
/// any other account.
pub proof fn law_login_spares_other_accounts(
    before: StoreModel,
    grant: ProviderGrantModel,
    id: SessionId,
    now: i64,
    other: Session,
)
    requires
        other.account_id != grant.account_id,
    ensures
        committed(before, grant, id, now).sessions.contains(other) <==> before.sessions.contains(
            other,
        ),
{
    let owner = grant.account_id as int;
    let after = committed(before, grant, id, now);
    let kept = without_key(before.sessions, session_owner(), owner);
    lemma_without_rows(before.sessions, session_owner(), owner);
    lemma_contains_push(kept, login_session(grant, id, now), other);
}

/// Whether another account's session carries an identifier is not changed
/// by a recorded login.
proof fn lemma_login_keeps_taken(
    before: StoreModel,
    grant: ProviderGrantModel,
    id: SessionId,
    now: i64,
    asked: SessionId,
)
    ensures
        committed(before, grant, id, now).taken_by_other(asked, grant.account_id)
            <==> before.taken_by_other(asked, grant.account_id),
{
    let owner = grant.account_id as int;
    let after = committed(before, grant, id, now);
    let kept = without_key(before.sessions, session_owner(), owner);
    if after.taken_by_other(asked, grant.account_id) {
        let m = choose|m: int|
            0 <= m < after.sessions.len() && (#[trigger] after.sessions[m]).session_id == asked
                && after.sessions[m].account_id != grant.account_id;
        assert(m < kept.len());
        let origin = lemma_without_came_from(before.sessions, session_owner(), owner, m);
        assert(before.sessions[origin] == after.sessions[m]);
    }
    if before.taken_by_other(asked, grant.account_id) {
        let i = choose|i: int|
            0 <= i < before.sessions.len() && (#[trigger] before.sessions[i]).session_id == asked
                && before.sessions[i].account_id != grant.account_id;
        lemma_without_keeps(before.sessions, session_owner(), owner, session_key(), i);
        lemma_without_rows(before.sessions, session_owner(), owner);
        assert(before.sessions.contains(before.sessions[i]));
        assert(kept.contains(before.sessions[i]));
        let m = choose|m: int| 0 <= m < kept.len() && kept[m] == before.sessions[i];
        assert(after.sessions[m] == kept[m]);
    }
}

/// A second login for the same account replaces what the first one left:
/// the account still has one account row, one credential row, which now
/// holds the tokens of the second grant, and one session row; the first
/// session identifier names no session any more, the second one does.
pub proof fn law_relogin_replaces(
    before: StoreModel,
    first: LoginEvent,
    second: LoginEvent,
)
    requires
        before.wf(),
        first.grant.account_id == second.grant.account_id,
        first.id != second.id,
        !before.taken_by_other(first.id, first.grant.account_id),
        !before.taken_by_other(second.id, second.grant.account_id),
    ensures
        ({
            let between = committed(before, first.grant, first.id, first.now);
            let after = committed(between, second.grant, second.id, second.now);
            &&& between.has_session(first.id)
            &&& after.wf()
            &&& after.account_rows(second.grant.account_id) == 1
            &&& after.credential_rows(second.grant.account_id) == 1
            &&& after.session_rows(second.grant.account_id) == 1
            &&& after.credentials.contains(login_credential(second.grant))
            &&& !after.has_session(first.id)
            &&& after.has_session(second.id)
        }),
{
    let account_id = first.grant.account_id;
    let between = committed(before, first.grant, first.id, first.now);
    let after = committed(between, second.grant, second.id, second.now);
    law_login_leaves_one_of_each(before, first.grant, first.id, first.now);
    lemma_login_keeps_taken(before, first.grant, first.id, first.now, second.id);
    law_login_leaves_one_of_each(between, second.grant, second.id, second.now);
    let upserted = between.upsert(
        login_account(second.grant, second.now),
        login_credential(second.grant),
    );
    between.lemma_upsert(login_account(second.grant, second.now), login_credential(second.grant));
    upserted.lemma_install(login_session(second.grant, second.id, second.now));
    let last = between.sessions.len() - 1;
    assert(between.sessions[last] == login_session(first.grant, first.id, first.now));
    assert(upserted.sessions[last].account_id == account_id);
}

/// However many logins for one account are served, in whatever order the
/// store serves them, none fails on the store's rules and the account is
/// left with exactly one account row, one credential row and one session
/// row: the session of the login served last.
pub proof fn law_logins_leave_one_session(
    before: StoreModel,
    logins: Seq<LoginEvent>,
    account_id: i64,
)
    requires
        before.wf(),
        logins.len() > 0,
        forall|k: int| 0 <= k < logins.len() ==> (#[trigger] logins[k]).grant.account_id == account_id,
        forall|k: int|
            0 <= k < logins.len() ==> !before.taken_by_other((#[trigger] logins[k]).id, account_id),
    ensures
        after_logins(before, logins).wf(),
        after_logins(before, logins).account_rows(account_id) == 1,
        after_logins(before, logins).credential_rows(account_id) == 1,
        after_logins(before, logins).session_rows(account_id) == 1,
        after_logins(before, logins).has_session(logins.last().id),
        forall|k: int|
            0 <= k < logins.len() ==> finished_outcome(
                after_logins(before, logins.take(k)),
                Ok((#[trigger] logins[k]).grant),
                logins[k].id,
            ) == Ok::<SessionId, LoginError>(logins[k].id),
    decreases logins.len(),
{
    let earlier = logins.drop_last();
    let last = logins.last();
    let prior = after_logins(before, earlier);
    assert(last == logins[logins.len() - 1]);
    assert forall|k: int| 0 <= k < earlier.len() implies (#[trigger] earlier[k]).grant.account_id
        == account_id && !before.taken_by_other(earlier[k].id, account_id) by {
        assert(earlier[k] == logins[k]);
    }
    lemma_logins_keep_rules(before, earlier, account_id);
    assert(!prior.taken_by_other(last.id, account_id));
    law_login_leaves_one_of_each(prior, last.grant, last.id, last.now);
    assert forall|k: int| 0 <= k < logins.len() implies finished_outcome(
        after_logins(before, logins.take(k)),
        Ok((#[trigger] logins[k]).grant),
        logins[k].id,
    ) == Ok::<SessionId, LoginError>(logins[k].id) by {
        let served = logins.take(k);
        assert forall|j: int| 0 <= j < served.len() implies (#[trigger] served[j]).grant.account_id
            == account_id && !before.taken_by_other(served[j].id, account_id) by {
            assert(served[j] == logins[j]);
        }
        lemma_logins_keep_rules(before, served, account_id);
    }
}

/// Serving logins for one account keeps the rules of the store, and keeps
/// every identifier free that no other account's session carried.
proof fn lemma_logins_keep_rules(before: StoreModel, logins: Seq<LoginEvent>, account_id: i64)
    requires
        before.wf(),
        forall|k: int| 0 <= k < logins.len() ==> (#[trigger] logins[k]).grant.account_id == account_id,
        forall|k: int|
            0 <= k < logins.len() ==> !before.taken_by_other((#[trigger] logins[k]).id, account_id),
    ensures
        after_logins(before, logins).wf(),
        forall|asked: SessionId|
            before.taken_by_other(asked, account_id) <==> #[trigger] after_logins(
                before,
                logins,
            ).taken_by_other(asked, account_id),
    decreases logins.len(),
{
    if logins.len() > 0 {
        let earlier = logins.drop_last();
        let last = logins.last();
        assert(last == logins[logins.len() - 1]);
        assert forall|k: int| 0 <= k < earlier.len() implies (#[trigger] earlier[k]).grant.account_id
            == account_id && !before.taken_by_other(earlier[k].id, account_id) by {
            assert(earlier[k] == logins[k]);
        }
        lemma_logins_keep_rules(before, earlier, account_id);
        let prior = after_logins(before, earlier);
        assert(!prior.taken_by_other(last.id, account_id));
        law_login_leaves_one_of_each(prior, last.grant, last.id, last.now);
        assert forall|asked: SessionId|
            before.taken_by_other(asked, account_id) <==> #[trigger] after_logins(
                before,
                logins,
            ).taken_by_other(asked, account_id) by {
            lemma_login_keeps_taken(prior, last.grant, last.id, last.now, asked);
            assert(prior.taken_by_other(asked, account_id) <==> before.taken_by_other(
                asked,
                account_id,
            ));
        }
    }
}

/// In a store that obeys the rules every session belongs to an account that
/// exists and holds a credential.
pub proof fn law_session_belongs_to_account(store: StoreModel, at: int)
    requires
        store.wf(),
        0 <= at < store.sessions.len(),
    ensures
        store.has_account(store.sessions[at].account_id),
        store.has_credential(store.sessions[at].account_id),
{
    let owner = store.sessions[at].account_id;
    let held = choose|i: int|
        0 <= i < store.credentials.len() && credential_key()(#[trigger] store.credentials[i])
            == owner as int;
    assert(store.credentials[held].account_id == owner);
}

/// A logout keeps the rules of the store, leaves its target with no
/// session, and done a second time changes nothing.
pub proof fn law_logout_is_idempotent(before: StoreModel, target: Option<SessionId>)
    requires
        before.wf(),
    ensures
        logged_out(before, target).wf(),
        target matches Some(id) ==> !logged_out(before, target).has_session(id),
        logged_out(logged_out(before, target), target) == logged_out(before, target),
{
    match target {
        Some(id) => {
            before.lemma_delete(id);
            before.delete(id).lemma_delete(id);
        },
        None => {},
    }
}

} // verus!
