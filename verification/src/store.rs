//! The credential store: accounts, the credentials granted to them and the
//! sessions opened for them.
//!
//! `StoreModel` says what a store holds and what each operation makes of it;
//! `CredentialStore` keeps the rows in memory and is proved to follow the
//! model. A durable store is expected to perform the same transitions.

use crate::session_id::SessionId;
use crate::table::{
    count_key, has_key, lemma_absent_key, lemma_count_push, lemma_count_without,
    lemma_present_key, lemma_unique_count, lemma_without_came_from, lemma_without_keeps, lemma_without_rows,
    lemma_without_unique, unique_keys, without_key,
};
use vstd::prelude::*;

verus! {

/// One authenticated end user, known by the identity provider's numeric id.
#[derive(Debug, PartialEq, Eq)]
pub struct Account {
    pub account_id: i64,
    pub display_name: String,
    pub created_at: i64,
    pub updated_at: i64,
}

/// The live grant of one account.
#[derive(Debug, PartialEq, Eq)]
pub struct Credential {
    pub account_id: i64,
    pub access_token: String,
    pub refresh_token: String,
    pub access_expires_at: i64,
}

/// One session opened for an account.
#[derive(Clone, Copy, Debug, PartialEq, Eq, Structural)]
pub struct Session {
    pub session_id: SessionId,
    pub account_id: i64,
    pub created_at: i64,
}

/// Why the store did not perform an operation.
#[derive(Clone, Copy, Debug, PartialEq, Eq, Structural)]
pub enum StoreError {
    /// The store could not be reached.
    Unavailable,
    /// The operation would break a uniqueness or reference rule.
    InvariantViolation,
}

/// An account row as a mathematical value.
pub struct AccountModel {
    pub account_id: i64,
    pub display_name: Seq<char>,
    pub created_at: i64,
    pub updated_at: i64,
}

/// A credential row as a mathematical value.
pub struct CredentialModel {
    pub account_id: i64,
    pub access_token: Seq<char>,
    pub refresh_token: Seq<char>,
    pub access_expires_at: i64,
}

impl View for Account {
    type V = AccountModel;

    open spec fn view(&self) -> AccountModel {
        AccountModel {
            account_id: self.account_id,
            display_name: self.display_name@,
            created_at: self.created_at,
            updated_at: self.updated_at,
        }
    }
}

impl View for Credential {
    type V = CredentialModel;

    open spec fn view(&self) -> CredentialModel {
        CredentialModel {
            account_id: self.account_id,
            access_token: self.access_token@,
            refresh_token: self.refresh_token@,
            access_expires_at: self.access_expires_at,
        }
    }
}

/// The key of an account row: its account id.
pub open spec fn account_key() -> spec_fn(AccountModel) -> int {
    |row: AccountModel| row.account_id as int
}

/// The key of a credential row: the id of the account that owns it.
pub open spec fn credential_key() -> spec_fn(CredentialModel) -> int {
    |row: CredentialModel| row.account_id as int
}

/// The first key of a session row: the session identifier.
pub open spec fn session_key() -> spec_fn(Session) -> int {
    |row: Session| row.session_id.value as int
}

/// The second key of a session row: the id of the account it was opened for.
pub open spec fn session_owner() -> spec_fn(Session) -> int {
    |row: Session| row.account_id as int
}

/// What a store holds: its three tables.
pub struct StoreModel {
    pub accounts: Seq<AccountModel>,
    pub credentials: Seq<CredentialModel>,
    pub sessions: Seq<Session>,
}

impl StoreModel {
    /// The store that holds nothing.
    pub open spec fn empty() -> StoreModel {
        StoreModel { accounts: Seq::empty(), credentials: Seq::empty(), sessions: Seq::empty() }
    }

    /// The rules of the store: an account id names one account and owns at
    /// most one credential and at most one session, a session identifier
    /// names one session, every credential belongs to an account, and every
    /// session belongs to an account that holds a credential.
    pub open spec fn wf(self) -> bool {
        &&& unique_keys(self.accounts, account_key())
        &&& unique_keys(self.credentials, credential_key())
        &&& unique_keys(self.sessions, session_key())
        &&& unique_keys(self.sessions, session_owner())
        &&& forall|i: int|
            0 <= i < self.credentials.len() ==> has_key(
                self.accounts,
                account_key(),
                (#[trigger] self.credentials[i]).account_id as int,
            )
        &&& forall|i: int|
            0 <= i < self.sessions.len() ==> has_key(
                self.credentials,
                credential_key(),
                (#[trigger] self.sessions[i]).account_id as int,
            )
    }

    /// The number of account rows with this account id.
    pub open spec fn account_rows(self, account_id: i64) -> nat {
        count_key(self.accounts, account_key(), account_id as int)
    }

    /// The number of credential rows owned by this account.
    pub open spec fn credential_rows(self, account_id: i64) -> nat {
        count_key(self.credentials, credential_key(), account_id as int)
    }

    /// The number of session rows opened for this account.
    pub open spec fn session_rows(self, account_id: i64) -> nat {
        count_key(self.sessions, session_owner(), account_id as int)
    }

    /// Some account row has this account id.
    pub open spec fn has_account(self, account_id: i64) -> bool {
        has_key(self.accounts, account_key(), account_id as int)
    }

    /// Some credential row is owned by this account.
    pub open spec fn has_credential(self, account_id: i64) -> bool {
        has_key(self.credentials, credential_key(), account_id as int)
    }

    /// Some session row carries this identifier.
    pub open spec fn has_session(self, id: SessionId) -> bool {
        has_key(self.sessions, session_key(), id.value as int)
    }

    /// Some session row carries this identifier for another account.
    pub open spec fn taken_by_other(self, id: SessionId, account_id: i64) -> bool {
        exists|i: int|
            0 <= i < self.sessions.len() && (#[trigger] self.sessions[i]).session_id == id
                && self.sessions[i].account_id != account_id
    }

    /// The store after an account and its credential are upserted: the
    /// account row is added only if the id is new, the credential row
    /// replaces whatever credential the account owned.
    pub open spec fn upsert(self, account: AccountModel, credential: CredentialModel) -> StoreModel {
        StoreModel {
            accounts: if self.has_account(account.account_id) {
                self.accounts
            } else {
                self.accounts.push(account)
            },
            credentials: without_key(
                self.credentials,
                credential_key(),
                credential.account_id as int,
            ).push(credential),
            sessions: self.sessions,
        }
    }

    /// Whether a session can be installed: its account holds a credential
    /// and no other account's session carries its identifier.
    pub open spec fn can_install(self, session: Session) -> bool {
        self.has_credential(session.account_id) && !self.taken_by_other(
            session.session_id,
            session.account_id,
        )
    }

    /// The store after a session is installed: it replaces whatever session
    /// its account had.
    pub open spec fn install(self, session: Session) -> StoreModel {
        StoreModel {
            accounts: self.accounts,
            credentials: self.credentials,
            sessions: without_key(self.sessions, session_owner(), session.account_id as int).push(
                session,
            ),
        }
    }

    /// The store after the session with this identifier is deleted.
    pub open spec fn delete(self, id: SessionId) -> StoreModel {
        StoreModel {
            accounts: self.accounts,
            credentials: self.credentials,
            sessions: without_key(self.sessions, session_key(), id.value as int),
        }
    }

    /// The empty store obeys the rules.
    pub proof fn lemma_empty_wf()
        ensures
            Self::empty().wf(),
    {
    }

    /// An upsert keeps the rules, and leaves the account with one account
    /// row and one credential row.
    pub proof fn lemma_upsert(self, account: AccountModel, credential: CredentialModel)
        requires
            self.wf(),
            account.account_id == credential.account_id,
        ensures
            self.upsert(account, credential).wf(),
            self.upsert(account, credential).account_rows(account.account_id) == 1,
            self.upsert(account, credential).credential_rows(account.account_id) == 1,
            self.upsert(account, credential).has_credential(account.account_id),
    {
        let id = account.account_id;
        let after = self.upsert(account, credential);
        // accounts
        if !self.has_account(id) {
            lemma_absent_key(self.accounts, account_key(), id as int);
            lemma_count_push(self.accounts, account, account_key(), id as int);
        } else {
            lemma_unique_count(self.accounts, account_key(), id as int);
        }
        assert(unique_keys(after.accounts, account_key()));
        // credentials
        let kept = without_key(self.credentials, credential_key(), id as int);
        lemma_without_unique(self.credentials, credential_key(), id as int, credential_key());
        lemma_count_without(self.credentials, credential_key(), id as int, id as int);
        lemma_count_push(kept, credential, credential_key(), id as int);
        assert(!has_key(kept, credential_key(), id as int)) by {
            if has_key(kept, credential_key(), id as int) {
                lemma_unique_count(kept, credential_key(), id as int);
            }
        }
        assert(unique_keys(after.credentials, credential_key()));
        assert(after.credentials[kept.len() as int] == credential);
        assert forall|i: int| 0 <= i < after.credentials.len() implies has_key(
            after.accounts,
            account_key(),
            (#[trigger] after.credentials[i]).account_id as int,
        ) by {
            if i < kept.len() {
                let origin = lemma_without_came_from(
                    self.credentials,
                    credential_key(),
                    id as int,
                    i,
                );
                let owner = self.credentials[origin].account_id;
                assert(has_key(self.accounts, account_key(), owner as int));
                let at = choose|at: int|
                    0 <= at < self.accounts.len() && account_key()(#[trigger] self.accounts[at])
                        == owner as int;
                assert(after.accounts[at] == self.accounts[at]);
            } else {
                if self.has_account(id) {
                } else {
                    assert(after.accounts[self.accounts.len() as int] == account);
                }
            }
        }
        assert forall|i: int| 0 <= i < after.sessions.len() implies has_key(
            after.credentials,
            credential_key(),
            (#[trigger] after.sessions[i]).account_id as int,
        ) by {
            let owner = self.sessions[i].account_id;
            if owner == id {
                assert(credential_key()(after.credentials[kept.len() as int]) == id as int);
            } else {
                let at = choose|at: int|
                    0 <= at < self.credentials.len() && credential_key()(
                        #[trigger] self.credentials[at],
                    ) == owner as int;
                lemma_without_keeps(
                    self.credentials,
                    credential_key(),
                    id as int,
                    credential_key(),
                    at,
                );
                let m = choose|m: int|
                    0 <= m < kept.len() && credential_key()(#[trigger] kept[m]) == owner as int;
                assert(after.credentials[m] == kept[m]);
            }
        }
    }

    /// Installing a session that can be installed keeps the rules, leaves
    /// its account with that one session, and leaves the identifier that the
    /// account's earlier session carried, if it differs, with no session.
    pub proof fn lemma_install(self, session: Session)
        requires
            self.wf(),
            self.can_install(session),
        ensures
            self.install(session).wf(),
            self.install(session).session_rows(session.account_id) == 1,
            self.install(session).has_session(session.session_id),
            forall|i: int|
                0 <= i < self.sessions.len() && (#[trigger] self.sessions[i]).account_id
                    == session.account_id && self.sessions[i].session_id != session.session_id
                    ==> !self.install(session).has_session(self.sessions[i].session_id),
    {
        let owner = session.account_id as int;
        let after = self.install(session);
        let kept = without_key(self.sessions, session_owner(), owner);
        lemma_without_unique(self.sessions, session_owner(), owner, session_owner());
        lemma_without_unique(self.sessions, session_owner(), owner, session_key());
        lemma_count_without(self.sessions, session_owner(), owner, owner);
        lemma_count_push(kept, session, session_owner(), owner);
        lemma_without_rows(self.sessions, session_owner(), owner);
        assert(after.sessions[kept.len() as int] == session);
        assert forall|i: int| 0 <= i < kept.len() implies session_owner()(#[trigger] kept[i])
            != owner && session_key()(kept[i]) != session.session_id.value as int && has_key(
            self.credentials,
            credential_key(),
            kept[i].account_id as int,
        ) by {
            let origin = lemma_without_came_from(self.sessions, session_owner(), owner, i);
            assert(self.sessions[origin] == kept[i]);
            if kept[i].session_id == session.session_id {
                assert(self.taken_by_other(session.session_id, session.account_id));
            }
        }
        assert(unique_keys(after.sessions, session_key()));
        assert(unique_keys(after.sessions, session_owner()));
        assert forall|i: int| 0 <= i < after.sessions.len() implies has_key(
            after.credentials,
            credential_key(),
            (#[trigger] after.sessions[i]).account_id as int,
        ) by {
            if i < kept.len() {
                assert(after.sessions[i] == kept[i]);
            }
        }
        assert(session_key()(after.sessions[kept.len() as int]) == session.session_id.value as int);
        assert forall|i: int|
            0 <= i < self.sessions.len() && (#[trigger] self.sessions[i]).account_id
                == session.account_id && self.sessions[i].session_id
                != session.session_id implies !after.has_session(self.sessions[i].session_id) by {
            let old_id = self.sessions[i].session_id;
            if after.has_session(old_id) {
                let m = choose|m: int|
                    0 <= m < after.sessions.len() && session_key()(#[trigger] after.sessions[m])
                        == old_id.value as int;
                assert(m < kept.len());
                let origin = lemma_without_came_from(self.sessions, session_owner(), owner, m);
                assert(session_key()(self.sessions[origin]) == session_key()(self.sessions[i]));
                assert(origin == i);
            }
        }
    }

    /// Deleting a session keeps the rules, leaves its identifier with no
    /// session, and leaves every other session in place.
    pub proof fn lemma_delete(self, id: SessionId)
        requires
            self.wf(),
        ensures
            self.delete(id).wf(),
            !self.delete(id).has_session(id),
            forall|other: SessionId|
                other != id ==> (#[trigger] self.delete(id).has_session(other)
                    <==> self.has_session(other)),
            !self.has_session(id) ==> self.delete(id) == self,
    {
        let key = id.value as int;
        let after = self.delete(id);
        lemma_without_unique(self.sessions, session_key(), key, session_key());
        lemma_without_unique(self.sessions, session_key(), key, session_owner());
        lemma_count_without(self.sessions, session_key(), key, key);
        if after.has_session(id) {
            lemma_unique_count(after.sessions, session_key(), key);
        }
        assert forall|i: int| 0 <= i < after.sessions.len() implies has_key(
            after.credentials,
            credential_key(),
            (#[trigger] after.sessions[i]).account_id as int,
        ) by {
            let origin = lemma_without_came_from(self.sessions, session_key(), key, i);
            assert(self.sessions[origin] == after.sessions[i]);
        }
        assert forall|other: SessionId| other != id implies (#[trigger] after.has_session(other)
            <==> self.has_session(other)) by {
            if self.has_session(other) {
                let at = choose|at: int|
                    0 <= at < self.sessions.len() && session_key()(#[trigger] self.sessions[at])
                        == other.value as int;
                lemma_without_keeps(self.sessions, session_key(), key, session_key(), at);
            }
            if after.has_session(other) {
                let m = choose|m: int|
                    0 <= m < after.sessions.len() && session_key()(#[trigger] after.sessions[m])
                        == other.value as int;
                let origin = lemma_without_came_from(self.sessions, session_key(), key, m);
                assert(session_key()(self.sessions[origin]) == other.value as int);
            }
        }
        if !self.has_session(id) {
            lemma_absent_key(self.sessions, session_key(), key);
        }
    }
}

/// The account row that a first login writes.
pub open spec fn new_account(account_id: i64, display_name: Seq<char>, now: i64) -> AccountModel {
    AccountModel { account_id, display_name, created_at: now, updated_at: now }
}

/// The credential row that a login writes.
pub open spec fn new_credential(
    account_id: i64,
    access_token: Seq<char>,
    refresh_token: Seq<char>,
    access_expires_at: i64,
) -> CredentialModel {
    CredentialModel { account_id, access_token, refresh_token, access_expires_at }
}

/// A credential store that keeps its rows in memory.
pub struct CredentialStore {
    accounts: Vec<Account>,
    credentials: Vec<Credential>,
    sessions: Vec<Session>,
}

impl View for CredentialStore {
    type V = StoreModel;

    closed spec fn view(&self) -> StoreModel {
        StoreModel {
            accounts: self.accounts@.map_values(|row: Account| row@),
            credentials: self.credentials@.map_values(|row: Credential| row@),
            sessions: self.sessions@,
        }
    }
}

impl Credential {
    /// A copy of the row.
    pub fn duplicate(&self) -> (copy: Credential)
        ensures
            copy@ == self@,
    {
        Credential {
            account_id: self.account_id,
            access_token: self.access_token.clone(),
            refresh_token: self.refresh_token.clone(),
            access_expires_at: self.access_expires_at,
        }
    }
}

impl Account {
    /// A copy of the row.
    pub fn duplicate(&self) -> (copy: Account)
        ensures
            copy@ == self@,
    {
        Account {
            account_id: self.account_id,
            display_name: self.display_name.clone(),
            created_at: self.created_at,
            updated_at: self.updated_at,
        }
    }
}

impl CredentialStore {
    /// The store obeys the rules of `StoreModel::wf`.
    pub open spec fn wf(&self) -> bool {
        self@.wf()
    }

    /// A store that holds nothing.
    pub fn new() -> (store: CredentialStore)
        ensures
            store@ == StoreModel::empty(),
            store.wf(),
    {
        let store = CredentialStore {
            accounts: Vec::new(),
            credentials: Vec::new(),
            sessions: Vec::new(),
        };
        assert(store@.accounts =~= Seq::empty());
        assert(store@.credentials =~= Seq::empty());
        store
    }

    fn find_account(&self, account_id: i64) -> (at: Option<usize>)
        ensures
            (match at {
                Some(i) => i < self.accounts.len() && self@.accounts[i as int].account_id
                    == account_id,
                None => !self@.has_account(account_id),
            }),
    {
        let mut i: usize = 0;
        while i < self.accounts.len()
            invariant
                i <= self.accounts.len(),
                forall|j: int| 0 <= j < i ==> (#[trigger] self.accounts@[j]).account_id != account_id,
            decreases self.accounts.len() - i,
        {
            if self.accounts[i].account_id == account_id {
                return Some(i);
            }
            i += 1;
        }
        assert forall|j: int| 0 <= j < self@.accounts.len() implies account_key()(
            #[trigger] self@.accounts[j],
        ) != account_id as int by {
            assert(self@.accounts[j] == self.accounts@[j]@);
        }
        None
    }

    fn find_credential(&self, account_id: i64) -> (at: Option<usize>)
        ensures
            (match at {
                Some(i) => i < self.credentials.len() && self@.credentials[i as int].account_id
                    == account_id,
                None => !self@.has_credential(account_id),
            }),
    {
        let mut i: usize = 0;
        while i < self.credentials.len()
            invariant
                i <= self.credentials.len(),
                forall|j: int|
                    0 <= j < i ==> (#[trigger] self.credentials@[j]).account_id != account_id,
            decreases self.credentials.len() - i,
        {
            if self.credentials[i].account_id == account_id {
                return Some(i);
            }
            i += 1;
        }
        assert forall|j: int| 0 <= j < self@.credentials.len() implies credential_key()(
            #[trigger] self@.credentials[j],
        ) != account_id as int by {
            assert(self@.credentials[j] == self.credentials@[j]@);
        }
        None
    }

    fn find_session_of(&self, account_id: i64) -> (at: Option<usize>)
        ensures
            (match at {
                Some(i) => i < self.sessions.len() && self@.sessions[i as int].account_id
                    == account_id,
                None => !has_key(self@.sessions, session_owner(), account_id as int),
            }),
    {
        let mut i: usize = 0;
        while i < self.sessions.len()
            invariant
                i <= self.sessions.len(),
                forall|j: int| 0 <= j < i ==> (#[trigger] self.sessions@[j]).account_id != account_id,
            decreases self.sessions.len() - i,
        {
            if self.sessions[i].account_id == account_id {
                return Some(i);
            }
            i += 1;
        }
        None
    }

    fn find_session(&self, id: SessionId) -> (at: Option<usize>)
        ensures
            (match at {
                Some(i) => i < self.sessions.len() && self@.sessions[i as int].session_id == id,
                None => !self@.has_session(id),
            }),
    {
        let mut i: usize = 0;
        while i < self.sessions.len()
            invariant
                i <= self.sessions.len(),
                forall|j: int| 0 <= j < i ==> (#[trigger] self.sessions@[j]).session_id != id,
            decreases self.sessions.len() - i,
        {
            if self.sessions[i].session_id.value == id.value {
                return Some(i);
            }
            i += 1;
        }
        None
    }

    /// Creates the account if its id is new, and writes its credential in
    /// place of whatever credential it held. An account that exists keeps
    /// its row as it is. `now` stamps a new account row.
    pub fn upsert_account_and_credential(
        &mut self,
        account_id: i64,
        display_name: String,
        access_token: String,
        refresh_token: String,
        access_expires_at: i64,
        now: i64,
    ) -> (credential: Credential)
        requires
            old(self).wf(),
        ensures
            final(self).wf(),
            final(self)@ == old(self)@.upsert(
                new_account(account_id, display_name@, now),
                new_credential(account_id, access_token@, refresh_token@, access_expires_at),
            ),
            credential@ == new_credential(
                account_id,
                access_token@,
                refresh_token@,
                access_expires_at,
            ),
    {
        let ghost before = self@;
        let ghost account = new_account(account_id, display_name@, now);
        let ghost written = new_credential(
            account_id,
            access_token@,
            refresh_token@,
            access_expires_at,
        );
        if self.find_account(account_id).is_none() {
            self.accounts.push(
                Account { account_id, display_name, created_at: now, updated_at: now },
            );
            assert(self@.accounts =~= before.accounts.push(account));
        }
        assert(self@.credentials == before.credentials);
        match self.find_credential(account_id) {
            Some(at) => {
                self.credentials.remove(at);
                proof {
                    lemma_present_key(before.credentials, credential_key(), at as int);
                    assert(self@.credentials =~= before.credentials.remove(at as int));
                }
            },
            None => {
                proof {
                    lemma_absent_key(before.credentials, credential_key(), account_id as int);
                }
            },
        }
        let ghost kept = self@.credentials;
        let credential = Credential { account_id, access_token, refresh_token, access_expires_at };
        self.credentials.push(credential.duplicate());
        proof {
            assert(self@.credentials =~= kept.push(written));
            before.lemma_upsert(account, written);
        }
        credential
    }

    /// Whether another account's session carries this identifier.
    pub fn session_taken_by_other(&self, id: SessionId, account_id: i64) -> (taken: bool)
        requires
            self.wf(),
        ensures
            taken == self@.taken_by_other(id, account_id),
    {
        match self.find_session(id) {
            Some(at) => {
                let taken = self.sessions[at].account_id != account_id;
                proof {
                    if self@.taken_by_other(id, account_id) {
                        let other = choose|i: int|
                            0 <= i < self@.sessions.len() && (#[trigger] self@.sessions[i]).session_id
                                == id && self@.sessions[i].account_id != account_id;
                        assert(session_key()(self@.sessions[other]) == session_key()(
                            self@.sessions[at as int],
                        ));
                        assert(other == at);
                    }
                }
                taken
            },
            None => {
                proof {
                    if self@.taken_by_other(id, account_id) {
                        let other = choose|i: int|
                            0 <= i < self@.sessions.len() && (#[trigger] self@.sessions[i]).session_id
                                == id && self@.sessions[i].account_id != account_id;
                        assert(session_key()(self@.sessions[other]) == id.value as int);
                    }
                }
                false
            },
        }
    }

    /// Opens the session `id` for an account in place of whatever session
    /// the account had. Refused, with the store unchanged, where the account
    /// holds no credential or another account's session carries `id`.
    pub fn install_session(&mut self, account_id: i64, id: SessionId, now: i64) -> (outcome: Result<
        Session,
        StoreError,
    >)
        requires
            old(self).wf(),
        ensures
            final(self).wf(),
            (match outcome {
                Ok(session) => {
                    &&& session == (Session { session_id: id, account_id, created_at: now })
                    &&& old(self)@.can_install(session)
                    &&& final(self)@ == old(self)@.install(session)
                },
                Err(error) => {
                    &&& error == StoreError::InvariantViolation
                    &&& !old(self)@.can_install(
                        Session { session_id: id, account_id, created_at: now },
                    )
                    &&& final(self)@ == old(self)@
                },
            }),
    {
        let ghost before = self@;
        let session = Session { session_id: id, account_id, created_at: now };
        if self.find_credential(account_id).is_none() {
            return Err(StoreError::InvariantViolation);
        }
        if self.session_taken_by_other(id, account_id) {
            return Err(StoreError::InvariantViolation);
        }
        match self.find_session_of(account_id) {
            Some(at) => {
                self.sessions.remove(at);
                proof {
                    lemma_present_key(before.sessions, session_owner(), at as int);
                }
            },
            None => {
                proof {
                    lemma_absent_key(before.sessions, session_owner(), account_id as int);
                }
            },
        }
        self.sessions.push(session);
        proof {
            assert(self@.accounts == before.accounts);
            assert(self@.credentials == before.credentials);
            before.lemma_install(session);
        }
        Ok(session)
    }

    /// Draws a fresh session identifier and opens a session with it for the
    /// account, in place of whatever session the account had. Refused, with
    /// the store unchanged, where the account holds no credential or the
    /// identifier drawn is carried by another account's session.
    pub fn create_or_replace_session(&mut self, account_id: i64, now: i64) -> (outcome: Result<
        SessionId,
        StoreError,
    >)
        requires
            old(self).wf(),
        ensures
            final(self).wf(),
            (match outcome {
                Ok(id) => {
                    &&& old(self)@.can_install(
                        Session { session_id: id, account_id, created_at: now },
                    )
                    &&& final(self)@ == old(self)@.install(
                        Session { session_id: id, account_id, created_at: now },
                    )
                },
                Err(error) => {
                    &&& error == StoreError::InvariantViolation
                    &&& final(self)@ == old(self)@
                    &&& (!old(self)@.has_credential(account_id) || exists|i: int|
                        0 <= i < old(self)@.sessions.len() && (#[trigger] old(
                            self,
                        )@.sessions[i]).account_id != account_id)
                },
            }),
            !old(self)@.has_credential(account_id) ==> outcome is Err,
    {
        let id = SessionId::mint();
        match self.install_session(account_id, id, now) {
            Ok(session) => Ok(session.session_id),
            Err(error) => Err(error),
        }
    }

    /// Deletes the session with this identifier. Says whether there was one;
    /// where there was none the store is unchanged.
    pub fn delete_session(&mut self, id: SessionId) -> (found: bool)
        requires
            old(self).wf(),
        ensures
            final(self).wf(),
            final(self)@ == old(self)@.delete(id),
            found == old(self)@.has_session(id),
            !found ==> final(self)@ == old(self)@,
    {
        let ghost before = self@;
        proof {
            before.lemma_delete(id);
        }
        match self.find_session(id) {
            Some(at) => {
                self.sessions.remove(at);
                proof {
                    lemma_present_key(before.sessions, session_key(), at as int);
                }
                true
            },
            None => {
                proof {
                    lemma_absent_key(before.sessions, session_key(), id.value as int);
                }
                false
            },
        }
    }

    /// The number of account rows with this account id.
    pub fn account_rows(&self, account_id: i64) -> (n: usize)
        ensures
            n == self@.account_rows(account_id),
    {
        let mut n: usize = 0;
        let mut i: usize = 0;
        while i < self.accounts.len()
            invariant
                i <= self.accounts.len(),
                n <= i,
                n == count_key(self@.accounts.take(i as int), account_key(), account_id as int),
            decreases self.accounts.len() - i,
        {
            proof {
                let row = self@.accounts[i as int];
                assert(row == self.accounts@[i as int]@);
                assert(self@.accounts.take(i + 1) =~= self@.accounts.take(i as int).push(row));
                lemma_count_push(
                    self@.accounts.take(i as int),
                    row,
                    account_key(),
                    account_id as int,
                );
            }
            if self.accounts[i].account_id == account_id {
                n += 1;
            }
            i += 1;
        }
        assert(self@.accounts.take(i as int) =~= self@.accounts);
        n
    }

    /// The number of credential rows owned by this account.
    pub fn credential_rows(&self, account_id: i64) -> (n: usize)
        ensures
            n == self@.credential_rows(account_id),
    {
        let mut n: usize = 0;
        let mut i: usize = 0;
        while i < self.credentials.len()
            invariant
                i <= self.credentials.len(),
                n <= i,
                n == count_key(
                    self@.credentials.take(i as int),
                    credential_key(),
                    account_id as int,
                ),
            decreases self.credentials.len() - i,
        {
            proof {
                let row = self@.credentials[i as int];
                assert(row == self.credentials@[i as int]@);
                assert(self@.credentials.take(i + 1) =~= self@.credentials.take(i as int).push(
                    row,
                ));
                lemma_count_push(
                    self@.credentials.take(i as int),
                    row,
                    credential_key(),
                    account_id as int,
                );
            }
            if self.credentials[i].account_id == account_id {
                n += 1;
            }
            i += 1;
        }
        assert(self@.credentials.take(i as int) =~= self@.credentials);
        n
    }

    /// The number of session rows opened for this account.
    pub fn session_rows(&self, account_id: i64) -> (n: usize)
        ensures
            n == self@.session_rows(account_id),
    {
        let mut n: usize = 0;
        let mut i: usize = 0;
        while i < self.sessions.len()
            invariant
                i <= self.sessions.len(),
                n <= i,
                n == count_key(self@.sessions.take(i as int), session_owner(), account_id as int),
            decreases self.sessions.len() - i,
        {
            proof {
                let row = self@.sessions[i as int];
                assert(self@.sessions.take(i + 1) =~= self@.sessions.take(i as int).push(row));
                lemma_count_push(
                    self@.sessions.take(i as int),
                    row,
                    session_owner(),
                    account_id as int,
                );
            }
            if self.sessions[i].account_id == account_id {
                n += 1;
            }
            i += 1;
        }
        assert(self@.sessions.take(i as int) =~= self@.sessions);
        n
    }

    /// Whether some session carries this identifier.
    pub fn has_session(&self, id: SessionId) -> (found: bool)
        ensures
            found == self@.has_session(id),
    {
        match self.find_session(id) {
            Some(at) => {
                assert(session_key()(self@.sessions[at as int]) == id.value as int);
                true
            },
            None => false,
        }
    }

    /// The session opened for this account, if there is one.
    pub fn session_for(&self, account_id: i64) -> (session: Option<Session>)
        ensures
            (match session {
                Some(row) => self@.sessions.contains(row) && row.account_id == account_id,
                None => self@.session_rows(account_id) == 0,
            }),
    {
        match self.find_session_of(account_id) {
            Some(at) => {
                assert(self@.sessions[at as int] == self.sessions@[at as int]);
                Some(self.sessions[at])
            },
            None => {
                proof {
                    lemma_absent_key(self@.sessions, session_owner(), account_id as int);
                }
                None
            },
        }
    }

    /// The credential that this account holds, if it holds one.
    pub fn credential_for(&self, account_id: i64) -> (credential: Option<Credential>)
        ensures
            (match credential {
                Some(row) => self@.credentials.contains(row@) && row.account_id == account_id,
                None => self@.credential_rows(account_id) == 0,
            }),
    {
        match self.find_credential(account_id) {
            Some(at) => {
                assert(self@.credentials[at as int] == self.credentials@[at as int]@);
                Some(self.credentials[at].duplicate())
            },
            None => {
                proof {
                    lemma_absent_key(self@.credentials, credential_key(), account_id as int);
                }
                None
            },
        }
    }

    /// The account with this id, if there is one.
    pub fn account(&self, account_id: i64) -> (account: Option<Account>)
        ensures
            (match account {
                Some(row) => self@.accounts.contains(row@) && row.account_id == account_id,
                None => self@.account_rows(account_id) == 0,
            }),
    {
        match self.find_account(account_id) {
            Some(at) => {
                assert(self@.accounts[at as int] == self.accounts@[at as int]@);
                Some(self.accounts[at].duplicate())
            },
            None => {
                proof {
                    lemma_absent_key(self@.accounts, account_key(), account_id as int);
                }
                None
            },
        }
    }
}

} // verus!
