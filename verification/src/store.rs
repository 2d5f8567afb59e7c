//! The credential store, seen from the workflows: what they ask of it, what
//! it answers, and a mathematical model of how a working store behaves.
//!
//! The store itself lives outside the library. It holds the accounts and the
//! sessions, assigns their identifiers, stamps each session with the time of
//! its creation, and keeps logins and emails unique on its own authority.

use crate::models::NewSession;
use crate::models::NewUser;
use crate::models::NewUserView;
use crate::models::Session;
use crate::models::User;
use crate::models::UserView;
use uuid::Uuid;
use vstd::prelude::*;

verus! {

/// One single-row operation that a workflow asks of the store.
#[derive(Debug, Clone, PartialEq, Eq)]
pub enum StoreRequest {
    /// The account with this login.
    FindUserByLogin(String),
    /// The account with this email.
    FindUserByEmail(String),
    /// The account with this identifier.
    FindUserById(Uuid),
    /// Create this account.
    InsertUser(NewUser),
    /// Replace the digest of the account with this login.
    UpdatePassword { login: String, password: String },
    /// The session with this identifier.
    FindSession(Uuid),
    /// Create a session for this account.
    InsertSession(NewSession),
    /// Remove the session with this identifier.
    DeleteSession(Uuid),
}

/// The mathematical value of a [`StoreRequest`].
pub enum StoreRequestView {
    FindUserByLogin(Seq<char>),
    FindUserByEmail(Seq<char>),
    FindUserById(Uuid),
    InsertUser(NewUserView),
    UpdatePassword { login: Seq<char>, password: Seq<char> },
    FindSession(Uuid),
    InsertSession(NewSession),
    DeleteSession(Uuid),
}

impl View for StoreRequest {
    type V = StoreRequestView;

    open spec fn view(&self) -> StoreRequestView {
        match *self {
            StoreRequest::FindUserByLogin(login) => StoreRequestView::FindUserByLogin(login@),
            StoreRequest::FindUserByEmail(email) => StoreRequestView::FindUserByEmail(email@),
            StoreRequest::FindUserById(id) => StoreRequestView::FindUserById(id),
            StoreRequest::InsertUser(user) => StoreRequestView::InsertUser(user@),
            StoreRequest::UpdatePassword { login, password } => StoreRequestView::UpdatePassword {
                login: login@,
                password: password@,
            },
            StoreRequest::FindSession(id) => StoreRequestView::FindSession(id),
            StoreRequest::InsertSession(session) => StoreRequestView::InsertSession(session),
            StoreRequest::DeleteSession(id) => StoreRequestView::DeleteSession(id),
        }
    }
}

/// What the store answers to a request.
#[derive(Debug, Clone, PartialEq, Eq)]
pub enum StoreReply {
    /// The account that was found, created or updated.
    User(User),
    /// The session that was found or created.
    Session(Session),
    /// No row answers the request.
    NotFound,
    /// The row, if there was one, is gone.
    Deleted,
    /// The insert would have broken the uniqueness of logins or emails.
    Conflict,
    /// The store failed in some other way.
    Failed,
}

/// The mathematical value of a [`StoreReply`].
pub enum StoreReplyView {
    User(UserView),
    Session(Session),
    NotFound,
    Deleted,
    Conflict,
    Failed,
}

impl View for StoreReply {
    type V = StoreReplyView;

    open spec fn view(&self) -> StoreReplyView {
        match *self {
            StoreReply::User(user) => StoreReplyView::User(user@),
            StoreReply::Session(session) => StoreReplyView::Session(session),
            StoreReply::NotFound => StoreReplyView::NotFound,
            StoreReply::Deleted => StoreReplyView::Deleted,
            StoreReply::Conflict => StoreReplyView::Conflict,
            StoreReply::Failed => StoreReplyView::Failed,
        }
    }
}

/// A model of the store's contents: the accounts, and the sessions by their
/// identifiers.
pub struct Store {
    pub users: Set<UserView>,
    pub sessions: Map<Uuid, Session>,
}

/// A request as the store takes it: with the identifier that it would assign
/// to a new row and the time that it would stamp on a new session.
pub struct Asked {
    pub request: StoreRequestView,
    pub fresh: Uuid,
    pub now: u128,
}

/// The reply to a lookup.
pub open spec fn found(user: Option<UserView>) -> StoreReplyView {
    match user {
        Some(user) => StoreReplyView::User(user),
        None => StoreReplyView::NotFound,
    }
}

impl Store {
    /// The account with this login, if there is one.
    pub open spec fn by_login(self, login: Seq<char>) -> Option<UserView> {
        if exists|u: UserView| self.users.contains(u) && u.login == login {
            Some(choose|u: UserView| self.users.contains(u) && u.login == login)
        } else {
            None
        }
    }

    /// The account with this email, if there is one.
    pub open spec fn by_email(self, email: Seq<char>) -> Option<UserView> {
        if exists|u: UserView| self.users.contains(u) && u.email == email {
            Some(choose|u: UserView| self.users.contains(u) && u.email == email)
        } else {
            None
        }
    }

    /// The account with this identifier, if there is one.
    pub open spec fn by_id(self, id: Uuid) -> Option<UserView> {
        if exists|u: UserView| self.users.contains(u) && u.id == id {
            Some(choose|u: UserView| self.users.contains(u) && u.id == id)
        } else {
            None
        }
    }

    /// The session with this identifier, if there is one.
    pub open spec fn session(self, id: Uuid) -> Option<Session> {
        if self.sessions.dom().contains(id) {
            Some(self.sessions[id])
        } else {
            None
        }
    }

    /// No account and no session has this identifier.
    pub open spec fn unused(self, id: Uuid) -> bool {
        self.by_id(id) is None && self.session(id) is None
    }

    /// What the store guarantees of its contents: no two accounts share an
    /// identifier, a login or an email; each session is filed under its own
    /// identifier and belongs to an account that exists.
    pub open spec fn wf(self) -> bool {
        &&& forall|a: UserView, b: UserView|
            #![trigger self.users.contains(a), self.users.contains(b)]
            self.users.contains(a) && self.users.contains(b) && (a.id == b.id || a.login == b.login
                || a.email == b.email) ==> a == b
        &&& forall|id: Uuid| #[trigger]
            self.sessions.dom().contains(id) ==> self.sessions[id].id == id && self.by_id(
                self.sessions[id].user_id,
            ) is Some
    }

    /// How a working store answers a request, and what it holds afterwards.
    ///
    /// `fresh` is the identifier that the store would assign to a new row and
    /// `now` the time that it would stamp on a new session; both matter only
    /// to the two inserts.
    pub open spec fn answer(self, request: StoreRequestView, fresh: Uuid, now: u128) -> (
        Store,
        StoreReplyView,
    ) {
        match request {
            StoreRequestView::FindUserByLogin(login) => (self, found(self.by_login(login))),
            StoreRequestView::FindUserByEmail(email) => (self, found(self.by_email(email))),
            StoreRequestView::FindUserById(id) => (self, found(self.by_id(id))),
            StoreRequestView::InsertUser(new) => {
                if self.by_login(new.login) is Some || self.by_email(new.email) is Some {
                    (self, StoreReplyView::Conflict)
                } else {
                    let user = UserView {
                        id: fresh,
                        login: new.login,
                        email: new.email,
                        password: new.password,
                    };
                    (
                        Store { users: self.users.insert(user), sessions: self.sessions },
                        StoreReplyView::User(user),
                    )
                }
            },
            StoreRequestView::UpdatePassword { login, password } => {
                match self.by_login(login) {
                    Some(old) => {
                        let user = UserView {
                            id: old.id,
                            login: old.login,
                            email: old.email,
                            password,
                        };
                        (
                            Store {
                                users: self.users.remove(old).insert(user),
                                sessions: self.sessions,
                            },
                            StoreReplyView::User(user),
                        )
                    },
                    None => (self, StoreReplyView::NotFound),
                }
            },
            StoreRequestView::FindSession(id) => {
                match self.session(id) {
                    Some(session) => (self, StoreReplyView::Session(session)),
                    None => (self, StoreReplyView::NotFound),
                }
            },
            StoreRequestView::InsertSession(new) => {
                if self.by_id(new.user_id) is Some {
                    let session = Session { id: fresh, iat: now, user_id: new.user_id };
                    (
                        Store { users: self.users, sessions: self.sessions.insert(fresh, session) },
                        StoreReplyView::Session(session),
                    )
                } else {
                    (self, StoreReplyView::Failed)
                }
            },
            StoreRequestView::DeleteSession(id) => (
                Store { users: self.users, sessions: self.sessions.remove(id) },
                StoreReplyView::Deleted,
            ),
        }
    }

    /// How a working store answers a request that creates no row: a lookup,
    /// an update or a removal.
    pub open spec fn serve(self, request: StoreRequestView) -> (Store, StoreReplyView) {
        self.answer(request, arbitrary(), 0)
    }

    /// What the store holds after it has answered a run of requests.
    pub open spec fn after(self, asked: Seq<Asked>) -> Store
        decreases asked.len(),
    {
        if asked.len() == 0 {
            self
        } else {
            self.answer(asked[0].request, asked[0].fresh, asked[0].now).0.after(asked.drop_first())
        }
    }

    /// In a well-formed store an account is found under its own login, email
    /// and identifier.
    pub proof fn lemma_member_found(self, user: UserView)
        requires
            self.wf(),
            self.users.contains(user),
        ensures
            self.by_login(user.login) == Some(user),
            self.by_email(user.email) == Some(user),
            self.by_id(user.id) == Some(user),
    {
    }

    /// What a lookup finds is an account of the store, and it has the key
    /// that was asked for.
    pub proof fn lemma_found_member(self, user: UserView)
        ensures
            self.by_login(user.login) == Some(user) ==> self.users.contains(user),
            self.by_email(user.email) == Some(user) ==> self.users.contains(user),
            self.by_id(user.id) == Some(user) ==> self.users.contains(user),
            forall|login: Seq<char>| #[trigger]
                self.by_login(login) == Some(user) ==> user.login == login,
            forall|email: Seq<char>| #[trigger]
                self.by_email(email) == Some(user) ==> user.email == email,
            forall|id: Uuid| #[trigger] self.by_id(id) == Some(user) ==> user.id == id,
    {
    }

    /// Accounts are only ever added or given a new digest: an identifier that
    /// had an account before a request has one after it.
    pub proof fn lemma_answer_keeps_accounts(
        self,
        request: StoreRequestView,
        fresh: Uuid,
        now: u128,
        id: Uuid,
    )
        requires
            self.by_id(id) is Some,
        ensures
            self.answer(request, fresh, now).0.by_id(id) is Some,
    {
        let after = self.answer(request, fresh, now).0;
        let witness = self.by_id(id)->Some_0;
        match request {
            StoreRequestView::InsertUser(new) => {
                assert(after.users.contains(witness));
            },
            StoreRequestView::UpdatePassword { login, password } => {
                match self.by_login(login) {
                    Some(old) => {
                        let user = UserView {
                            id: old.id,
                            login: old.login,
                            email: old.email,
                            password,
                        };
                        if witness == old {
                            assert(after.users.contains(user) && user.id == id);
                        } else {
                            assert(after.users.contains(witness));
                        }
                    },
                    None => {},
                }
            },
            _ => {},
        }
    }

    /// A working store stays well formed, whatever it is asked, as long as
    /// the identifier that it assigns to a new row is not in use.
    pub proof fn lemma_answer_wf(self, request: StoreRequestView, fresh: Uuid, now: u128)
        requires
            self.wf(),
            request is InsertUser || request is InsertSession ==> self.unused(fresh),
        ensures
            self.answer(request, fresh, now).0.wf(),
    {
        let after = self.answer(request, fresh, now).0;
        assert forall|id: Uuid| #[trigger] after.sessions.dom().contains(id) implies after.by_id(
            after.sessions[id].user_id,
        ) is Some by {
            let owner = after.sessions[id].user_id;
            if self.sessions.dom().contains(id) {
                assert(after.sessions[id] == self.sessions[id]);
                self.lemma_answer_keeps_accounts(request, fresh, now, owner);
            } else {
                assert(request is InsertSession);
                assert(self.by_id(owner) is Some);
                assert(after.users == self.users);
            }
        }
        match request {
            StoreRequestView::InsertUser(new) => {
                if !(self.by_login(new.login) is Some || self.by_email(new.email) is Some) {
                    let user = UserView {
                        id: fresh,
                        login: new.login,
                        email: new.email,
                        password: new.password,
                    };
                    assert forall|a: UserView, b: UserView|
                        #![trigger after.users.contains(a), after.users.contains(b)]
                        after.users.contains(a) && after.users.contains(b) && (a.id == b.id
                            || a.login == b.login || a.email == b.email) implies a == b by {
                        if a != user {
                            assert(self.users.contains(a));
                        }
                        if b != user {
                            assert(self.users.contains(b));
                        }
                    }
                }
            },
            StoreRequestView::UpdatePassword { login, password } => {
                match self.by_login(login) {
                    Some(old) => {
                        let user = UserView {
                            id: old.id,
                            login: old.login,
                            email: old.email,
                            password,
                        };
                        assert(self.users.contains(old));
                        assert forall|a: UserView, b: UserView|
                            #![trigger after.users.contains(a), after.users.contains(b)]
                            after.users.contains(a) && after.users.contains(b) && (a.id == b.id
                                || a.login == b.login || a.email == b.email) implies a == b by {
                            if a != user {
                                assert(self.users.contains(a));
                            }
                            if b != user {
                                assert(self.users.contains(b));
                            }
                        }
                    },
                    None => {},
                }
            },
            _ => {},
        }
    }

    /// An account stays what it is but for its digest: whatever the store is
    /// asked, the account keeps its identifier, its login and its email, and
    /// only a password update for its login gives it another digest.
    pub proof fn lemma_answer_keeps_identity(
        self,
        request: StoreRequestView,
        fresh: Uuid,
        now: u128,
        user: UserView,
    )
        requires
            self.wf(),
            self.users.contains(user),
            request is InsertUser || request is InsertSession ==> self.unused(fresh),
        ensures
            ({
                let after = self.answer(request, fresh, now).0;
                &&& after.by_id(user.id) matches Some(kept)
                &&& kept.login == user.login
                &&& kept.email == user.email
                &&& kept.password == user.password || (request
                    matches StoreRequestView::UpdatePassword { login, password }
                    && login == user.login && kept.password == password)
            }),
    {
        let after = self.answer(request, fresh, now).0;
        self.lemma_answer_wf(request, fresh, now);
        self.lemma_member_found(user);
        match request {
            StoreRequestView::UpdatePassword { login, password } => {
                match self.by_login(login) {
                    Some(old) => {
                        let updated = UserView {
                            id: old.id,
                            login: old.login,
                            email: old.email,
                            password,
                        };
                        if old == user {
                            assert(after.users.contains(updated));
                            after.lemma_member_found(updated);
                        } else {
                            assert(after.users.contains(user));
                            after.lemma_member_found(user);
                        }
                    },
                    None => {},
                }
            },
            _ => {
                assert(after.users.contains(user));
                after.lemma_member_found(user);
            },
        }
    }

    /// Every identifier that the store assigns in the course of these
    /// requests is unused at the time.
    pub open spec fn assigns_unused(self, asked: Seq<Asked>) -> bool
        decreases asked.len(),
    {
        if asked.len() == 0 {
            true
        } else {
            let first = asked[0];
            &&& first.request is InsertUser || first.request is InsertSession ==> self.unused(
                first.fresh,
            )
            &&& self.answer(first.request, first.fresh, first.now).0.assigns_unused(
                asked.drop_first(),
            )
        }
    }

    /// Uniqueness holds at every moment: a store that was well formed is well
    /// formed after any run of requests, as long as it never assigns an
    /// identifier twice.
    pub proof fn lemma_after_wf(self, asked: Seq<Asked>)
        requires
            self.wf(),
            self.assigns_unused(asked),
        ensures
            self.after(asked).wf(),
        decreases asked.len(),
    {
        if asked.len() > 0 {
            let first = asked[0];
            self.lemma_answer_wf(first.request, first.fresh, first.now);
            self.answer(first.request, first.fresh, first.now).0.lemma_after_wf(asked.drop_first());
        }
    }

    /// A session that is not in the store does not come back: whatever the
    /// store is asked, the identifier stays without a session unless the store
    /// assigns it anew.
    pub proof fn lemma_absent_session_stays_absent(self, id: Uuid, asked: Seq<Asked>)
        requires
            self.session(id) is None,
            forall|i: int| 0 <= i < asked.len() ==> (#[trigger] asked[i]).fresh != id,
        ensures
            self.after(asked).session(id) is None,
        decreases asked.len(),
    {
        if asked.len() > 0 {
            let next = self.answer(asked[0].request, asked[0].fresh, asked[0].now).0;
            let rest = asked.drop_first();
            assert forall|i: int| 0 <= i < rest.len() implies (#[trigger] rest[i]).fresh != id by {
                assert(rest[i] == asked[i + 1]);
            }
            next.lemma_absent_session_stays_absent(id, rest);
        }
    }
}

} // verus!
