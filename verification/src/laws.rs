//! What the workflows achieve when they run against a working store.
//!
//! The spec functions here run a workflow to its end against the model of
//! [`Store`]: each request that the workflow names is answered by
//! [`Store::answer`], and the reply is handed back. The proof functions state
//! what comes out.

use crate::auth::change_allows;
use crate::auth::change_begin;
use crate::auth::change_step;
use crate::auth::change_verifies;
use crate::auth::login;
use crate::auth::registration_allows;
use crate::auth::registration_begin;
use crate::auth::registration_step;
use crate::auth::session_begin;
use crate::auth::session_created;
use crate::auth::session_fresh;
use crate::auth::session_step;
use crate::auth::vetting_of;
use crate::auth::PasswordChangeView;
use crate::auth::RegistrationView;
use crate::auth::StepView;
use crate::auth::SESSION_TTL;
use crate::error::AuthError;
use crate::models::NewSession;
use crate::models::NewUserView;
use crate::models::Session;
use crate::models::UserView;
use crate::password::hashed;
use crate::password::hashed_with;
use crate::password::is_salt;
use crate::password::verification;
use crate::store::Asked;
use crate::store::Store;
use crate::store::StoreReplyView;
use crate::store::StoreRequestView;
use uuid::Uuid;
use vstd::prelude::*;

verus! {

// ---------------------------------------------------------------------------
// Workflows run against the model
// ---------------------------------------------------------------------------
/// A registration run to its end. `vetted` is what vetting the password
/// gives, `fresh` the identifier that the store would assign.
pub open spec fn register(
    store: Store,
    login: Seq<char>,
    email: Seq<char>,
    password: Seq<char>,
    vetted: Result<Seq<char>, AuthError>,
    fresh: Uuid,
) -> (Store, Result<UserView, AuthError>) {
    let (state, request) = registration_begin(login, email, password);
    let (store, reply) = store.answer(request, fresh, 0);
    match registration_step(state, reply, vetted) {
        StepView::Done(result) => (store, result),
        StepView::Ask(state, request) => {
            let (store, reply) = store.answer(request, fresh, 0);
            match registration_step(state, reply, vetted) {
                StepView::Done(result) => (store, result),
                StepView::Ask(state, request) => {
                    let (store, reply) = store.answer(request, fresh, 0);
                    match registration_step(state, reply, vetted) {
                        StepView::Done(result) => (store, result),
                        StepView::Ask(_, _) => (store, Err(AuthError::Unexpected)),
                    }
                },
            }
        },
    }
}

/// A login run to its end.
pub open spec fn log_in(store: Store, user_login: Seq<char>, password: Seq<char>) -> Result<
    Uuid,
    AuthError,
> {
    login(store.serve(StoreRequestView::FindUserByLogin(user_login)).1, password)
}

/// A password change run to its end. `vetted` is what vetting the new
/// password gives.
pub open spec fn change_password(
    store: Store,
    login: Seq<char>,
    pass: Seq<char>,
    new_pass: Seq<char>,
    vetted: Result<Seq<char>, AuthError>,
) -> (Store, Result<(), AuthError>) {
    let (state, request) = change_begin(login, pass, new_pass);
    let (store, reply) = store.serve(request);
    match change_step(state, reply, change_verifies(state, reply), vetted) {
        StepView::Done(result) => (store, result),
        StepView::Ask(state, request) => {
            let (store, reply) = store.serve(request);
            match change_step(state, reply, change_verifies(state, reply), vetted) {
                StepView::Done(result) => (store, result),
                StepView::Ask(_, _) => (store, Err(AuthError::Unexpected)),
            }
        },
    }
}

/// A session issued for an account at the time `now`.
pub open spec fn issue(store: Store, user_id: Uuid, fresh: Uuid, now: u128) -> (
    Store,
    Result<Uuid, AuthError>,
) {
    let (store, reply) = store.answer(
        StoreRequestView::InsertSession(NewSession { user_id }),
        fresh,
        now,
    );
    (store, session_created(reply))
}

/// A validation run to its end at the time `now`.
pub open spec fn validate(store: Store, session_id: Uuid, now: u128) -> (
    Store,
    Result<UserView, AuthError>,
) {
    let (state, request) = session_begin(session_id);
    let (store, reply) = store.serve(request);
    match session_step(state, reply, now) {
        StepView::Done(result) => (store, result),
        StepView::Ask(state, request) => {
            let (store, reply) = store.serve(request);
            match session_step(state, reply, now) {
                StepView::Done(result) => (store, result),
                StepView::Ask(state, request) => {
                    let (store, reply) = store.serve(request);
                    match session_step(state, reply, now) {
                        StepView::Done(result) => (store, result),
                        StepView::Ask(_, _) => (store, Err(AuthError::Unexpected)),
                    }
                },
            }
        },
    }
}

// ---------------------------------------------------------------------------
// The hasher
// ---------------------------------------------------------------------------
/// Every digest that the hasher issues for a password was made with a salt
/// of the hasher's own drawing, and the password verifies against it:
/// however often a password is hashed, and whichever salts are drawn, each
/// of its digests verifies.
pub proof fn lemma_issued_digest_verifies(password: Seq<char>, digest: Seq<char>)
    requires
        hashed(password, digest),
    ensures
        verification(digest, password) == Ok::<bool, AuthError>(true),
        exists|salt: Seq<char>| is_salt(salt) && #[trigger] hashed_with(password, salt, digest),
{
}

// ---------------------------------------------------------------------------
// Registration and login
// ---------------------------------------------------------------------------
/// Registration succeeds for a login and an email that are both free and a
/// password that passes vetting: the store then holds the account, with the
/// digest in place of the password, and a login with the same login and
/// password gives that account's identifier.
pub proof fn lemma_register_then_login(
    store: Store,
    login: Seq<char>,
    email: Seq<char>,
    password: Seq<char>,
    digest: Seq<char>,
    fresh: Uuid,
)
    requires
        store.wf(),
        store.unused(fresh),
        store.by_login(login) is None,
        store.by_email(email) is None,
        vetting_of(password, Ok(digest)),
    ensures
        ({
            let account = UserView { id: fresh, login, email, password: digest };
            let (after, registered) = register(store, login, email, password, Ok(digest), fresh);
            &&& registered == Ok::<UserView, AuthError>(account)
            &&& after.wf()
            &&& after.users == store.users.insert(account)
            &&& after.sessions == store.sessions
            &&& log_in(after, login, password) == Ok::<Uuid, AuthError>(fresh)
        }),
{
    let account = UserView { id: fresh, login, email, password: digest };
    let new = NewUserView { login, email, password: digest };
    store.lemma_answer_wf(StoreRequestView::InsertUser(new), fresh, 0);
    let after = store.answer(StoreRequestView::InsertUser(new), fresh, 0).0;
    assert(after.users.contains(account));
    after.lemma_member_found(account);
}

/// A registration ends with `UserAlreadyExists` if the login or the email is
/// taken, whatever the password is like: vetting plays no part in the answer.
pub proof fn lemma_register_taken(
    store: Store,
    login: Seq<char>,
    email: Seq<char>,
    password: Seq<char>,
    vetted: Result<Seq<char>, AuthError>,
    fresh: Uuid,
)
    requires
        store.by_login(login) is Some || store.by_email(email) is Some,
    ensures
        register(store, login, email, password, vetted, fresh) == (
            store,
            Err::<UserView, AuthError>(AuthError::UserAlreadyExists),
        ),
{
}

/// A registration that fails leaves the store as it was, and one that
/// succeeds adds one account and touches nothing else.
pub proof fn lemma_registration_effect(
    store: Store,
    login: Seq<char>,
    email: Seq<char>,
    password: Seq<char>,
    vetted: Result<Seq<char>, AuthError>,
    fresh: Uuid,
)
    ensures
        ({
            let (after, registered) = register(store, login, email, password, vetted, fresh);
            match registered {
                Ok(account) => {
                    &&& vetted == Ok::<Seq<char>, AuthError>(account.password)
                    &&& account == UserView { id: fresh, login, email, password: account.password }
                    &&& after.users == store.users.insert(account)
                    &&& after.sessions == store.sessions
                },
                Err(e) => {
                    &&& after == store
                    &&& e == AuthError::UserAlreadyExists || vetted == Err::<Seq<char>, AuthError>(e)
                },
            }
        }),
{
}

/// Whatever a registration hands to the store as the account's password is a
/// digest that the hasher issued for the password, never the password as it
/// came in.
pub proof fn lemma_registration_stores_digest(
    progress: RegistrationView,
    reply: StoreReplyView,
    next: StepView<RegistrationView, UserView>,
)
    requires
        registration_allows(progress, reply, next),
    ensures
        next matches StepView::Ask(_, StoreRequestView::InsertUser(new)) ==> {
            &&& progress matches RegistrationView::EmailLookup { login, email, password }
            &&& new.login == login
            &&& new.email == email
            &&& hashed(password, new.password)
        },
{
}

/// A login with the login of an existing account never ends with
/// `UserNotFound`, and with a password that does not match the account's
/// digest it ends with `IncorrectPassword`.
pub proof fn lemma_wrong_password(store: Store, account: UserView, password: Seq<char>)
    requires
        store.wf(),
        store.users.contains(account),
    ensures
        log_in(store, account.login, password) != Err::<Uuid, AuthError>(AuthError::UserNotFound),
        verification(account.password, password) == Ok::<bool, AuthError>(false) ==> log_in(
            store,
            account.login,
            password,
        ) == Err::<Uuid, AuthError>(AuthError::IncorrectPassword),
{
    store.lemma_member_found(account);
}

// ---------------------------------------------------------------------------
// The strength policy
// ---------------------------------------------------------------------------
/// The strength policy is the same for a new account and for a new password
/// of that account. Take a candidate and what vetting it for the account's
/// login and email gives. A registration of the account, on a store where
/// login and email are free, ends with `WeakPassword` exactly if a password
/// change to the candidate does, on a store that holds the account, by a
/// caller who knows the old password.
pub proof fn lemma_weak_password_symmetry(
    vacant: Store,
    held: Store,
    account: UserView,
    old_password: Seq<char>,
    candidate: Seq<char>,
    vetted: Result<Seq<char>, AuthError>,
    fresh: Uuid,
)
    requires
        vacant.by_login(account.login) is None,
        vacant.by_email(account.email) is None,
        held.wf(),
        held.users.contains(account),
        verification(account.password, old_password) == Ok::<bool, AuthError>(true),
    ensures
        register(vacant, account.login, account.email, candidate, vetted, fresh).1 == Err::<
            UserView,
            AuthError,
        >(AuthError::WeakPassword) <==> change_password(
            held,
            account.login,
            old_password,
            candidate,
            vetted,
        ).1 == Err::<(), AuthError>(AuthError::WeakPassword),
{
    held.lemma_member_found(account);
}

// ---------------------------------------------------------------------------
// Password change
// ---------------------------------------------------------------------------
/// A password change by a caller who knows the old password, to a password
/// that passes vetting, succeeds. It replaces the account's digest and
/// nothing else: identifier, login and email stay, and so do all other
/// accounts and the sessions. A login with the new password then gives the
/// account's identifier.
pub proof fn lemma_change_then_login(
    store: Store,
    account: UserView,
    old_password: Seq<char>,
    new_password: Seq<char>,
    digest: Seq<char>,
)
    requires
        store.wf(),
        store.users.contains(account),
        verification(account.password, old_password) == Ok::<bool, AuthError>(true),
        vetting_of(new_password, Ok(digest)),
    ensures
        ({
            let (after, changed) = change_password(
                store,
                account.login,
                old_password,
                new_password,
                Ok(digest),
            );
            let updated = UserView {
                id: account.id,
                login: account.login,
                email: account.email,
                password: digest,
            };
            &&& changed == Ok::<(), AuthError>(())
            &&& after.wf()
            &&& after.users == store.users.remove(account).insert(updated)
            &&& after.sessions == store.sessions
            &&& log_in(after, account.login, new_password) == Ok::<Uuid, AuthError>(account.id)
        }),
{
    store.lemma_member_found(account);
    let request = StoreRequestView::UpdatePassword { login: account.login, password: digest };
    store.lemma_answer_wf(request, arbitrary(), 0);
    let after = store.serve(request).0;
    let updated = UserView {
        id: account.id,
        login: account.login,
        email: account.email,
        password: digest,
    };
    assert(after.users.contains(updated));
    after.lemma_member_found(updated);
}

/// A password change that fails leaves the store as it was. Without the old
/// password it always fails: with `IncorrectPassword` where the password
/// does not match, and before the new password is looked at.
pub proof fn lemma_change_needs_old_password(
    store: Store,
    account: UserView,
    old_password: Seq<char>,
    new_password: Seq<char>,
    vetted: Result<Seq<char>, AuthError>,
)
    requires
        store.wf(),
        store.users.contains(account),
    ensures
        ({
            let (after, changed) = change_password(
                store,
                account.login,
                old_password,
                new_password,
                vetted,
            );
            &&& changed is Err ==> after == store
            &&& verification(account.password, old_password) == Ok::<bool, AuthError>(false)
                ==> changed == Err::<(), AuthError>(AuthError::IncorrectPassword)
            &&& verification(account.password, old_password) != Ok::<bool, AuthError>(true)
                ==> changed is Err
        }),
{
    store.lemma_member_found(account);
}

/// Whatever a password change hands to the store is a digest that the hasher
/// issued for the new password, and it is handed over only after the old
/// password matched the digest of the account that was found.
pub proof fn lemma_change_stores_digest(
    progress: PasswordChangeView,
    reply: StoreReplyView,
    next: StepView<PasswordChangeView, ()>,
)
    requires
        change_allows(progress, reply, next),
    ensures
        next matches StepView::Ask(_, StoreRequestView::UpdatePassword { login, password }) ==> {
            &&& progress matches PasswordChangeView::Lookup { login: asked, pass, new_pass }
            &&& reply matches StoreReplyView::User(account)
            &&& login == asked
            &&& verification(account.password, pass) == Ok::<bool, AuthError>(true)
            &&& hashed(new_pass, password)
        },
{
}

// ---------------------------------------------------------------------------
// Sessions
// ---------------------------------------------------------------------------
/// A validation never touches an account and never creates a session: the
/// most it does to the store is to remove the session that it was asked
/// about.
pub proof fn lemma_validation_only_evicts(store: Store, session_id: Uuid, now: u128)
    requires
        store.wf(),
    ensures
        ({
            let (after, result) = validate(store, session_id, now);
            &&& after.users == store.users
            &&& after.sessions == store.sessions || after.sessions == store.sessions.remove(
                session_id,
            )
            &&& result is Ok ==> after == store
            &&& after.wf()
        }),
{
    if store.sessions.dom().contains(session_id) {
        store.lemma_answer_wf(StoreRequestView::DeleteSession(session_id), arbitrary(), 0);
    }
}

/// A session that the store holds gives its account as long as it is fresh,
/// and the validation changes nothing in the store.
pub proof fn lemma_fresh_session_is_valid(store: Store, session: Session, now: u128)
    requires
        store.wf(),
        store.session(session.id) == Some(session),
        session_fresh(session, now),
    ensures
        store.by_id(session.user_id) is Some,
        validate(store, session.id, now) == (
            store,
            Ok::<UserView, AuthError>(store.by_id(session.user_id)->Some_0),
        ),
{
    assert(store.sessions.dom().contains(session.id));
}

/// A session that has reached its time to live is refused with
/// `SessionExpired` and removed from the store, and from then on it is
/// unusable: validating it again, at whatever time, fails and leaves the
/// store as it is.
pub proof fn lemma_expired_session_is_evicted(
    store: Store,
    session: Session,
    now: u128,
    later: u128,
)
    requires
        store.wf(),
        store.session(session.id) == Some(session),
        now >= session.iat + SESSION_TTL,
    ensures
        ({
            let (after, result) = validate(store, session.id, now);
            &&& result == Err::<UserView, AuthError>(AuthError::SessionExpired)
            &&& after.wf()
            &&& after.users == store.users
            &&& after.sessions == store.sessions.remove(session.id)
            &&& validate(after, session.id, later) == (
                after,
                Err::<UserView, AuthError>(AuthError::Unexpected),
            )
        }),
{
    assert(store.sessions.dom().contains(session.id));
    store.lemma_answer_wf(StoreRequestView::DeleteSession(session.id), arbitrary(), 0);
}

/// Nothing brings an evicted session back. Whatever the store is asked after
/// a session has gone, validating the session fails, at whatever time, as long
/// as the store does not assign the identifier anew.
pub proof fn lemma_evicted_session_stays_out(
    store: Store,
    session_id: Uuid,
    asked: Seq<Asked>,
    later: u128,
)
    requires
        store.session(session_id) is None,
        forall|i: int| 0 <= i < asked.len() ==> (#[trigger] asked[i]).fresh != session_id,
    ensures
        validate(store.after(asked), session_id, later) == (
            store.after(asked),
            Err::<UserView, AuthError>(AuthError::Unexpected),
        ),
{
    store.lemma_absent_session_stays_absent(session_id, asked);
}

/// A session issued to an existing account is valid from the moment it was
/// issued until `SESSION_TTL` has passed, and gives that account.
pub proof fn lemma_issued_session_is_valid(
    store: Store,
    account: UserView,
    fresh: Uuid,
    issued_at: u128,
    now: u128,
)
    requires
        store.wf(),
        store.unused(fresh),
        store.users.contains(account),
        issued_at <= now < issued_at + SESSION_TTL,
    ensures
        ({
            let (after, issued) = issue(store, account.id, fresh, issued_at);
            &&& issued == Ok::<Uuid, AuthError>(fresh)
            &&& after.wf()
            &&& validate(after, fresh, now) == (after, Ok::<UserView, AuthError>(account))
        }),
{
    store.lemma_member_found(account);
    let request = StoreRequestView::InsertSession(NewSession { user_id: account.id });
    store.lemma_answer_wf(request, fresh, issued_at);
    let after = store.answer(request, fresh, issued_at).0;
    after.lemma_member_found(account);
    let session = Session { id: fresh, iat: issued_at, user_id: account.id };
    assert(after.session(fresh) == Some(session));
    lemma_fresh_session_is_valid(after, session, now);
}

// ---------------------------------------------------------------------------
// Registrations that run at the same time
// ---------------------------------------------------------------------------
/// What one registration brings along, besides the login: the email, the
/// password, the digest that vetting the password gives, and the identifier
/// that the store would assign to the account.
pub struct Entrant {
    pub email: Seq<char>,
    pub password: Seq<char>,
    pub digest: Seq<char>,
    pub id: Uuid,
}

/// A registration that runs beside others: it waits for the reply to a
/// request, or it has ended.
pub enum Contender {
    Waiting(RegistrationView, StoreRequestView),
    Ended(Result<UserView, AuthError>),
}

/// Two registrations under way against one store.
pub struct Race {
    pub store: Store,
    pub first: Contender,
    pub second: Contender,
}

/// The account that an entrant's registration creates.
pub open spec fn account_of(login: Seq<char>, entrant: Entrant) -> UserView {
    UserView { id: entrant.id, login, email: entrant.email, password: entrant.digest }
}

/// An entrant's registration before its first request is answered.
pub open spec fn entered(login: Seq<char>, entrant: Entrant) -> Contender {
    let (state, request) = registration_begin(login, entrant.email, entrant.password);
    Contender::Waiting(state, request)
}

/// One turn of a contender: the store answers the request that is out, in
/// one piece, and the registration takes its step. A registration that has
/// ended stays as it is.
pub open spec fn turn(store: Store, contender: Contender, entrant: Entrant) -> (Store, Contender) {
    match contender {
        Contender::Ended(_) => (store, contender),
        Contender::Waiting(state, request) => {
            let (store, reply) = store.answer(request, entrant.id, 0);
            match registration_step(state, reply, Ok(entrant.digest)) {
                StepView::Ask(state, request) => (store, Contender::Waiting(state, request)),
                StepView::Done(result) => (store, Contender::Ended(result)),
            }
        },
    }
}

/// The race after the turns that `schedule` lists: `true` is a turn of the
/// first contender, `false` one of the second.
pub open spec fn race(start: Race, first: Entrant, second: Entrant, schedule: Seq<bool>) -> Race
    decreases schedule.len(),
{
    if schedule.len() == 0 {
        start
    } else if schedule[0] {
        let (store, contender) = turn(start.store, start.first, first);
        race(
            Race { store, first: contender, second: start.second },
            first,
            second,
            schedule.drop_first(),
        )
    } else {
        let (store, contender) = turn(start.store, start.second, second);
        race(
            Race { store, first: start.first, second: contender },
            first,
            second,
            schedule.drop_first(),
        )
    }
}

/// How many turns `schedule` gives to one of the two contenders.
pub open spec fn turns(schedule: Seq<bool>, who: bool) -> nat
    decreases schedule.len(),
{
    if schedule.len() == 0 {
        0
    } else if schedule[0] == who {
        1 + turns(schedule.drop_first(), who)
    } else {
        turns(schedule.drop_first(), who)
    }
}

/// The turns that a contender needs at most until it has ended.
spec fn turns_left(contender: Contender) -> nat {
    match contender {
        Contender::Waiting(RegistrationView::LoginLookup { .. }, _) => 3,
        Contender::Waiting(RegistrationView::EmailLookup { .. }, _) => 2,
        Contender::Waiting(RegistrationView::Insert, _) => 1,
        Contender::Ended(_) => 0,
    }
}

/// The contender is at one of the three requests of its registration.
spec fn under_way(login: Seq<char>, entrant: Entrant, contender: Contender) -> bool {
    let email = entrant.email;
    let password = entrant.password;
    ||| contender == Contender::Waiting(
        RegistrationView::LoginLookup { login, email, password },
        StoreRequestView::FindUserByLogin(login),
    )
    ||| contender == Contender::Waiting(
        RegistrationView::EmailLookup { login, email, password },
        StoreRequestView::FindUserByEmail(email),
    )
    ||| contender == Contender::Waiting(
        RegistrationView::Insert,
        StoreRequestView::InsertUser(NewUserView { login, email, password: entrant.digest }),
    )
}

/// The store holds what `base` held and the account of `winner`, whose
/// registration has succeeded; the other registration is under way or has
/// been turned away.
spec fn won(base: Store, login: Seq<char>, winner: Entrant, store: Store, won: Contender, loser: Entrant, other: Contender) -> bool {
    &&& store == Store {
        users: base.users.insert(account_of(login, winner)),
        sessions: base.sessions,
    }
    &&& won == Contender::Ended(Ok(account_of(login, winner)))
    &&& under_way(login, loser, other) || other == Contender::Ended(
        Err(AuthError::UserAlreadyExists),
    )
}

/// What holds of a race for one login at every moment: either no account has
/// been created yet and both registrations are under way, or exactly one of
/// them has created its account.
spec fn race_inv(base: Store, login: Seq<char>, first: Entrant, second: Entrant, at: Race) -> bool {
    ||| at.store == base && under_way(login, first, at.first) && under_way(login, second, at.second)
    ||| won(base, login, first, at.store, at.first, second, at.second)
    ||| won(base, login, second, at.store, at.second, first, at.first)
}

/// A turn of either contender keeps the invariant of the race and brings the
/// contender one turn nearer to its end.
proof fn lemma_turn_keeps_race(
    base: Store,
    login: Seq<char>,
    first: Entrant,
    second: Entrant,
    at: Race,
    who: bool,
)
    requires
        base.by_login(login) is None,
        base.by_email(first.email) is None,
        base.by_email(second.email) is None,
        race_inv(base, login, first, second, at),
    ensures
        ({
            let next = if who {
                let (store, contender) = turn(at.store, at.first, first);
                Race { store, first: contender, second: at.second }
            } else {
                let (store, contender) = turn(at.store, at.second, second);
                Race { store, first: at.first, second: contender }
            };
            &&& race_inv(base, login, first, second, next)
            &&& turns_left(next.first) <= turns_left(at.first)
            &&& turns_left(next.second) <= turns_left(at.second)
            &&& who && !(at.first is Ended) ==> turns_left(next.first) < turns_left(at.first)
            &&& !who && !(at.second is Ended) ==> turns_left(next.second) < turns_left(at.second)
        }),
{
    if won(base, login, first, at.store, at.first, second, at.second) {
        let winner = account_of(login, first);
        assert(at.store.users.contains(winner) && winner.login == login);
        assert(at.store.by_login(login) is Some);
    } else if won(base, login, second, at.store, at.second, first, at.first) {
        let winner = account_of(login, second);
        assert(at.store.users.contains(winner) && winner.login == login);
        assert(at.store.by_login(login) is Some);
    } else {
        assert(at.store == base);
    }
}

/// Two registrations for the same login that run at the same time, in
/// whatever order the store answers their requests: once both have ended,
/// exactly one has succeeded and the other was refused with
/// `UserAlreadyExists`. Each has ended after three turns at the latest.
///
/// The login and both emails are free at the start, and both passwords pass
/// vetting: nothing but the other registration stands in the way of either.
pub proof fn lemma_concurrent_registration(
    store: Store,
    login: Seq<char>,
    first: Entrant,
    second: Entrant,
    schedule: Seq<bool>,
)
    requires
        store.by_login(login) is None,
        store.by_email(first.email) is None,
        store.by_email(second.email) is None,
    ensures
        ({
            let start = Race {
                store,
                first: entered(login, first),
                second: entered(login, second),
            };
            let end = race(start, first, second, schedule);
            let refused = Contender::Ended(Err(AuthError::UserAlreadyExists));
            &&& turns(schedule, true) >= 3 ==> end.first is Ended
            &&& turns(schedule, false) >= 3 ==> end.second is Ended
            &&& end.first is Ended && end.second is Ended ==> {
                ||| end.first == Contender::Ended(Ok(account_of(login, first))) && end.second
                    == refused
                ||| end.second == Contender::Ended(Ok(account_of(login, second))) && end.first
                    == refused
            }
        }),
{
    let start = Race { store, first: entered(login, first), second: entered(login, second) };
    lemma_race(store, login, first, second, start, schedule);
}

/// The invariant of the race holds after any schedule, and a contender that
/// was given the turns it needed has ended.
proof fn lemma_race(
    base: Store,
    login: Seq<char>,
    first: Entrant,
    second: Entrant,
    at: Race,
    schedule: Seq<bool>,
)
    requires
        base.by_login(login) is None,
        base.by_email(first.email) is None,
        base.by_email(second.email) is None,
        race_inv(base, login, first, second, at),
    ensures
        ({
            let end = race(at, first, second, schedule);
            &&& race_inv(base, login, first, second, end)
            &&& turns(schedule, true) >= turns_left(at.first) ==> end.first is Ended
            &&& turns(schedule, false) >= turns_left(at.second) ==> end.second is Ended
        }),
    decreases schedule.len(),
{
    if schedule.len() > 0 {
        let who = schedule[0];
        lemma_turn_keeps_race(base, login, first, second, at, who);
        let next = if who {
            let (store, contender) = turn(at.store, at.first, first);
            Race { store, first: contender, second: at.second }
        } else {
            let (store, contender) = turn(at.store, at.second, second);
            Race { store, first: at.first, second: contender }
        };
        lemma_race(base, login, first, second, next, schedule.drop_first());
    }
}

} // verus!
