//! The credential and session workflows.
//!
//! A workflow never talks to the store. It is started with its inputs and
//! names a first [`StoreRequest`]; whoever runs it performs the request and
//! hands the [`StoreReply`] to the workflow's function, which answers with a
//! [`Step`]: another request to perform, or the result. Lookups, login and
//! session creation need a single reply and return their result at once.
//!
//! Each workflow is specified by a spec function of the same shape over the
//! views of its inputs. Where a workflow hashes or scores a password, the
//! spec function takes the outcome as an argument, and a `decide_` function
//! with an exact contract does the same in executable code.

pub use crate::error::AuthError;
use crate::models::NewUser;
use crate::models::NewUserView;
use crate::models::Session;
use crate::models::User;
use crate::models::UserView;
use crate::password::hash_pass;
use crate::password::hashed;
use crate::password::verification;
use crate::password::verify_pass;
use crate::password::MAX_PASSWORD_BYTES;
use crate::store::StoreReply;
use crate::store::StoreReplyView;
use crate::store::StoreRequest;
use crate::store::StoreRequestView;
use crate::strength::is_strong;
use uuid::Uuid;
use vstd::prelude::*;
use vstd::utf8::encode_utf8;

verus! {

/// How long a session stays valid after it was issued, in nanoseconds: ten
/// minutes. Validation never extends it.
pub const SESSION_TTL: u128 = 600_000_000_000;

/// What a workflow does next.
#[derive(Debug, PartialEq, Eq)]
pub enum Step<S, T> {
    /// Perform the request and come back, in the given state, with the reply.
    Ask(S, StoreRequest),
    /// The workflow has ended.
    Done(Result<T, AuthError>),
}

/// The mathematical value of a [`Step`].
pub enum StepView<S, T> {
    Ask(S, StoreRequestView),
    Done(Result<T, AuthError>),
}

impl<S: View, T: View> View for Step<S, T> {
    type V = StepView<S::V, T::V>;

    open spec fn view(&self) -> StepView<S::V, T::V> {
        match *self {
            Step::Ask(state, request) => StepView::Ask(state@, request@),
            Step::Done(Ok(value)) => StepView::Done(Ok(value@)),
            Step::Done(Err(e)) => StepView::Done(Err(e)),
        }
    }
}

// ---------------------------------------------------------------------------
// Lookups
// ---------------------------------------------------------------------------
/// What a reply to `FindUserByLogin` or `FindUserByEmail` says: the account,
/// that there is none, or `Unexpected` for any other reply.
pub open spec fn lookup(reply: StoreReplyView) -> Result<Option<UserView>, AuthError> {
    match reply {
        StoreReplyView::User(user) => Ok(Some(user)),
        StoreReplyView::NotFound => Ok(None),
        _ => Err(AuthError::Unexpected),
    }
}

/// The mathematical value of a lookup's result.
pub open spec fn lookup_view(found: Result<Option<User>, AuthError>) -> Result<
    Option<UserView>,
    AuthError,
> {
    match found {
        Ok(Some(user)) => Ok(Some(user@)),
        Ok(None) => Ok(None),
        Err(e) => Err(e),
    }
}

/// Reads the reply to `StoreRequest::FindUserByLogin`.
pub fn get_by_login(reply: StoreReply) -> (found: Result<Option<User>, AuthError>)
    ensures
        lookup_view(found) == lookup(reply@),
{
    match reply {
        StoreReply::User(user) => Ok(Some(user)),
        StoreReply::NotFound => Ok(None),
        _ => Err(AuthError::Unexpected),
    }
}

/// Reads the reply to `StoreRequest::FindUserByEmail`.
pub fn get_by_email(reply: StoreReply) -> (found: Result<Option<User>, AuthError>)
    ensures
        lookup_view(found) == lookup(reply@),
{
    match reply {
        StoreReply::User(user) => Ok(Some(user)),
        StoreReply::NotFound => Ok(None),
        _ => Err(AuthError::Unexpected),
    }
}

// ---------------------------------------------------------------------------
// Vetting a new password
// ---------------------------------------------------------------------------
/// The mathematical value of a vetting's result.
pub open spec fn vetted_view(vetted: Result<String, AuthError>) -> Result<Seq<char>, AuthError> {
    match vetted {
        Ok(digest) => Ok(digest@),
        Err(e) => Err(e),
    }
}

/// The results that vetting `password` can have: a digest that the hasher
/// issued for it, `WeakPassword`, or, for a password too long to hash,
/// `HashingFailure`. An empty password is never given a digest.
pub open spec fn vetting_of(password: Seq<char>, vetted: Result<Seq<char>, AuthError>) -> bool {
    match vetted {
        Ok(digest) => password.len() > 0 && hashed(password, digest),
        Err(e) => e == AuthError::WeakPassword || (e == AuthError::HashingFailure && encode_utf8(
            password,
        ).len() > MAX_PASSWORD_BYTES),
    }
}

/// The strings that the strength policy holds against a password of an
/// account: the account's login and its email, in this order.
pub fn context_tokens<'a>(login: &'a str, email: &'a str) -> (tokens: [&'a str; 2])
    ensures
        tokens@.len() == 2,
        tokens@[0]@ == login@,
        tokens@[1]@ == email@,
{
    [login, email]
}

/// Vets a password for the account with this login and email: the strength
/// policy first, told of both, then the hasher. Gives the digest to store.
pub fn vet_password(password: &str, login: &str, email: &str) -> (vetted: Result<String, AuthError>)
    ensures
        vetting_of(password@, vetted_view(vetted)),
{
    let tokens = context_tokens(login, email);
    if !is_strong(password, &tokens) {
        return Err(AuthError::WeakPassword);
    }
    hash_pass(password)
}

// ---------------------------------------------------------------------------
// Registration
// ---------------------------------------------------------------------------
/// Where a registration stands: which reply it waits for.
#[derive(Debug, Clone, PartialEq, Eq)]
pub enum Registration {
    /// Is the login taken?
    LoginLookup { login: String, email: String, password: String },
    /// Is the email taken?
    EmailLookup { login: String, email: String, password: String },
    /// Did the store create the account?
    Insert,
}

/// The mathematical value of a [`Registration`].
pub enum RegistrationView {
    LoginLookup { login: Seq<char>, email: Seq<char>, password: Seq<char> },
    EmailLookup { login: Seq<char>, email: Seq<char>, password: Seq<char> },
    Insert,
}

impl View for Registration {
    type V = RegistrationView;

    open spec fn view(&self) -> RegistrationView {
        match *self {
            Registration::LoginLookup { login, email, password } => RegistrationView::LoginLookup {
                login: login@,
                email: email@,
                password: password@,
            },
            Registration::EmailLookup { login, email, password } => RegistrationView::EmailLookup {
                login: login@,
                email: email@,
                password: password@,
            },
            Registration::Insert => RegistrationView::Insert,
        }
    }
}

/// How a registration starts: by asking whether the login is taken.
pub open spec fn registration_begin(login: Seq<char>, email: Seq<char>, password: Seq<char>) -> (
    RegistrationView,
    StoreRequestView,
) {
    (
        RegistrationView::LoginLookup { login, email, password },
        StoreRequestView::FindUserByLogin(login),
    )
}

/// One step of a registration. `vetted` is what vetting the password gave; it
/// matters only where [`registration_vets`] names a password.
///
/// The order is fixed: login, then email, then the password. A registration
/// that meets a taken login or email ends before the password is looked at,
/// so that its answer says nothing of the password. The store has the last
/// word on uniqueness: an insert that it refuses as a duplicate ends the
/// registration with `UserAlreadyExists` like a lookup that finds an account.
pub open spec fn registration_step(
    progress: RegistrationView,
    reply: StoreReplyView,
    vetted: Result<Seq<char>, AuthError>,
) -> StepView<RegistrationView, UserView> {
    match progress {
        RegistrationView::LoginLookup { login, email, password } => match lookup(reply) {
            Err(e) => StepView::Done(Err(e)),
            Ok(Some(_)) => StepView::Done(Err(AuthError::UserAlreadyExists)),
            Ok(None) => StepView::Ask(
                RegistrationView::EmailLookup { login, email, password },
                StoreRequestView::FindUserByEmail(email),
            ),
        },
        RegistrationView::EmailLookup { login, email, password } => match lookup(reply) {
            Err(e) => StepView::Done(Err(e)),
            Ok(Some(_)) => StepView::Done(Err(AuthError::UserAlreadyExists)),
            Ok(None) => match vetted {
                Err(e) => StepView::Done(Err(e)),
                Ok(digest) => StepView::Ask(
                    RegistrationView::Insert,
                    StoreRequestView::InsertUser(NewUserView { login, email, password: digest }),
                ),
            },
        },
        RegistrationView::Insert => match reply {
            StoreReplyView::User(user) => StepView::Done(Ok(user)),
            StoreReplyView::Conflict => StepView::Done(Err(AuthError::UserAlreadyExists)),
            _ => StepView::Done(Err(AuthError::Unexpected)),
        },
    }
}

/// The password that this step of a registration vets, if it vets one: the
/// new password, once neither the login nor the email turned out taken.
pub open spec fn registration_vets(progress: RegistrationView, reply: StoreReplyView) -> Option<
    Seq<char>,
> {
    match progress {
        RegistrationView::EmailLookup { login, email, password } => match reply {
            StoreReplyView::NotFound => Some(password),
            _ => None,
        },
        _ => None,
    }
}

/// The steps that a registration may take on a reply: [`registration_step`]
/// of each outcome that vetting can have for the password which the step
/// vets, and of any outcome where it vets none.
pub open spec fn registration_allows(
    progress: RegistrationView,
    reply: StoreReplyView,
    next: StepView<RegistrationView, UserView>,
) -> bool {
    exists|vetted: Result<Seq<char>, AuthError>|
        {
            &&& registration_vets(progress, reply) matches Some(password) ==> vetting_of(
                password,
                vetted,
            )
            &&& next == #[trigger] registration_step(progress, reply, vetted)
        }
}

impl Registration {
    /// Starts the registration of an account.
    pub fn begin(new_login: &str, new_email: &str, new_password: &str) -> (start: (
        Registration,
        StoreRequest,
    ))
        ensures
            (start.0@, start.1@) == registration_begin(new_login@, new_email@, new_password@),
    {
        (
            Registration::LoginLookup {
                login: new_login.to_owned(),
                email: new_email.to_owned(),
                password: new_password.to_owned(),
            },
            StoreRequest::FindUserByLogin(new_login.to_owned()),
        )
    }
}

/// One step of a registration, for a given outcome of vetting the password.
pub fn decide_registration(
    progress: Registration,
    reply: StoreReply,
    vetted: Result<String, AuthError>,
) -> (next: Step<Registration, User>)
    ensures
        next@ == registration_step(progress@, reply@, vetted_view(vetted)),
{
    match progress {
        Registration::LoginLookup { login, email, password } => match get_by_login(reply) {
            Err(e) => Step::Done(Err(e)),
            Ok(Some(_)) => Step::Done(Err(AuthError::UserAlreadyExists)),
            Ok(None) => {
                let request = StoreRequest::FindUserByEmail(email.clone());
                Step::Ask(Registration::EmailLookup { login, email, password }, request)
            },
        },
        Registration::EmailLookup { login, email, password } => match get_by_email(reply) {
            Err(e) => Step::Done(Err(e)),
            Ok(Some(_)) => Step::Done(Err(AuthError::UserAlreadyExists)),
            Ok(None) => match vetted {
                Err(e) => Step::Done(Err(e)),
                Ok(digest) => Step::Ask(
                    Registration::Insert,
                    StoreRequest::InsertUser(NewUser { login, email, password: digest }),
                ),
            },
        },
        Registration::Insert => match reply {
            StoreReply::User(user) => Step::Done(Ok(user)),
            StoreReply::Conflict => Step::Done(Err(AuthError::UserAlreadyExists)),
            _ => Step::Done(Err(AuthError::Unexpected)),
        },
    }
}

/// One step of a registration: takes the store's reply to the request that is
/// out, and says what to do next.
///
/// The password is vetted here, with the new login and email as the strings
/// to hold against it, when and only when the email lookup found nothing.
/// Whatever vetting gave, the step is [`registration_step`] of it.
pub fn try_create_new_user(progress: Registration, reply: StoreReply) -> (next: Step<
    Registration,
    User,
>)
    ensures
        registration_allows(progress@, reply@, next@),
{
    // Where the step vets no password, what stands for the outcome is never
    // looked at.
    let vetted = match &progress {
        Registration::EmailLookup { login, email, password } => match &reply {
            StoreReply::NotFound => vet_password(password.as_str(), login.as_str(), email.as_str()),
            _ => Err(AuthError::WeakPassword),
        },
        _ => Err(AuthError::WeakPassword),
    };
    let ghost outcome = vetted_view(vetted);
    let next = decide_registration(progress, reply, vetted);
    assert(next@ == registration_step(progress@, reply@, outcome));
    next
}

// ---------------------------------------------------------------------------
// Login
// ---------------------------------------------------------------------------
/// The result of a login, for a given outcome of checking the password
/// against the account's digest: the account's identifier where it matches.
/// A login for which no account exists is `UserNotFound`; one that the store
/// could not look up is `Unexpected`.
pub open spec fn login_outcome(reply: StoreReplyView, verified: Result<bool, AuthError>) -> Result<
    Uuid,
    AuthError,
> {
    match reply {
        StoreReplyView::User(user) => match verified {
            Ok(true) => Ok(user.id),
            Ok(false) => Err(AuthError::IncorrectPassword),
            Err(e) => Err(e),
        },
        StoreReplyView::NotFound => Err(AuthError::UserNotFound),
        _ => Err(AuthError::Unexpected),
    }
}

/// The result of a login: [`login_outcome`] of checking the password against
/// the digest of the account that was found.
pub open spec fn login(reply: StoreReplyView, password: Seq<char>) -> Result<Uuid, AuthError> {
    match reply {
        StoreReplyView::User(user) => login_outcome(reply, verification(user.password, password)),
        _ => login_outcome(reply, Ok(false)),
    }
}

/// Decides a login from the reply to `StoreRequest::FindUserByLogin` and the
/// outcome of checking the password.
pub fn decide_login(reply: StoreReply, verified: Result<bool, AuthError>) -> (r: Result<
    Uuid,
    AuthError,
>)
    ensures
        r == login_outcome(reply@, verified),
{
    match reply {
        StoreReply::User(user) => match verified {
            Ok(true) => Ok(user.id),
            Ok(false) => Err(AuthError::IncorrectPassword),
            Err(e) => Err(e),
        },
        StoreReply::NotFound => Err(AuthError::UserNotFound),
        _ => Err(AuthError::Unexpected),
    }
}

/// Logs a user in: reads the reply to `StoreRequest::FindUserByLogin` for
/// the login and checks the password against the account's digest. Gives the
/// account's identifier. Issuing a session is a separate step.
pub fn login_user(reply: StoreReply, user_password: &str) -> (r: Result<Uuid, AuthError>)
    ensures
        r == login(reply@, user_password@),
{
    let verified = match &reply {
        StoreReply::User(user) => verify_pass(user.password.as_str(), user_password),
        _ => Ok(false),
    };
    decide_login(reply, verified)
}

// ---------------------------------------------------------------------------
// Password change
// ---------------------------------------------------------------------------
/// Where a password change stands: which reply it waits for.
#[derive(Debug, Clone, PartialEq, Eq)]
pub enum PasswordChange {
    /// Which account has the login?
    Lookup { login: String, pass: String, new_pass: String },
    /// Did the store replace the digest?
    Update,
}

/// The mathematical value of a [`PasswordChange`].
pub enum PasswordChangeView {
    Lookup { login: Seq<char>, pass: Seq<char>, new_pass: Seq<char> },
    Update,
}

impl View for PasswordChange {
    type V = PasswordChangeView;

    open spec fn view(&self) -> PasswordChangeView {
        match *self {
            PasswordChange::Lookup { login, pass, new_pass } => PasswordChangeView::Lookup {
                login: login@,
                pass: pass@,
                new_pass: new_pass@,
            },
            PasswordChange::Update => PasswordChangeView::Update,
        }
    }
}

/// How a password change starts: by asking for the account.
pub open spec fn change_begin(login: Seq<char>, pass: Seq<char>, new_pass: Seq<char>) -> (
    PasswordChangeView,
    StoreRequestView,
) {
    (PasswordChangeView::Lookup { login, pass, new_pass }, StoreRequestView::FindUserByLogin(login))
}

/// One step of a password change. `verified` is what checking the old
/// password against the account's digest gave, `vetted` what vetting the new
/// one gave; neither matters unless the step gets that far.
///
/// The old password comes first: no new password is looked at, let alone
/// stored, for a caller who does not know the old one.
pub open spec fn change_step(
    progress: PasswordChangeView,
    reply: StoreReplyView,
    verified: Result<bool, AuthError>,
    vetted: Result<Seq<char>, AuthError>,
) -> StepView<PasswordChangeView, ()> {
    match progress {
        PasswordChangeView::Lookup { login, pass, new_pass } => match lookup(reply) {
            Err(e) => StepView::Done(Err(e)),
            Ok(None) => StepView::Done(Err(AuthError::UserNotFound)),
            Ok(Some(_)) => match verified {
                Err(e) => StepView::Done(Err(e)),
                Ok(false) => StepView::Done(Err(AuthError::IncorrectPassword)),
                Ok(true) => match vetted {
                    Err(e) => StepView::Done(Err(e)),
                    Ok(digest) => StepView::Ask(
                        PasswordChangeView::Update,
                        StoreRequestView::UpdatePassword { login, password: digest },
                    ),
                },
            },
        },
        PasswordChangeView::Update => match reply {
            StoreReplyView::User(_) => StepView::Done(Ok(())),
            _ => StepView::Done(Err(AuthError::Unexpected)),
        },
    }
}

/// What checking the old password gives at this step of a password change:
/// the verification against the digest of the account that was found.
pub open spec fn change_verifies(progress: PasswordChangeView, reply: StoreReplyView) -> Result<
    bool,
    AuthError,
> {
    match progress {
        PasswordChangeView::Lookup { login, pass, new_pass } => match reply {
            StoreReplyView::User(user) => verification(user.password, pass),
            _ => Ok(false),
        },
        _ => Ok(false),
    }
}

/// The password that this step of a password change vets, if it vets one:
/// the new password, once the old one matched.
pub open spec fn change_vets(progress: PasswordChangeView, reply: StoreReplyView) -> Option<
    Seq<char>,
> {
    match progress {
        PasswordChangeView::Lookup { login, pass, new_pass } => match reply {
            StoreReplyView::User(user) => if verification(user.password, pass) == Ok::<
                bool,
                AuthError,
            >(true) {
                Some(new_pass)
            } else {
                None
            },
            _ => None,
        },
        _ => None,
    }
}

/// The steps that a password change may take on a reply: [`change_step`] of
/// what checking the old password gives and of each outcome that vetting can
/// have for the password which the step vets.
pub open spec fn change_allows(
    progress: PasswordChangeView,
    reply: StoreReplyView,
    next: StepView<PasswordChangeView, ()>,
) -> bool {
    exists|vetted: Result<Seq<char>, AuthError>|
        {
            &&& change_vets(progress, reply) matches Some(password) ==> vetting_of(
                password,
                vetted,
            )
            &&& next == #[trigger] change_step(
                progress,
                reply,
                change_verifies(progress, reply),
                vetted,
            )
        }
}

impl PasswordChange {
    /// Starts a password change for the account with this login.
    pub fn begin(user_login: &str, pass: &str, new_pass: &str) -> (start: (
        PasswordChange,
        StoreRequest,
    ))
        ensures
            (start.0@, start.1@) == change_begin(user_login@, pass@, new_pass@),
    {
        (
            PasswordChange::Lookup {
                login: user_login.to_owned(),
                pass: pass.to_owned(),
                new_pass: new_pass.to_owned(),
            },
            StoreRequest::FindUserByLogin(user_login.to_owned()),
        )
    }
}

/// One step of a password change, for given outcomes of checking the old
/// password and of vetting the new one.
pub fn decide_change_pass(
    progress: PasswordChange,
    reply: StoreReply,
    verified: Result<bool, AuthError>,
    vetted: Result<String, AuthError>,
) -> (next: Step<PasswordChange, ()>)
    ensures
        next@ == change_step(progress@, reply@, verified, vetted_view(vetted)),
{
    match progress {
        PasswordChange::Lookup { login, pass, new_pass } => match get_by_login(reply) {
            Err(e) => Step::Done(Err(e)),
            Ok(None) => Step::Done(Err(AuthError::UserNotFound)),
            Ok(Some(_)) => match verified {
                Err(e) => Step::Done(Err(e)),
                Ok(false) => Step::Done(Err(AuthError::IncorrectPassword)),
                Ok(true) => match vetted {
                    Err(e) => Step::Done(Err(e)),
                    Ok(digest) => Step::Ask(
                        PasswordChange::Update,
                        StoreRequest::UpdatePassword { login, password: digest },
                    ),
                },
            },
        },
        PasswordChange::Update => match reply {
            StoreReply::User(_) => Step::Done(Ok(())),
            _ => Step::Done(Err(AuthError::Unexpected)),
        },
    }
}

/// One step of a password change: takes the store's reply to the request
/// that is out, and says what to do next.
///
/// The old password is checked here against the digest of the account that
/// the lookup found; only where it matches is the new password vetted, with
/// that account's login and email as the strings to hold against it.
/// Whatever vetting gave, the step is [`change_step`] of it.
pub fn try_change_pass(progress: PasswordChange, reply: StoreReply) -> (next: Step<
    PasswordChange,
    (),
>)
    ensures
        change_allows(progress@, reply@, next@),
{
    let verified = match &progress {
        PasswordChange::Lookup { login, pass, new_pass } => match &reply {
            StoreReply::User(user) => verify_pass(user.password.as_str(), pass.as_str()),
            _ => Ok(false),
        },
        _ => Ok(false),
    };
    // Where the step vets no password, what stands for the outcome is never
    // looked at.
    let vetted = match &progress {
        PasswordChange::Lookup { login, pass, new_pass } => match &reply {
            StoreReply::User(user) => match verified {
                Ok(true) => vet_password(
                    new_pass.as_str(),
                    user.login.as_str(),
                    user.email.as_str(),
                ),
                _ => Err(AuthError::WeakPassword),
            },
            _ => Err(AuthError::WeakPassword),
        },
        _ => Err(AuthError::WeakPassword),
    };
    let ghost outcome = vetted_view(vetted);
    let next = decide_change_pass(progress, reply, verified, vetted);
    assert(next@ == change_step(progress@, reply@, change_verifies(progress@, reply@), outcome));
    next
}

// ---------------------------------------------------------------------------
// Sessions
// ---------------------------------------------------------------------------
/// A session is fresh at `now` while less than `SESSION_TTL` has passed
/// since it was issued.
pub open spec fn session_fresh(session: Session, now: u128) -> bool {
    session.iat <= now && now - session.iat < SESSION_TTL
}

/// The result of issuing a session: the identifier of the session that the
/// store created, or `Unexpected`.
pub open spec fn session_created(reply: StoreReplyView) -> Result<Uuid, AuthError> {
    match reply {
        StoreReplyView::Session(session) => Ok(session.id),
        _ => Err(AuthError::Unexpected),
    }
}

/// Reads the reply to `StoreRequest::InsertSession`: the identifier of the
/// new session, which is the bearer token. Whether the account exists is for
/// the caller of the request to know: a login has just said so.
pub fn create_session(reply: StoreReply) -> (r: Result<Uuid, AuthError>)
    ensures
        r == session_created(reply@),
{
    match reply {
        StoreReply::Session(session) => Ok(session.id),
        _ => Err(AuthError::Unexpected),
    }
}

/// Where the validation of a session stands: which reply it waits for.
#[derive(Debug, Clone, Copy, PartialEq, Eq)]
pub enum SessionCheck {
    /// Is there such a session?
    SessionLookup,
    /// Whose is it?
    OwnerLookup { session: Session },
    /// Did the store remove the expired session?
    Eviction,
}

impl View for SessionCheck {
    type V = SessionCheck;

    open spec fn view(&self) -> SessionCheck {
        *self
    }
}

/// How a validation starts: by asking for the session.
pub open spec fn session_begin(session_id: Uuid) -> (SessionCheck, StoreRequestView) {
    (SessionCheck::SessionLookup, StoreRequestView::FindSession(session_id))
}

/// One step of a validation at the time `now`.
///
/// A session that is missing, or whose account is, is `Unexpected`; so is a
/// session issued after `now`. A fresh session gives its account. An expired
/// one is removed from the store at once, and `SessionExpired` is the answer
/// whatever the store says to the removal.
pub open spec fn session_step(progress: SessionCheck, reply: StoreReplyView, now: u128) -> StepView<
    SessionCheck,
    UserView,
> {
    match progress {
        SessionCheck::SessionLookup => match reply {
            StoreReplyView::Session(session) => StepView::Ask(
                SessionCheck::OwnerLookup { session },
                StoreRequestView::FindUserById(session.user_id),
            ),
            _ => StepView::Done(Err(AuthError::Unexpected)),
        },
        SessionCheck::OwnerLookup { session } => match reply {
            StoreReplyView::User(user) => if now < session.iat {
                StepView::Done(Err(AuthError::Unexpected))
            } else if session_fresh(session, now) {
                StepView::Done(Ok(user))
            } else {
                StepView::Ask(SessionCheck::Eviction, StoreRequestView::DeleteSession(session.id))
            },
            _ => StepView::Done(Err(AuthError::Unexpected)),
        },
        SessionCheck::Eviction => StepView::Done(Err(AuthError::SessionExpired)),
    }
}

impl SessionCheck {
    /// Starts the validation of the session with this identifier.
    pub fn begin(session_id: Uuid) -> (start: (SessionCheck, StoreRequest))
        ensures
            (start.0, start.1@) == session_begin(session_id),
    {
        (SessionCheck::SessionLookup, StoreRequest::FindSession(session_id))
    }
}

/// One step of a validation: takes the store's reply to the request that is
/// out and the current time, in nanoseconds since the Unix epoch, and says
/// what to do next.
pub fn try_get_session(progress: SessionCheck, reply: StoreReply, now: u128) -> (next: Step<
    SessionCheck,
    User,
>)
    ensures
        next@ == session_step(progress, reply@, now),
{
    match progress {
        SessionCheck::SessionLookup => match reply {
            StoreReply::Session(session) => Step::Ask(
                SessionCheck::OwnerLookup { session },
                StoreRequest::FindUserById(session.user_id),
            ),
            _ => Step::Done(Err(AuthError::Unexpected)),
        },
        SessionCheck::OwnerLookup { session } => match reply {
            StoreReply::User(user) => if now < session.iat {
                Step::Done(Err(AuthError::Unexpected))
            } else if now - session.iat < SESSION_TTL {
                Step::Done(Ok(user))
            } else {
                Step::Ask(SessionCheck::Eviction, StoreRequest::DeleteSession(session.id))
            },
            _ => Step::Done(Err(AuthError::Unexpected)),
        },
        SessionCheck::Eviction => Step::Done(Err(AuthError::SessionExpired)),
    }
}

} // verus!
