//! The workflows run to their end against a small store held in memory.

use backend::auth::create_session;
use backend::auth::get_by_email;
use backend::auth::get_by_login;
use backend::auth::login_user;
use backend::auth::try_change_pass;
use backend::auth::try_create_new_user;
use backend::auth::try_get_session;
use backend::auth::PasswordChange;
use backend::auth::Registration;
use backend::auth::SessionCheck;
use backend::auth::Step;
use backend::auth::SESSION_TTL;
use backend::error::AuthError;
use backend::models::NewSession;
use backend::models::Session;
use backend::models::User;
use backend::password::verify_pass;
use backend::status::change_pass_status;
use backend::status::login_status;
use backend::status::register_status;
use backend::store::StoreReply;
use backend::store::StoreRequest;
use uuid::Uuid;

const SECOND: u128 = 1_000_000_000;
const MINUTE: u128 = 60 * SECOND;

/// A store that answers as a relational table with unique logins and emails
/// would.
struct MemoryStore {
    users: Vec<User>,
    sessions: Vec<Session>,
    clock: u128,
    asked: Vec<StoreRequest>,
}

impl MemoryStore {
    fn new() -> Self {
        MemoryStore { users: Vec::new(), sessions: Vec::new(), clock: 1_700_000_000 * SECOND, asked: Vec::new() }
    }

    fn found(user: Option<&User>) -> StoreReply {
        match user {
            Some(user) => StoreReply::User(user.clone()),
            None => StoreReply::NotFound,
        }
    }

    fn perform(&mut self, request: StoreRequest) -> StoreReply {
        self.asked.push(request.clone());
        match request {
            StoreRequest::FindUserByLogin(login) => Self::found(self.users.iter().find(|u| u.login == login)),
            StoreRequest::FindUserByEmail(email) => Self::found(self.users.iter().find(|u| u.email == email)),
            StoreRequest::FindUserById(id) => Self::found(self.users.iter().find(|u| u.id == id)),
            StoreRequest::InsertUser(new) => {
                if self.users.iter().any(|u| u.login == new.login || u.email == new.email) {
                    return StoreReply::Conflict;
                }
                let user = User { id: Uuid::new_v4(), login: new.login, email: new.email, password: new.password };
                self.users.push(user.clone());
                StoreReply::User(user)
            }
            StoreRequest::UpdatePassword { login, password } => {
                match self.users.iter_mut().find(|u| u.login == login) {
                    Some(user) => {
                        user.password = password;
                        StoreReply::User(user.clone())
                    }
                    None => StoreReply::NotFound,
                }
            }
            StoreRequest::FindSession(id) => match self.sessions.iter().find(|s| s.id == id) {
                Some(session) => StoreReply::Session(*session),
                None => StoreReply::NotFound,
            },
            StoreRequest::InsertSession(new) => {
                if !self.users.iter().any(|u| u.id == new.user_id) {
                    return StoreReply::Failed;
                }
                let session = Session { id: Uuid::new_v4(), iat: self.clock, user_id: new.user_id };
                self.sessions.push(session);
                StoreReply::Session(session)
            }
            StoreRequest::DeleteSession(id) => {
                self.sessions.retain(|s| s.id != id);
                StoreReply::Deleted
            }
        }
    }
}

fn register(store: &mut MemoryStore, login: &str, email: &str, password: &str) -> Result<User, AuthError> {
    let (mut progress, mut request) = Registration::begin(login, email, password);
    loop {
        let reply = store.perform(request);
        match try_create_new_user(progress, reply) {
            Step::Ask(next, ask) => {
                progress = next;
                request = ask;
            }
            Step::Done(result) => return result,
        }
    }
}

fn log_in(store: &mut MemoryStore, login: &str, password: &str) -> Result<Uuid, AuthError> {
    let reply = store.perform(StoreRequest::FindUserByLogin(login.to_owned()));
    login_user(reply, password)
}

fn change(store: &mut MemoryStore, login: &str, pass: &str, new_pass: &str) -> Result<(), AuthError> {
    let (mut progress, mut request) = PasswordChange::begin(login, pass, new_pass);
    loop {
        let reply = store.perform(request);
        match try_change_pass(progress, reply) {
            Step::Ask(next, ask) => {
                progress = next;
                request = ask;
            }
            Step::Done(result) => return result,
        }
    }
}

fn issue(store: &mut MemoryStore, user_id: Uuid) -> Result<Uuid, AuthError> {
    let reply = store.perform(StoreRequest::InsertSession(NewSession { user_id }));
    create_session(reply)
}

fn validate(store: &mut MemoryStore, session_id: Uuid, now: u128) -> Result<User, AuthError> {
    let (mut progress, mut request) = SessionCheck::begin(session_id);
    loop {
        let reply = store.perform(request);
        match try_get_session(progress, reply, now) {
            Step::Ask(next, ask) => {
                progress = next;
                request = ask;
            }
            Step::Done(result) => return result,
        }
    }
}

#[test]
fn auth_register_and_login() {
    let mut store = MemoryStore::new();
    let login = format!("test_user_{}", Uuid::new_v4().to_string());
    let email = format!("{}@gmail.com", Uuid::new_v4().to_string());
    let password = "strong_pass12345";

    let registered = register(&mut store, &login, &email, password);
    assert_eq!(register_status(&registered), 200);

    let logged_in = log_in(&mut store, &login, password);
    assert_eq!(login_status(&logged_in), 200);
    let session_id = issue(&mut store, logged_in.unwrap()).unwrap();

    let now = store.clock;
    let greeted = validate(&mut store, session_id, now);
    assert_eq!(greeted.unwrap().login, login);
}

#[test]
fn main_register_and_login() {
    let mut store = MemoryStore::new();
    let login = format!("test_user_{}", Uuid::new_v4().to_string());
    let email = format!("{}@gmail.com", Uuid::new_v4().to_string());
    let password = "strong_pass12345";

    let registered = register(&mut store, &login, &email, password);
    assert_eq!(register_status(&registered), 200);

    let logged_in = log_in(&mut store, &login, password);
    assert_eq!(login_status(&logged_in), 200);

    let session_id = match issue(&mut store, logged_in.unwrap()) {
        Ok(id) => id,
        Err(_) => panic!(),
    };
    assert!(store.sessions.iter().any(|s| s.id == session_id));
}

#[test]
fn alice_registers_logs_in_and_her_session_expires() {
    let mut store = MemoryStore::new();
    let alice = register(&mut store, "alice", "alice@x.com", "Tr0ub4dor&3xyz").unwrap();
    assert_eq!(alice.login, "alice");
    assert_eq!(alice.email, "alice@x.com");

    assert_eq!(log_in(&mut store, "alice", "wrong"), Err(AuthError::IncorrectPassword));

    let id = log_in(&mut store, "alice", "Tr0ub4dor&3xyz").unwrap();
    assert_eq!(id, alice.id);
    let session_id = issue(&mut store, id).unwrap();

    let issued_at = store.clock;
    assert_eq!(validate(&mut store, session_id, issued_at), Ok(alice.clone()));

    let past_ttl = issued_at + SESSION_TTL + SECOND;
    assert_eq!(validate(&mut store, session_id, past_ttl), Err(AuthError::SessionExpired));
}

#[test]
fn registered_account_holds_a_digest_not_the_password() {
    let mut store = MemoryStore::new();
    let user = register(&mut store, "bruno", "bruno@school.example", "correct horse battery staple").unwrap();
    assert_ne!(user.password, "correct horse battery staple");
    assert!(user.password.starts_with("$argon2"));
    assert_eq!(verify_pass(&user.password, "correct horse battery staple"), Ok(true));
    assert_eq!(store.users, vec![user]);
}

#[test]
fn registration_then_login_succeeds() {
    let mut store = MemoryStore::new();
    register(&mut store, "carla", "carla@school.example", "vivid-otter-plays-cello").unwrap();
    let user = register(&mut store, "dmitri", "dmitri@school.example", "nine$Lamps&four$Owls").unwrap();
    assert_eq!(log_in(&mut store, "dmitri", "nine$Lamps&four$Owls"), Ok(user.id));
}

#[test]
fn registration_asks_login_then_email_then_inserts() {
    let mut store = MemoryStore::new();
    let user = register(&mut store, "erin", "erin@school.example", "vivid-otter-plays-cello").unwrap();
    assert_eq!(store.asked.len(), 3);
    assert_eq!(store.asked[0], StoreRequest::FindUserByLogin("erin".to_owned()));
    assert_eq!(store.asked[1], StoreRequest::FindUserByEmail("erin@school.example".to_owned()));
    match &store.asked[2] {
        StoreRequest::InsertUser(new) => {
            assert_eq!(new.login, "erin");
            assert_eq!(new.email, "erin@school.example");
            assert_eq!(new.password, user.password);
        }
        other => panic!("unexpected request {:?}", other),
    }
}

#[test]
fn taken_login_is_refused_before_the_email_is_looked_up() {
    let mut store = MemoryStore::new();
    register(&mut store, "farid", "farid@school.example", "vivid-otter-plays-cello").unwrap();
    store.asked.clear();
    let again = register(&mut store, "farid", "other@school.example", "vivid-otter-plays-cello");
    assert_eq!(again, Err(AuthError::UserAlreadyExists));
    assert_eq!(register_status(&again), 400);
    assert_eq!(store.asked, vec![StoreRequest::FindUserByLogin("farid".to_owned())]);
    assert_eq!(store.users.len(), 1);
}

#[test]
fn taken_email_is_refused() {
    let mut store = MemoryStore::new();
    register(&mut store, "gita", "gita@school.example", "vivid-otter-plays-cello").unwrap();
    let again = register(&mut store, "gita2", "gita@school.example", "vivid-otter-plays-cello");
    assert_eq!(again, Err(AuthError::UserAlreadyExists));
    assert_eq!(store.users.len(), 1);
}

#[test]
fn duplicate_is_reported_even_for_a_weak_password() {
    let mut store = MemoryStore::new();
    register(&mut store, "hana", "hana@school.example", "vivid-otter-plays-cello").unwrap();
    assert_eq!(register(&mut store, "hana", "hana@school.example", "123"), Err(AuthError::UserAlreadyExists));
    assert_eq!(register(&mut store, "hana3", "hana@school.example", "123"), Err(AuthError::UserAlreadyExists));
}

#[test]
fn weak_password_is_refused_at_registration() {
    let mut store = MemoryStore::new();
    let refused = register(&mut store, "ivo", "ivo@school.example", "password");
    assert_eq!(refused, Err(AuthError::WeakPassword));
    assert_eq!(register_status(&refused), 400);
    assert!(store.users.is_empty());
    assert_eq!(store.asked.len(), 2);
}

#[test]
fn empty_password_is_refused_at_registration() {
    let mut store = MemoryStore::new();
    assert_eq!(register(&mut store, "jo", "jo@school.example", ""), Err(AuthError::WeakPassword));
}

#[test]
fn weak_password_is_refused_alike_at_registration_and_at_change() {
    let weak = ["password", "qwerty123", "karla", "karla@school.example", ""];
    for candidate in weak {
        let mut vacant = MemoryStore::new();
        assert_eq!(
            register(&mut vacant, "karla", "karla@school.example", candidate),
            Err(AuthError::WeakPassword),
            "registration with {:?}",
            candidate
        );
        assert!(vacant.users.is_empty());
    }

    let mut store = MemoryStore::new();
    let user = register(&mut store, "karla", "karla@school.example", "vivid-otter-plays-cello").unwrap();
    for candidate in weak {
        let refused = change(&mut store, "karla", "vivid-otter-plays-cello", candidate);
        assert_eq!(refused, Err(AuthError::WeakPassword), "change to {:?}", candidate);
        assert_eq!(change_pass_status(&refused), 400);
    }
    assert_eq!(store.users, vec![user]);
}

#[test]
fn concurrent_registrations_for_one_login_give_one_account() {
    let mut store = MemoryStore::new();
    let (first, first_request) = Registration::begin("lena", "lena@school.example", "vivid-otter-plays-cello");
    let (second, second_request) = Registration::begin("lena", "lena@home.example", "nine$Lamps&four$Owls");

    // Both pass both lookups before either inserts.
    let (first, first_request) = match try_create_new_user(first, store.perform(first_request)) {
        Step::Ask(state, request) => (state, request),
        Step::Done(result) => panic!("ended early with {:?}", result),
    };
    let (second, second_request) = match try_create_new_user(second, store.perform(second_request)) {
        Step::Ask(state, request) => (state, request),
        Step::Done(result) => panic!("ended early with {:?}", result),
    };
    let (first, first_request) = match try_create_new_user(first, store.perform(first_request)) {
        Step::Ask(state, request) => (state, request),
        Step::Done(result) => panic!("ended early with {:?}", result),
    };
    let (second, second_request) = match try_create_new_user(second, store.perform(second_request)) {
        Step::Ask(state, request) => (state, request),
        Step::Done(result) => panic!("ended early with {:?}", result),
    };
    assert_eq!(first, Registration::Insert);
    assert_eq!(second, Registration::Insert);

    let second_result = match try_create_new_user(second, store.perform(second_request)) {
        Step::Done(result) => result,
        Step::Ask(_, request) => panic!("asked for {:?}", request),
    };
    let first_result = match try_create_new_user(first, store.perform(first_request)) {
        Step::Done(result) => result,
        Step::Ask(_, request) => panic!("asked for {:?}", request),
    };

    let winner = second_result.unwrap();
    assert_eq!(winner.email, "lena@home.example");
    assert_eq!(first_result, Err(AuthError::UserAlreadyExists));
    assert_eq!(store.users, vec![winner]);
}

#[test]
fn wrong_password_is_incorrect_password_not_user_not_found() {
    let mut store = MemoryStore::new();
    register(&mut store, "mona", "mona@school.example", "vivid-otter-plays-cello").unwrap();
    for wrong in ["", "vivid-otter-plays-cell", "vivid-otter-plays-cello ", "VIVID-OTTER-PLAYS-CELLO"] {
        let refused = log_in(&mut store, "mona", wrong);
        assert_eq!(refused, Err(AuthError::IncorrectPassword));
        assert_eq!(login_status(&refused), 401);
    }
}

#[test]
fn unknown_login_is_user_not_found() {
    let mut store = MemoryStore::new();
    register(&mut store, "nils", "nils@school.example", "vivid-otter-plays-cello").unwrap();
    let refused = log_in(&mut store, "nobody", "vivid-otter-plays-cello");
    assert_eq!(refused, Err(AuthError::UserNotFound));
    assert_eq!(login_status(&refused), 401);
}

#[test]
fn login_leaves_the_store_alone() {
    let mut store = MemoryStore::new();
    let user = register(&mut store, "olga", "olga@school.example", "vivid-otter-plays-cello").unwrap();
    log_in(&mut store, "olga", "vivid-otter-plays-cello").unwrap();
    assert_eq!(store.users, vec![user]);
    assert!(store.sessions.is_empty());
}

#[test]
fn password_change_needs_the_old_password() {
    let mut store = MemoryStore::new();
    let user = register(&mut store, "pia", "pia@school.example", "vivid-otter-plays-cello").unwrap();
    store.asked.clear();
    let refused = change(&mut store, "pia", "not the old one", "nine$Lamps&four$Owls");
    assert_eq!(refused, Err(AuthError::IncorrectPassword));
    assert_eq!(change_pass_status(&refused), 403);
    assert_eq!(store.asked, vec![StoreRequest::FindUserByLogin("pia".to_owned())]);
    assert_eq!(store.users, vec![user]);
}

#[test]
fn password_change_for_an_unknown_login() {
    let mut store = MemoryStore::new();
    let refused = change(&mut store, "quentin", "vivid-otter-plays-cello", "nine$Lamps&four$Owls");
    assert_eq!(refused, Err(AuthError::UserNotFound));
    assert_eq!(change_pass_status(&refused), 404);
}

#[test]
fn password_change_replaces_the_digest() {
    let mut store = MemoryStore::new();
    let before = register(&mut store, "rosa", "rosa@school.example", "vivid-otter-plays-cello").unwrap();
    let changed = change(&mut store, "rosa", "vivid-otter-plays-cello", "nine$Lamps&four$Owls");
    assert_eq!(changed, Ok(()));
    assert_eq!(change_pass_status(&changed), 200);

    let after = store.users[0].clone();
    assert_eq!(after.id, before.id);
    assert_eq!(after.login, before.login);
    assert_eq!(after.email, before.email);
    assert_ne!(after.password, before.password);
    assert_eq!(verify_pass(&after.password, "nine$Lamps&four$Owls"), Ok(true));

    assert_eq!(log_in(&mut store, "rosa", "vivid-otter-plays-cello"), Err(AuthError::IncorrectPassword));
    assert_eq!(log_in(&mut store, "rosa", "nine$Lamps&four$Owls"), Ok(before.id));
}

#[test]
fn password_change_holds_the_account_s_own_login_and_email_against_the_new_password() {
    let mut store = MemoryStore::new();
    register(&mut store, "wolfeschlegelstein", "hubert@wolfeschlegelstein.example", "vivid-otter-plays-cello").unwrap();
    assert_eq!(
        change(&mut store, "wolfeschlegelstein", "vivid-otter-plays-cello", "hubert@wolfeschlegelstein.example"),
        Err(AuthError::WeakPassword)
    );
    assert_eq!(
        change(&mut store, "wolfeschlegelstein", "vivid-otter-plays-cello", "wolfeschlegelstein"),
        Err(AuthError::WeakPassword)
    );
}

#[test]
fn session_is_valid_just_before_its_ttl_and_gone_after_it() {
    let mut store = MemoryStore::new();
    let user = register(&mut store, "sven", "sven@school.example", "vivid-otter-plays-cello").unwrap();
    let session_id = issue(&mut store, user.id).unwrap();
    let issued_at = store.clock;

    let at_9m59s = issued_at + 9 * MINUTE + 59 * SECOND;
    assert_eq!(validate(&mut store, session_id, at_9m59s), Ok(user.clone()));
    assert_eq!(store.sessions.len(), 1);

    let at_10m01s = issued_at + 10 * MINUTE + SECOND;
    assert_eq!(validate(&mut store, session_id, at_10m01s), Err(AuthError::SessionExpired));
    assert!(store.sessions.is_empty());

    // Unusable from then on, also at a time at which it would have been fresh.
    assert_eq!(validate(&mut store, session_id, at_9m59s), Err(AuthError::Unexpected));
    assert_eq!(validate(&mut store, session_id, at_10m01s), Err(AuthError::Unexpected));
}

#[test]
fn session_expires_at_exactly_ten_minutes() {
    let mut store = MemoryStore::new();
    let user = register(&mut store, "tara", "tara@school.example", "vivid-otter-plays-cello").unwrap();
    let issued_at = store.clock;

    let first = issue(&mut store, user.id).unwrap();
    assert_eq!(validate(&mut store, first, issued_at + 10 * MINUTE - 1), Ok(user.clone()));
    assert_eq!(validate(&mut store, first, issued_at + 10 * MINUTE), Err(AuthError::SessionExpired));

    let second = issue(&mut store, user.id).unwrap();
    assert_eq!(validate(&mut store, second, issued_at), Ok(user.clone()));
    assert_eq!(validate(&mut store, second, u128::MAX), Err(AuthError::SessionExpired));
}

#[test]
fn validation_does_not_renew_a_session() {
    let mut store = MemoryStore::new();
    let user = register(&mut store, "uma", "uma@school.example", "vivid-otter-plays-cello").unwrap();
    let session_id = issue(&mut store, user.id).unwrap();
    let issued_at = store.clock;
    for minute in 1..10 {
        assert_eq!(validate(&mut store, session_id, issued_at + minute * MINUTE), Ok(user.clone()));
    }
    assert_eq!(store.sessions[0].iat, issued_at);
    assert_eq!(validate(&mut store, session_id, issued_at + 10 * MINUTE), Err(AuthError::SessionExpired));
}

#[test]
fn session_issued_after_now_is_unexpected() {
    let mut store = MemoryStore::new();
    let user = register(&mut store, "vera", "vera@school.example", "vivid-otter-plays-cello").unwrap();
    let session_id = issue(&mut store, user.id).unwrap();
    let issued_at = store.clock;
    assert_eq!(validate(&mut store, session_id, issued_at - 1), Err(AuthError::Unexpected));
    assert_eq!(store.sessions.len(), 1);
}

#[test]
fn unknown_session_is_unexpected() {
    let mut store = MemoryStore::new();
    let now = store.clock;
    assert_eq!(validate(&mut store, Uuid::new_v4(), now), Err(AuthError::Unexpected));
}

#[test]
fn one_account_may_hold_several_sessions() {
    let mut store = MemoryStore::new();
    let user = register(&mut store, "wim", "wim@school.example", "vivid-otter-plays-cello").unwrap();
    let first = issue(&mut store, user.id).unwrap();
    store.clock += 5 * MINUTE;
    let second = issue(&mut store, user.id).unwrap();
    assert_ne!(first, second);

    let now = store.clock + 6 * MINUTE;
    assert_eq!(validate(&mut store, first, now), Err(AuthError::SessionExpired));
    assert_eq!(validate(&mut store, second, now), Ok(user));
}

#[test]
fn session_for_a_missing_account_is_unexpected() {
    let mut store = MemoryStore::new();
    assert_eq!(issue(&mut store, Uuid::new_v4()), Err(AuthError::Unexpected));
}

#[test]
fn lookups_read_the_reply() {
    let mut store = MemoryStore::new();
    let user = register(&mut store, "xena", "xena@school.example", "vivid-otter-plays-cello").unwrap();

    let reply = store.perform(StoreRequest::FindUserByLogin("xena".to_owned()));
    assert_eq!(get_by_login(reply), Ok(Some(user.clone())));
    let reply = store.perform(StoreRequest::FindUserByLogin("yann".to_owned()));
    assert_eq!(get_by_login(reply), Ok(None));

    let reply = store.perform(StoreRequest::FindUserByEmail("xena@school.example".to_owned()));
    assert_eq!(get_by_email(reply), Ok(Some(user)));
    let reply = store.perform(StoreRequest::FindUserByEmail("yann@school.example".to_owned()));
    assert_eq!(get_by_email(reply), Ok(None));

    assert_eq!(get_by_login(StoreReply::Failed), Err(AuthError::Unexpected));
    assert_eq!(get_by_email(StoreReply::Failed), Err(AuthError::Unexpected));
}
