use session_auth::auth::admin::AdminUser;
use session_auth::auth::user::AuthenticatedUser;
use session_auth::config::app_config::AppConfig;
use session_auth::database::ledger::{LedgerCommand, TokenBlacklist};
use session_auth::database::repository::{
    StoreRequest, UserChange, UserFilter, UserRepository,
};
use session_auth::errors::AppError;
use session_auth::handlers::auth::{logout, logout_reply};
use session_auth::models::user::{User, UserId};
use session_auth::utils::token::generate_token_at;
use std::collections::HashMap;

const ALICE: &str = "65f0c0ffee0123456789abcd";
const BOB: &str = "65f0c0ffee0123456789abce";
const T0: i64 = 1_700_000_000;

fn unauthenticated() -> AppError {
    AppError::Unauthorized("authentication required".to_string())
}

/// A revoked token is refused in the words of every other refusal.
fn revoked() -> AppError {
    unauthenticated()
}

/// The service with two stores that live in memory.
struct World {
    cfg: AppConfig,
    blacklist: TokenBlacklist,
    repo: UserRepository,
    ledger: HashMap<String, (String, i64)>,
    ledger_up: bool,
    users: Vec<User>,
    store_up: bool,
}

impl World {
    fn new() -> World {
        World {
            cfg: AppConfig {
                mongo_uri: "mongodb://localhost".to_string(),
                mongo_db: "auth".to_string(),
                redis_uri: "redis://localhost".to_string(),
                jwt_secret: "0123456789abcdef0123456789abcdef".to_string(),
                jwt_exp_hours: 1,
                host: "0.0.0.0".to_string(),
                port: 8080,
                ssl_cert_path: None,
                ssl_key_path: None,
            },
            blacklist: TokenBlacklist::new(),
            repo: UserRepository::new(),
            ledger: HashMap::new(),
            ledger_up: true,
            users: Vec::new(),
            store_up: true,
        }
    }

    fn with_user(mut self, id: &str, is_admin: bool, token_version: i32) -> World {
        self.users.push(User {
            id: UserId::parse_str(id).unwrap(),
            email: format!("{}@example.com", id),
            username: "someone".to_string(),
            password_hash: String::new(),
            is_admin,
            token_version,
        });
        self
    }

    fn ledger_send(&mut self, command: &LedgerCommand, now: i64) -> Result<Option<String>, AppError> {
        if !self.ledger_up {
            return Err(AppError::Redis("connection refused".to_string()));
        }
        match command {
            LedgerCommand::SetEx { key, seconds, value } => {
                assert!(*seconds > 0);
                self.ledger.insert(key.clone(), (value.clone(), now + seconds));
                Ok(None)
            }
            LedgerCommand::Get { key } => Ok(self
                .ledger
                .get(key)
                .filter(|(_, lapses_at)| now < *lapses_at)
                .map(|(value, _)| value.clone())),
        }
    }

    fn position(&self, filter: &UserFilter) -> Option<usize> {
        self.users.iter().position(|u| match filter {
            UserFilter::ById(id) => u.id == *id,
            UserFilter::ByEmail(email) => u.email == *email,
        })
    }

    fn store_find(&self, request: &StoreRequest) -> Result<Option<User>, AppError> {
        if !self.store_up {
            return Err(AppError::Database("connection refused".to_string()));
        }
        match request {
            StoreRequest::FindOne { filter } => {
                Ok(self.position(filter).map(|i| self.users[i].clone()))
            }
            other => panic!("not a search: {:?}", other),
        }
    }

    fn store_bump(&mut self, request: &StoreRequest) -> Option<i32> {
        match request {
            StoreRequest::UpdateOne { filter, change: UserChange::NextTokenVersion } => {
                let i = self.position(filter)?;
                self.users[i].token_version += 1;
                Some(self.users[i].token_version)
            }
            other => panic!("not a version bump: {:?}", other),
        }
    }

    fn login(&mut self, id: &str, now: i64) -> String {
        let id = UserId::parse_str(id).unwrap();
        let version = self.store_bump(&self.repo.update_token_version(&id)).unwrap();
        generate_token_at(&self.cfg, &id.to_hex(), version, now).unwrap()
    }

    fn token(&self, id: &str, version: i32, now: i64) -> String {
        generate_token_at(&self.cfg, id, version, now).unwrap()
    }

    fn authenticate(&mut self, header: Option<&str>, now: i64) -> Result<AuthenticatedUser, AppError> {
        let presented = AuthenticatedUser::from_request(
            Some(&self.cfg),
            Some(&self.blacklist),
            Some(&self.repo),
            header,
            now,
        )?;
        let command = presented.inquiry(&self.blacklist);
        let answer = self.ledger_send(&command, now);
        let cleared = presented.after_ledger(&answer)?;
        let request = cleared.lookup(&self.repo);
        let found = self.store_find(&request);
        AuthenticatedUser::from_record(cleared, found)
    }

    fn authorize_admin(&mut self, header: Option<&str>, now: i64) -> Result<AdminUser, AppError> {
        let presented = AuthenticatedUser::from_request(
            Some(&self.cfg),
            Some(&self.blacklist),
            Some(&self.repo),
            header,
            now,
        )?;
        let command = presented.inquiry(&self.blacklist);
        let answer = self.ledger_send(&command, now);
        let cleared = presented.after_ledger(&answer)?;
        let request = cleared.lookup(&self.repo);
        let found = self.store_find(&request);
        AdminUser::from_record(cleared, found)
    }

    fn logout(&mut self, user: &AuthenticatedUser, now: i64) {
        let sent = logout(&self.blacklist, user, now).map(|c| self.ledger_send(&c, now).map(|_| ()));
        assert!(logout_reply(sent).is_ok());
    }
}

fn bearer(token: &str) -> String {
    format!("Bearer {}", token)
}

#[test]
fn valid_token_authenticates_its_user() {
    let mut world = World::new().with_user(ALICE, false, 3);
    let token = world.token(ALICE, 3, T0);
    let user = world.authenticate(Some(&bearer(&token)), T0 + 10).unwrap();
    assert_eq!(
        user,
        AuthenticatedUser { user_id: ALICE.to_string(), token, exp: (T0 + 3600) as usize }
    );
}

#[test]
fn request_without_header_is_unauthenticated() {
    let mut world = World::new().with_user(ALICE, false, 0);
    assert_eq!(world.authenticate(None, T0), Err(unauthenticated()));
}

#[test]
fn header_with_another_scheme_is_unauthenticated() {
    let mut world = World::new().with_user(ALICE, false, 0);
    let token = world.token(ALICE, 0, T0);
    assert_eq!(world.authenticate(Some(&token), T0), Err(unauthenticated()));
    assert_eq!(world.authenticate(Some(&format!("Basic {}", token)), T0), Err(unauthenticated()));
    assert_eq!(world.authenticate(Some(&format!("Bearer{}", token)), T0), Err(unauthenticated()));
}

#[test]
fn header_that_is_not_the_standard_one_is_unauthenticated() {
    let mut world = World::new().with_user(ALICE, false, 0);
    let token = world.token(ALICE, 0, T0);
    assert!(world.authenticate(Some(&format!("Bearer {}", token)), T0).is_ok());
    for header in [
        format!("Bearer Bearer {}", token),
        format!("Bearer  {}", token),
        format!("Bearer {} ", token),
        format!("Bearer \t{}", token),
        format!(" Bearer {}", token),
        format!("bearer {}", token),
    ] {
        assert_eq!(world.authenticate(Some(&header), T0), Err(unauthenticated()), "{:?}", header);
        assert_eq!(
            world.authorize_admin(Some(&header), T0),
            Err(unauthenticated()),
            "{:?}",
            header
        );
    }
}

#[test]
fn every_cause_of_refusal_gets_the_same_answer() {
    let mut world = World::new().with_user(ALICE, false, 1);
    let good = world.token(ALICE, 1, T0);
    let stale = world.token(ALICE, 0, T0);
    let unknown = world.token(BOB, 0, T0);
    let mut forged = good.clone();
    let last = forged.pop().unwrap();
    forged.push(if last == 'A' { 'B' } else { 'A' });
    let user = world.authenticate(Some(&bearer(&good)), T0).unwrap();
    world.logout(&user, T0);
    let refusals = vec![
        world.authenticate(None, T0 + 1),
        world.authenticate(Some("Bearer not.a.token"), T0 + 1),
        world.authenticate(Some(&bearer(&forged)), T0 + 1),
        world.authenticate(Some(&bearer(&good)), T0 + 1),
        world.authenticate(Some(&bearer(&good)), T0 + 3600),
        world.authenticate(Some(&bearer(&stale)), T0 + 1),
        world.authenticate(Some(&bearer(&unknown)), T0 + 1),
    ];
    for refusal in refusals {
        let response = refusal.unwrap_err().error_response();
        assert_eq!(response.status, 401);
        assert_eq!(response.body.msg, "authentication required");
        assert_eq!(response.body.data, None);
    }
}

#[test]
fn garbage_token_is_unauthenticated_without_asking_a_store() {
    let mut world = World::new().with_user(ALICE, false, 0);
    world.ledger_up = false;
    world.store_up = false;
    assert_eq!(world.authenticate(Some("Bearer not.a.token"), T0), Err(unauthenticated()));
}

#[test]
fn expired_token_is_unauthenticated() {
    let mut world = World::new().with_user(ALICE, false, 0);
    let token = world.token(ALICE, 0, T0);
    assert!(world.authenticate(Some(&bearer(&token)), T0 + 3599).is_ok());
    assert_eq!(world.authenticate(Some(&bearer(&token)), T0 + 3600), Err(unauthenticated()));
}

#[test]
fn token_for_unknown_user_is_unauthenticated() {
    let mut world = World::new().with_user(ALICE, false, 0);
    let token = world.token(BOB, 0, T0);
    assert_eq!(world.authenticate(Some(&bearer(&token)), T0), Err(unauthenticated()));
}

#[test]
fn token_whose_subject_names_no_record_is_unauthenticated() {
    let mut world = World::new().with_user(ALICE, false, 0);
    let token = world.token("alice", 0, T0);
    assert_eq!(world.authenticate(Some(&bearer(&token)), T0), Err(unauthenticated()));
}

#[test]
fn subject_in_upper_case_names_the_same_record() {
    let mut world = World::new().with_user(ALICE, false, 0);
    let token = world.token(&ALICE.to_uppercase(), 0, T0);
    let user = world.authenticate(Some(&bearer(&token)), T0).unwrap();
    assert_eq!(user.user_id, ALICE.to_uppercase());
}

#[test]
fn failing_store_is_not_told_apart_from_a_missing_user() {
    let mut world = World::new().with_user(ALICE, false, 0);
    let token = world.token(ALICE, 0, T0);
    world.store_up = false;
    assert_eq!(world.authenticate(Some(&bearer(&token)), T0), Err(unauthenticated()));
}

#[test]
fn unreachable_ledger_fails_closed() {
    let mut world = World::new().with_user(ALICE, false, 0);
    let token = world.token(ALICE, 0, T0);
    world.ledger_up = false;
    assert_eq!(world.authenticate(Some(&bearer(&token)), T0), Err(unauthenticated()));
    assert_eq!(world.authorize_admin(Some(&bearer(&token)), T0).unwrap_err(), unauthenticated());
}

#[test]
fn service_without_settings_or_stores_fails_as_its_own_fault() {
    let world = World::new().with_user(ALICE, false, 0);
    let header = bearer(&world.token(ALICE, 0, T0));
    let (cfg, blacklist, repo) = (Some(&world.cfg), Some(&world.blacklist), Some(&world.repo));
    let h = Some(header.as_str());
    assert_eq!(
        AuthenticatedUser::from_request(None, blacklist, repo, h, T0).unwrap_err(),
        AppError::Internal
    );
    assert_eq!(
        AuthenticatedUser::from_request(cfg, None, repo, h, T0).unwrap_err(),
        AppError::Internal
    );
    assert_eq!(
        AuthenticatedUser::from_request(cfg, blacklist, None, h, T0).unwrap_err(),
        AppError::Internal
    );
    assert_eq!(
        AuthenticatedUser::from_request(None, None, None, None, T0).unwrap_err(),
        AppError::Internal
    );
    assert!(AuthenticatedUser::from_request(cfg, blacklist, repo, h, T0).is_ok());
}

#[test]
fn revoked_token_fails_while_a_fresh_one_succeeds() {
    let mut world = World::new().with_user(ALICE, false, 0);
    let old = world.login(ALICE, T0);
    let user = world.authenticate(Some(&bearer(&old)), T0 + 1).unwrap();
    let command = world.blacklist.add_token(&user.token, 600).unwrap();
    world.ledger_send(&command, T0 + 1).unwrap();
    assert_eq!(world.authenticate(Some(&bearer(&old)), T0 + 2), Err(revoked()));
    assert_eq!(world.authenticate(Some(&bearer(&old)), T0 + 600), Err(revoked()));
    let fresh = world.login(ALICE, T0 + 3);
    assert_ne!(fresh, old);
    assert!(world.authenticate(Some(&bearer(&fresh)), T0 + 4).is_ok());
}

#[test]
fn revoking_one_token_leaves_another_users_token_alone() {
    let mut world = World::new().with_user(ALICE, false, 0).with_user(BOB, false, 0);
    let alice = world.token(ALICE, 0, T0);
    let bob = world.token(BOB, 0, T0);
    let user = world.authenticate(Some(&bearer(&alice)), T0).unwrap();
    world.logout(&user, T0);
    assert_eq!(world.authenticate(Some(&bearer(&alice)), T0 + 1), Err(revoked()));
    assert!(world.authenticate(Some(&bearer(&bob)), T0 + 1).is_ok());
}

#[test]
fn revoking_twice_does_no_harm() {
    let mut world = World::new().with_user(ALICE, false, 0);
    let token = world.token(ALICE, 0, T0);
    let user = world.authenticate(Some(&bearer(&token)), T0).unwrap();
    world.logout(&user, T0);
    world.logout(&user, T0 + 5);
    assert_eq!(world.authenticate(Some(&bearer(&token)), T0 + 6), Err(revoked()));
}

#[test]
fn logged_out_token_is_never_accepted_again() {
    let mut world = World::new().with_user(ALICE, false, 0);
    let token = world.token(ALICE, 0, T0);
    let user = world.authenticate(Some(&bearer(&token)), T0 + 100).unwrap();
    world.logout(&user, T0 + 100);
    assert_eq!(world.ledger.values().next().unwrap().1, T0 + 3600);
    assert_eq!(world.authenticate(Some(&bearer(&token)), T0 + 3599), Err(revoked()));
    assert_eq!(world.authenticate(Some(&bearer(&token)), T0 + 3600), Err(unauthenticated()));
    assert_eq!(world.authenticate(Some(&bearer(&token)), T0 + 99_999), Err(unauthenticated()));
}

#[test]
fn new_login_invalidates_the_old_token() {
    let mut world = World::new().with_user(ALICE, false, 0);
    let first = world.login(ALICE, T0);
    assert_eq!(world.users[0].token_version, 1);
    assert!(world.authenticate(Some(&bearer(&first)), T0 + 1).is_ok());
    let second = world.login(ALICE, T0 + 2);
    assert_eq!(world.users[0].token_version, 2);
    assert_eq!(world.authenticate(Some(&bearer(&first)), T0 + 3), Err(unauthenticated()));
    assert!(world.ledger.is_empty());
    assert!(world.authenticate(Some(&bearer(&second)), T0 + 3).is_ok());
}

#[test]
fn token_of_a_future_version_is_unauthenticated() {
    let mut world = World::new().with_user(ALICE, false, 1);
    let token = world.token(ALICE, 2, T0);
    assert_eq!(world.authenticate(Some(&bearer(&token)), T0), Err(unauthenticated()));
}

#[test]
fn non_admin_is_forbidden_and_admin_is_let_through() {
    let mut world = World::new().with_user(ALICE, false, 0).with_user(BOB, true, 0);
    let alice = world.token(ALICE, 0, T0);
    let bob = world.token(BOB, 0, T0);
    assert_eq!(
        world.authorize_admin(Some(&bearer(&alice)), T0),
        Err(AppError::Forbidden("permission denied".to_string()))
    );
    assert_eq!(world.authorize_admin(Some(&bearer(&bob)), T0), Ok(AdminUser {}));
    assert!(world.authenticate(Some(&bearer(&alice)), T0).is_ok());
}

#[test]
fn admin_gate_refuses_whoever_is_not_authenticated() {
    let mut world = World::new().with_user(BOB, true, 1);
    let stale = world.token(BOB, 0, T0);
    let good = world.token(BOB, 1, T0);
    assert_eq!(world.authorize_admin(None, T0), Err(unauthenticated()));
    assert_eq!(world.authorize_admin(Some(&bearer(&stale)), T0), Err(unauthenticated()));
    assert_eq!(world.authorize_admin(Some(&bearer(&good)), T0 + 3600), Err(unauthenticated()));
    let user = world.authenticate(Some(&bearer(&good)), T0).unwrap();
    world.logout(&user, T0);
    assert_eq!(world.authorize_admin(Some(&bearer(&good)), T0 + 1), Err(revoked()));
}

#[test]
fn two_logins_get_two_versions_and_only_the_last_token_lives() {
    let mut world = World::new().with_user(ALICE, false, 5);
    let id = UserId::parse_str(ALICE).unwrap();
    let first_request = world.repo.update_token_version(&id);
    let second_request = world.repo.update_token_version(&id);
    assert_eq!(first_request, second_request);
    let second_version = world.store_bump(&second_request).unwrap();
    let first_version = world.store_bump(&first_request).unwrap();
    assert_ne!(first_version, second_version);
    assert_eq!((second_version, first_version), (6, 7));
    let late = world.token(ALICE, first_version, T0);
    let early = world.token(ALICE, second_version, T0);
    assert!(world.authenticate(Some(&bearer(&late)), T0).is_ok());
    assert_eq!(world.authenticate(Some(&bearer(&early)), T0), Err(unauthenticated()));
}
