use session_auth::auth::user::AuthenticatedUser;
use session_auth::config::app_config::AppConfig;
use session_auth::database::ledger::{LedgerCommand, TokenBlacklist};
use session_auth::database::repository::{
    StoreRequest, UserChange, UserFilter, UserRepository,
};
use session_auth::errors::AppError;
use session_auth::handlers::admin::{
    create_user, create_user_found, create_user_reply, delete_user, delete_user_found,
    delete_user_reply, get_all_users, get_all_users_reply, get_user_by_id, get_user_by_id_reply,
    plan_changes, set_admin, set_admin_found, set_admin_reply, update_user, update_user_changes,
    update_user_found, update_user_reply, user_info,
};
use session_auth::handlers::auth::{
    login, login_check, login_reply, logout, logout_reply, register, register_reply,
    register_user,
};
use session_auth::handlers::health::{health_check, Health};
use session_auth::handlers::steps::{acknowledge, new_user, require_found, require_free};
use session_auth::handlers::user::{
    get_me, get_me_reply, update_email, update_email_found, update_email_reply, update_password,
    update_password_found, update_password_reply, update_username, update_username_reply,
};
use session_auth::models::request::{
    CreateUserRequest, LoginRequest, RegisterRequest, SetRoleRequest, UpdateEmailRequest,
    UpdatePasswordRequest, UpdateUserRequest, UpdateUsernameRequest,
};
use session_auth::models::response::{AboutMe, HttpReply, Response, UserInfo};
use session_auth::models::user::{User, UserId};
use session_auth::utils::password::{hash_password, verify_password};
use session_auth::utils::token::verify_token_at;

const ID: &str = "65f0c0ffee0123456789abcd";
const T0: i64 = 1_700_000_000;

fn id() -> UserId {
    UserId::parse_str(ID).unwrap()
}

fn config() -> AppConfig {
    AppConfig {
        mongo_uri: "mongodb://localhost".to_string(),
        mongo_db: "auth".to_string(),
        redis_uri: "redis://localhost".to_string(),
        jwt_secret: "0123456789abcdef0123456789abcdef".to_string(),
        jwt_exp_hours: 24,
        host: "0.0.0.0".to_string(),
        port: 8080,
        ssl_cert_path: None,
        ssl_key_path: None,
    }
}

fn alice(password_hash: &str) -> User {
    User {
        id: id(),
        email: "alice@example.com".to_string(),
        username: "alice".to_string(),
        password_hash: password_hash.to_string(),
        is_admin: false,
        token_version: 4,
    }
}

fn caller(user_id: &str) -> AuthenticatedUser {
    AuthenticatedUser { user_id: user_id.to_string(), token: "t.o.k".to_string(), exp: 2_000 }
}

fn plain(status: u16, msg: &str) -> Result<HttpReply<()>, AppError> {
    Ok(HttpReply { status, body: Response { msg: msg.to_string(), data: None } })
}

fn down() -> AppError {
    AppError::Database("connection reset".to_string())
}

fn by_id() -> UserFilter {
    UserFilter::ById(id())
}

#[test]
fn registration_validates_then_asks_for_the_address() {
    let repo = UserRepository::new();
    let payload = RegisterRequest {
        email: "alice@example.com".into(),
        username: "alice".into(),
        password: "12345678".into(),
    };
    assert_eq!(
        register(&repo, &payload),
        Ok(StoreRequest::FindOne { filter: UserFilter::ByEmail("alice@example.com".into()) })
    );
    let payload = RegisterRequest { password: "short".into(), ..payload };
    assert_eq!(
        register(&repo, &payload),
        Err(AppError::BadRequest("password: password must be at least 8 characters".into()))
    );
}

#[test]
fn registration_creates_a_plain_user_at_version_zero() {
    let payload = RegisterRequest {
        email: "alice@example.com".into(),
        username: "alice".into(),
        password: "12345678".into(),
    };
    let user = register_user(&payload, Ok(None), id()).unwrap();
    assert_eq!(user.id, id());
    assert_eq!(user.email, "alice@example.com");
    assert_eq!(user.username, "alice");
    assert!(!user.is_admin);
    assert_eq!(user.token_version, 0);
    assert_ne!(user.password_hash, "12345678");
    assert_eq!(verify_password(&user.password_hash, "12345678"), Ok(()));
}

#[test]
fn registration_of_a_taken_address_is_a_conflict() {
    let payload = RegisterRequest {
        email: "alice@example.com".into(),
        username: "alice".into(),
        password: "12345678".into(),
    };
    assert_eq!(
        register_user(&payload, Ok(Some(alice("x"))), id()),
        Err(AppError::Conflict("email already registered".into()))
    );
    assert_eq!(register_user(&payload, Err(down()), id()), Err(down()));
}

#[test]
fn registration_replies_with_a_token_for_version_zero() {
    let cfg = config();
    let user = User { token_version: 0, ..alice("x") };
    let reply = register_reply(&cfg, &user, Ok(()), T0).unwrap();
    assert_eq!(reply.status, 200);
    assert_eq!(reply.body.msg, "successfully registered");
    let claims = verify_token_at(&cfg, &reply.body.data.unwrap().token, T0).unwrap();
    assert_eq!((claims.sub.as_str(), claims.ver), (ID, 0));
    assert_eq!(register_reply(&cfg, &user, Err(down()), T0), Err(down()));
    let broken = AppConfig { jwt_exp_hours: 0, ..config() };
    assert_eq!(register_reply(&broken, &user, Ok(()), T0), Err(AppError::Internal));
}

#[test]
fn login_validates_then_asks_for_the_address() {
    let repo = UserRepository::new();
    let payload = LoginRequest { email: "alice@example.com".into(), password: "x".into() };
    assert_eq!(
        login(&repo, &payload),
        Ok(StoreRequest::FindOne { filter: UserFilter::ByEmail("alice@example.com".into()) })
    );
    let payload = LoginRequest { email: "alice".into(), password: "x".into() };
    assert_eq!(
        login(&repo, &payload),
        Err(AppError::BadRequest("email: invalid email format".into()))
    );
}

#[test]
fn login_refuses_unknown_account_and_wrong_password_alike() {
    let digest = hash_password("12345678").unwrap();
    let refused = Err(AppError::Unauthorized("invalid username or password".into()));
    let good = LoginRequest { email: "alice@example.com".into(), password: "12345678".into() };
    let wrong = LoginRequest { email: "alice@example.com".into(), password: "87654321".into() };
    assert_eq!(login_check(&good, Ok(None)), refused);
    assert_eq!(login_check(&wrong, Ok(Some(alice(&digest)))), refused);
    assert_eq!(login_check(&good, Ok(Some(alice("no digest")))), refused);
    assert_eq!(login_check(&good, Ok(Some(alice(&digest)))), Ok(id()));
    assert_eq!(login_check(&good, Err(down())), Err(down()));
}

#[test]
fn login_at_the_last_session_version_fails_before_the_store_is_asked() {
    let digest = hash_password("12345678").unwrap();
    let good = LoginRequest { email: "alice@example.com".into(), password: "12345678".into() };
    let wrong = LoginRequest { email: "alice@example.com".into(), password: "87654321".into() };
    let last = User { token_version: i32::MAX, ..alice(&digest) };
    let before_last = User { token_version: i32::MAX - 1, ..alice(&digest) };
    assert_eq!(login_check(&good, Ok(Some(last.clone()))), Err(AppError::Internal));
    assert_eq!(
        login_check(&wrong, Ok(Some(last))),
        Err(AppError::Unauthorized("invalid username or password".into()))
    );
    assert_eq!(login_check(&good, Ok(Some(before_last))), Ok(id()));
}

#[test]
fn login_issues_a_token_for_the_version_that_the_store_reports() {
    let cfg = config();
    let reply = login_reply(&cfg, &id(), Ok(Some(5)), T0).unwrap();
    assert_eq!(reply.status, 200);
    assert_eq!(reply.body.msg, "successfully logged in");
    let claims = verify_token_at(&cfg, &reply.body.data.unwrap().token, T0).unwrap();
    assert_eq!(claims.sub, ID);
    assert_eq!(claims.ver, 5);
    assert_eq!(claims.iat, T0 as usize);
    assert_eq!(claims.exp, (T0 + 86_400) as usize);
}

#[test]
fn login_fails_when_the_record_is_gone_or_the_store_fails() {
    let cfg = config();
    assert_eq!(
        login_reply(&cfg, &id(), Ok(None), T0),
        Err(AppError::Unauthorized("invalid username or password".into()))
    );
    assert_eq!(login_reply(&cfg, &id(), Err(down()), T0), Err(down()));
}

#[test]
fn logout_revokes_for_the_rest_of_the_tokens_life() {
    let blacklist = TokenBlacklist::new();
    let user = caller(ID);
    assert_eq!(
        logout(&blacklist, &user, 1_500),
        Some(LedgerCommand::SetEx {
            key: "blacklist:t.o.k".into(),
            seconds: 500,
            value: "1".into()
        })
    );
    assert_eq!(
        logout(&blacklist, &user, 1_999).map(|c| matches!(c, LedgerCommand::SetEx { seconds: 1, .. })),
        Some(true)
    );
    assert_eq!(
        logout(&blacklist, &user, -100).map(|c| matches!(c, LedgerCommand::SetEx { seconds: 2_100, .. })),
        Some(true)
    );
}

#[test]
fn logout_of_a_dead_token_sends_nothing() {
    let blacklist = TokenBlacklist::new();
    assert_eq!(logout(&blacklist, &caller(ID), 2_000), None);
    assert_eq!(logout(&blacklist, &caller(ID), 2_001), None);
    assert_eq!(logout(&blacklist, &caller(ID), i64::MAX), None);
}

#[test]
fn logout_never_asks_for_more_seconds_than_the_ledger_counts() {
    let blacklist = TokenBlacklist::new();
    let user = AuthenticatedUser { exp: usize::MAX, ..caller(ID) };
    let expected = (usize::MAX as i128 + 5).min(i64::MAX as i128) as i64;
    assert_eq!(
        logout(&blacklist, &user, -5),
        Some(LedgerCommand::SetEx {
            key: "blacklist:t.o.k".into(),
            seconds: expected,
            value: "1".into()
        })
    );
}

#[test]
fn logout_replies_unless_the_ledger_failed() {
    assert_eq!(logout_reply(None), plain(200, "successfully logged out"));
    assert_eq!(logout_reply(Some(Ok(()))), plain(200, "successfully logged out"));
    assert_eq!(
        logout_reply(Some(Err(AppError::Redis("down".into())))),
        Err(AppError::Internal)
    );
}

#[test]
fn who_am_i_asks_for_the_callers_record() {
    let repo = UserRepository::new();
    assert_eq!(get_me(&repo, &caller(ID)), Ok(StoreRequest::FindOne { filter: by_id() }));
    assert_eq!(
        get_me(&repo, &caller("me")),
        Err(AppError::Unauthorized("invalid user id".into()))
    );
}

#[test]
fn who_am_i_shows_address_and_name() {
    assert_eq!(
        get_me_reply(Ok(Some(alice("x")))),
        Ok(HttpReply {
            status: 200,
            body: Response {
                msg: "successfully fetched user profile".into(),
                data: Some(AboutMe { email: "alice@example.com".into(), username: "alice".into() }),
            },
        })
    );
    assert_eq!(get_me_reply(Ok(None)), Err(AppError::Unauthorized("user not found".into())));
    assert_eq!(get_me_reply(Err(down())), Err(down()));
}

#[test]
fn change_of_address_runs_its_three_decisions() {
    let repo = UserRepository::new();
    let payload = UpdateEmailRequest { email: "new@example.com".into() };
    assert_eq!(
        update_email(&repo, &payload),
        Ok(StoreRequest::FindOne { filter: UserFilter::ByEmail("new@example.com".into()) })
    );
    assert_eq!(
        update_email(&repo, &UpdateEmailRequest { email: "new".into() }),
        Err(AppError::BadRequest("email: invalid email format".into()))
    );
    assert_eq!(
        update_email_found(&repo, &caller(ID), &payload, Ok(None)),
        Ok(StoreRequest::UpdateOne {
            filter: by_id(),
            change: UserChange::SetEmail("new@example.com".into())
        })
    );
    assert_eq!(
        update_email_found(&repo, &caller(ID), &payload, Ok(Some(alice("x")))),
        Err(AppError::Conflict("email already registered".into()))
    );
    assert_eq!(
        update_email_found(&repo, &caller("me"), &payload, Ok(None)),
        Err(AppError::Unauthorized("invalid user id".into()))
    );
    assert_eq!(update_email_found(&repo, &caller(ID), &payload, Err(down())), Err(down()));
    assert_eq!(update_email_reply(Ok(())), plain(200, "successfully updated email"));
    assert_eq!(update_email_reply(Err(down())), Err(down()));
}

#[test]
fn change_of_name_runs_its_two_decisions() {
    let repo = UserRepository::new();
    let payload = UpdateUsernameRequest { username: "neo".into() };
    assert_eq!(
        update_username(&repo, &caller(ID), &payload),
        Ok(StoreRequest::UpdateOne { filter: by_id(), change: UserChange::SetUsername("neo".into()) })
    );
    assert_eq!(
        update_username(&repo, &caller(ID), &UpdateUsernameRequest { username: "n".into() }),
        Err(AppError::BadRequest("username: username must be 3-30 characters".into()))
    );
    assert_eq!(
        update_username(&repo, &caller("me"), &payload),
        Err(AppError::Unauthorized("invalid user id".into()))
    );
    assert_eq!(update_username_reply(Ok(())), plain(200, "successfully updated username"));
    assert_eq!(update_username_reply(Err(down())), Err(down()));
}

#[test]
fn change_of_password_checks_the_old_one_and_stores_a_digest_of_the_new() {
    let repo = UserRepository::new();
    let digest = hash_password("old-secret").unwrap();
    let payload =
        UpdatePasswordRequest { old_password: "old-secret".into(), new_password: "new-secret".into() };
    assert_eq!(
        update_password(&repo, &caller(ID), &payload),
        Ok(StoreRequest::FindOne { filter: by_id() })
    );
    match update_password_found(&repo, &payload, Ok(Some(alice(&digest)))).unwrap() {
        StoreRequest::UpdateOne { filter, change: UserChange::SetPasswordHash(new_digest) } => {
            assert_eq!(filter, by_id());
            assert_eq!(verify_password(&new_digest, "new-secret"), Ok(()));
        }
        other => panic!("unexpected request {:?}", other),
    }
    assert_eq!(update_password_reply(Ok(())), plain(200, "successfully updated password"));
    assert_eq!(update_password_reply(Err(down())), Err(down()));
}

#[test]
fn change_of_password_is_refused_in_its_own_words() {
    let repo = UserRepository::new();
    let wrong =
        UpdatePasswordRequest { old_password: "guess".into(), new_password: "new-secret".into() };
    assert_eq!(
        update_password_found(&repo, &wrong, Ok(Some(alice("no digest")))),
        Err(AppError::Unauthorized("invalid old password".into()))
    );
    assert_eq!(
        update_password_found(&repo, &wrong, Ok(None)),
        Err(AppError::Unauthorized("user not found".into()))
    );
    assert_eq!(update_password_found(&repo, &wrong, Err(down())), Err(down()));
    let short = UpdatePasswordRequest { old_password: "guess".into(), new_password: "new".into() };
    assert_eq!(
        update_password(&repo, &caller(ID), &short),
        Err(AppError::BadRequest("new_password: password must be at least 8 characters".into()))
    );
    let fine = UpdatePasswordRequest { old_password: "x".into(), new_password: "12345678".into() };
    assert_eq!(
        update_password(&repo, &caller("me"), &fine),
        Err(AppError::Unauthorized("invalid user id".into()))
    );
}

#[test]
fn list_of_accounts_shows_every_account_in_order() {
    assert_eq!(get_all_users(&UserRepository::new()), StoreRequest::FindAll);
    let bob = User {
        id: UserId::parse_str("000000000000000000000001").unwrap(),
        email: "bob@example.com".into(),
        username: "bob".into(),
        password_hash: "y".into(),
        is_admin: true,
        token_version: 0,
    };
    let reply = get_all_users_reply(Ok(vec![alice("x"), bob])).unwrap();
    assert_eq!(reply.status, 200);
    assert_eq!(reply.body.msg, "successfully fetched user infos");
    assert_eq!(
        reply.body.data,
        Some(vec![
            UserInfo {
                id: ID.into(),
                email: "alice@example.com".into(),
                username: "alice".into(),
                is_admin: false
            },
            UserInfo {
                id: "000000000000000000000001".into(),
                email: "bob@example.com".into(),
                username: "bob".into(),
                is_admin: true
            },
        ])
    );
    assert_eq!(get_all_users_reply(Ok(vec![])).unwrap().body.data, Some(vec![]));
    assert_eq!(get_all_users_reply(Err(down())), Err(down()));
    assert_eq!(user_info(&alice("x")).id, ID);
}

#[test]
fn creation_of_an_account_runs_its_three_decisions() {
    let repo = UserRepository::new();
    let payload = CreateUserRequest {
        email: "root@example.com".into(),
        username: "root".into(),
        password: "12345678".into(),
        is_admin: true,
    };
    assert_eq!(
        create_user(&repo, &payload),
        Ok(StoreRequest::FindOne { filter: UserFilter::ByEmail("root@example.com".into()) })
    );
    assert_eq!(
        create_user(&repo, &CreateUserRequest { email: "root".into(), ..payload.clone() }),
        Err(AppError::BadRequest("email: invalid email format".into()))
    );
    let user = create_user_found(&payload, Ok(None), id()).unwrap();
    assert_eq!((user.id.clone(), user.is_admin, user.token_version), (id(), true, 0));
    assert_eq!(user.email, "root@example.com");
    assert_eq!(user.username, "root");
    assert_eq!(verify_password(&user.password_hash, "12345678"), Ok(()));
    assert_eq!(
        create_user_found(&payload, Ok(Some(alice("x"))), id()),
        Err(AppError::Conflict("email already registered".into()))
    );
    assert_eq!(create_user_found(&payload, Err(down()), id()), Err(down()));
    assert_eq!(create_user_reply(Ok(())), plain(201, "successfully created user"));
    assert_eq!(create_user_reply(Err(down())), Err(down()));
}

#[test]
fn one_account_is_looked_up_and_shown() {
    let repo = UserRepository::new();
    assert_eq!(get_user_by_id(&repo, ID), Ok(StoreRequest::FindOne { filter: by_id() }));
    assert_eq!(
        get_user_by_id(&repo, "42"),
        Err(AppError::BadRequest("invalid user id".into()))
    );
    let reply = get_user_by_id_reply(Ok(Some(alice("x")))).unwrap();
    assert_eq!(reply.status, 200);
    assert_eq!(reply.body.msg, "successfully fetched user info");
    assert_eq!(
        reply.body.data,
        Some(UserInfo {
            id: ID.into(),
            email: "alice@example.com".into(),
            username: "alice".into(),
            is_admin: false
        })
    );
    assert_eq!(get_user_by_id_reply(Ok(None)), Err(AppError::NotFound("user not found".into())));
    assert_eq!(get_user_by_id_reply(Err(down())), Err(down()));
}

#[test]
fn change_to_an_account_validates_then_looks_the_account_up() {
    let repo = UserRepository::new();
    let nothing = UpdateUserRequest { email: None, username: None, password: None };
    assert_eq!(update_user(&repo, ID, &nothing), Ok(StoreRequest::FindOne { filter: by_id() }));
    assert_eq!(
        update_user(&repo, "42", &nothing),
        Err(AppError::BadRequest("invalid user id".into()))
    );
    let bad = UpdateUserRequest { username: Some("x".into()), ..nothing };
    assert_eq!(
        update_user(&repo, "42", &bad),
        Err(AppError::BadRequest("username: username must be 3-30 characters".into()))
    );
}

#[test]
fn change_to_an_account_asks_about_a_new_address_only() {
    let repo = UserRepository::new();
    let same = UpdateUserRequest {
        email: Some("alice@example.com".into()),
        username: None,
        password: None,
    };
    assert_eq!(update_user_found(&repo, &same, Ok(Some(alice("x")))), Ok((alice("x"), None)));
    let new = UpdateUserRequest { email: Some("new@example.com".into()), ..same.clone() };
    assert_eq!(
        update_user_found(&repo, &new, Ok(Some(alice("x")))),
        Ok((
            alice("x"),
            Some(StoreRequest::FindOne { filter: UserFilter::ByEmail("new@example.com".into()) })
        ))
    );
    let none = UpdateUserRequest { email: None, ..same.clone() };
    assert_eq!(update_user_found(&repo, &none, Ok(Some(alice("x")))), Ok((alice("x"), None)));
    assert_eq!(
        update_user_found(&repo, &new, Ok(None)),
        Err(AppError::NotFound("user not found".into()))
    );
    assert_eq!(update_user_found(&repo, &new, Err(down())), Err(down()));
}

#[test]
fn changes_are_planned_in_the_order_address_name_password() {
    let repo = UserRepository::new();
    let payload = UpdateUserRequest {
        email: Some("new@example.com".into()),
        username: Some("neo".into()),
        password: Some("12345678".into()),
    };
    assert_eq!(
        plan_changes(&repo, &payload, &alice("x"), Ok(None), Ok("digest".into())),
        Ok(vec![
            StoreRequest::UpdateOne {
                filter: by_id(),
                change: UserChange::SetEmail("new@example.com".into())
            },
            StoreRequest::UpdateOne { filter: by_id(), change: UserChange::SetUsername("neo".into()) },
            StoreRequest::UpdateOne {
                filter: by_id(),
                change: UserChange::SetPasswordHash("digest".into())
            },
        ])
    );
}

#[test]
fn plan_leaves_out_what_the_payload_leaves_out() {
    let repo = UserRepository::new();
    let nothing = UpdateUserRequest { email: None, username: None, password: None };
    assert_eq!(
        plan_changes(&repo, &nothing, &alice("x"), Err(down()), Err(AppError::Internal)),
        Ok(vec![])
    );
    let same_email = UpdateUserRequest { email: Some("alice@example.com".into()), ..nothing.clone() };
    assert_eq!(
        plan_changes(&repo, &same_email, &alice("x"), Ok(Some(alice("x"))), Err(AppError::Internal)),
        Ok(vec![])
    );
    let name_only = UpdateUserRequest { username: Some("neo".into()), ..nothing };
    assert_eq!(
        plan_changes(&repo, &name_only, &alice("x"), Ok(None), Err(AppError::Internal)),
        Ok(vec![StoreRequest::UpdateOne {
            filter: by_id(),
            change: UserChange::SetUsername("neo".into())
        }])
    );
}

#[test]
fn plan_fails_on_a_taken_address_or_a_missing_digest() {
    let repo = UserRepository::new();
    let payload = UpdateUserRequest {
        email: Some("new@example.com".into()),
        username: Some("neo".into()),
        password: Some("12345678".into()),
    };
    assert_eq!(
        plan_changes(&repo, &payload, &alice("x"), Ok(Some(alice("y"))), Ok("digest".into())),
        Err(AppError::Conflict("email already registered".into()))
    );
    assert_eq!(
        plan_changes(&repo, &payload, &alice("x"), Err(down()), Ok("digest".into())),
        Err(down())
    );
    assert_eq!(
        plan_changes(&repo, &payload, &alice("x"), Ok(None), Err(AppError::Internal)),
        Err(AppError::Internal)
    );
}

#[test]
fn planned_password_change_carries_a_digest_of_the_new_password() {
    let repo = UserRepository::new();
    let payload =
        UpdateUserRequest { email: None, username: None, password: Some("12345678".into()) };
    let plan = update_user_changes(&repo, &payload, &alice("x"), Ok(None)).unwrap();
    assert_eq!(plan.len(), 1);
    match &plan[0] {
        StoreRequest::UpdateOne { filter, change: UserChange::SetPasswordHash(digest) } => {
            assert_eq!(*filter, by_id());
            assert_eq!(verify_password(digest, "12345678"), Ok(()));
        }
        other => panic!("unexpected request {:?}", other),
    }
    let nothing = UpdateUserRequest { email: None, username: None, password: None };
    assert_eq!(update_user_changes(&repo, &nothing, &alice("x"), Ok(None)), Ok(vec![]));
    assert_eq!(update_user_reply(Ok(())), plain(200, "successfully updated user"));
    assert_eq!(update_user_reply(Err(down())), Err(down()));
}

#[test]
fn removal_of_an_account_runs_its_three_decisions() {
    let repo = UserRepository::new();
    assert_eq!(delete_user(&repo, ID), Ok(StoreRequest::FindOne { filter: by_id() }));
    assert_eq!(delete_user(&repo, ""), Err(AppError::BadRequest("invalid user id".into())));
    assert_eq!(
        delete_user_found(&repo, Ok(Some(alice("x")))),
        Ok(StoreRequest::DeleteOne { filter: by_id() })
    );
    assert_eq!(
        delete_user_found(&repo, Ok(None)),
        Err(AppError::NotFound("user not found".into()))
    );
    assert_eq!(delete_user_found(&repo, Err(down())), Err(down()));
    assert_eq!(delete_user_reply(Ok(())), plain(200, "successfully deleted user"));
    assert_eq!(delete_user_reply(Err(down())), Err(down()));
}

#[test]
fn change_of_role_runs_its_three_decisions() {
    let repo = UserRepository::new();
    let grant = SetRoleRequest { is_admin: true };
    let withdraw = SetRoleRequest { is_admin: false };
    assert_eq!(set_admin(&repo, ID), Ok(StoreRequest::FindOne { filter: by_id() }));
    assert_eq!(set_admin(&repo, "x"), Err(AppError::BadRequest("invalid user id".into())));
    assert_eq!(
        set_admin_found(&repo, &grant, Ok(Some(alice("x")))),
        Ok(StoreRequest::UpdateOne { filter: by_id(), change: UserChange::SetAdmin(true) })
    );
    assert_eq!(
        set_admin_found(&repo, &withdraw, Ok(Some(alice("x")))),
        Ok(StoreRequest::UpdateOne { filter: by_id(), change: UserChange::SetAdmin(false) })
    );
    assert_eq!(
        set_admin_found(&repo, &grant, Ok(None)),
        Err(AppError::NotFound("user not found".into()))
    );
    assert_eq!(set_admin_found(&repo, &grant, Err(down())), Err(down()));
    assert_eq!(set_admin_reply(&grant, Ok(())), plain(200, "successfully set user as admin"));
    assert_eq!(set_admin_reply(&withdraw, Ok(())), plain(200, "successfully set admin as user"));
    assert_eq!(set_admin_reply(&grant, Err(down())), Err(down()));
}

#[test]
fn shared_decisions_are_exact() {
    assert_eq!(acknowledge(Ok(()), 204, "done"), plain(204, "done"));
    assert_eq!(acknowledge(Err(down()), 204, "done"), Err(down()));
    assert_eq!(require_found(Ok(Some(alice("x"))), AppError::Internal), Ok(alice("x")));
    assert_eq!(require_found(Ok(None), AppError::NotFound("n".into())), Err(AppError::NotFound("n".into())));
    assert_eq!(require_found(Err(down()), AppError::Internal), Err(down()));
    assert_eq!(require_free(Ok(None)), Ok(()));
    assert_eq!(
        require_free(Ok(Some(alice("x")))),
        Err(AppError::Conflict("email already registered".into()))
    );
    assert_eq!(require_free(Err(down())), Err(down()));
    assert_eq!(
        new_user(id(), "a@b.c", "abc", Ok("digest".into()), true),
        Ok(User {
            id: id(),
            email: "a@b.c".into(),
            username: "abc".into(),
            password_hash: "digest".into(),
            is_admin: true,
            token_version: 0
        })
    );
    assert_eq!(new_user(id(), "a@b.c", "abc", Err(AppError::Internal), true), Err(AppError::Internal));
}

#[test]
fn health_reports_ok_and_the_time() {
    assert_eq!(health_check(T0), Health { status: "ok".into(), timestamp: T0 });
    assert_eq!(health_check(-1).timestamp, -1);
}
