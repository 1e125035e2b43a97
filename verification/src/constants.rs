//! Names, defaults and the messages that responses carry.

use vstd::prelude::*;

verus! {

pub const COLLECTION_USERS: &'static str = "users";

pub const FIELD_ID: &'static str = "_id";

pub const FIELD_EMAIL: &'static str = "email";

pub const FIELD_USERNAME: &'static str = "username";

pub const FIELD_PASSWORD_HASH: &'static str = "password_hash";

pub const FIELD_IS_ADMIN: &'static str = "is_admin";

pub const FIELD_TOKEN_VERSION: &'static str = "token_version";

pub const OPERATOR_SET: &'static str = "$set";

pub const OPERATOR_INCREMENT: &'static str = "$inc";

pub const DEFAULT_JWT_EXP_HOURS: i64 = 24;

pub const MIN_JWT_SECRET_LENGTH: usize = 32;

pub const SECONDS_PER_HOUR: i64 = 3600;

pub const STATUS_OK: u16 = 200;

pub const STATUS_CREATED: u16 = 201;

pub const HEALTH_OK: &'static str = "ok";

pub const DEFAULT_HOST: &'static str = "0.0.0.0";

pub const DEFAULT_PORT: u16 = 8080;

pub const BEARER_PREFIX: &'static str = "Bearer ";

pub const BLACKLIST_PREFIX: &'static str = "blacklist:";

pub const BLACKLIST_MARK: &'static str = "1";

pub const MIN_USERNAME_LENGTH: usize = 3;

pub const MAX_USERNAME_LENGTH: usize = 30;

pub const MIN_PASSWORD_LENGTH: usize = 8;

pub const REGISTER_SUCCESS: &'static str = "successfully registered";

pub const LOGIN_SUCCESS: &'static str = "successfully logged in";

pub const LOGOUT_SUCCESS: &'static str = "successfully logged out";

pub const TOKEN_BLACKLISTED: &'static str = "token has been blacklisted";

pub const PROFILE_FETCHED: &'static str = "successfully fetched user profile";

pub const EMAIL_UPDATED: &'static str = "successfully updated email";

pub const USERNAME_UPDATED: &'static str = "successfully updated username";

pub const PASSWORD_UPDATED: &'static str = "successfully updated password";

pub const USER_INFO_FETCHED: &'static str = "successfully fetched user info";

pub const USER_INFOS_FETCHED: &'static str = "successfully fetched user infos";

pub const USER_CREATED: &'static str = "successfully created user";

pub const USER_UPDATED: &'static str = "successfully updated user";

pub const USER_DELETED: &'static str = "successfully deleted user";

pub const USER_SET_AS_ADMIN: &'static str = "successfully set user as admin";

pub const ADMIN_SET_AS_USER: &'static str = "successfully set admin as user";

pub const EMAIL_ALREADY_EXISTS: &'static str = "email already registered";

pub const INVALID_CREDENTIALS: &'static str = "invalid username or password";

pub const INVALID_OLD_PASSWORD: &'static str = "invalid old password";

pub const USER_NOT_FOUND: &'static str = "user not found";

pub const AUTH_REQUIRED: &'static str = "authentication required";

pub const INVALID_USER_ID: &'static str = "invalid user id";

pub const PERMISSION_DENIED: &'static str = "permission denied";

pub const INTERNAL_SERVER_ERROR: &'static str = "internal server error";

pub const INVALID_EMAIL_FORMAT: &'static str = "invalid email format";

pub const USERNAME_LENGTH: &'static str = "username must be 3-30 characters";

pub const PASSWORD_LENGTH: &'static str = "password must be at least 8 characters";

pub const MONGO_URI: &'static str = "MONGO_URI";

pub const MONGO_DB: &'static str = "MONGO_DB";

pub const JWT_SECRET: &'static str = "JWT_SECRET";

pub const JWT_EXP_HOURS: &'static str = "JWT_EXP_HOURS";

pub const APP_HOST: &'static str = "APP_HOST";

pub const APP_PORT: &'static str = "APP_PORT";

pub const REDIS_URI: &'static str = "REDIS_URI";

pub const SSL_CERT_PATH: &'static str = "SSL_CERT_PATH";

pub const SSL_KEY_PATH: &'static str = "SSL_KEY_PATH";

} // verus!
