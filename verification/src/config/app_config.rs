//! The settings of the service, checked once before any request is served.

use crate::constants::{
    APP_PORT, DEFAULT_HOST, DEFAULT_JWT_EXP_HOURS, DEFAULT_PORT, JWT_EXP_HOURS, JWT_SECRET,
    MIN_JWT_SECRET_LENGTH, MONGO_DB, MONGO_URI, REDIS_URI,
};
use vstd::prelude::*;
use vstd::string::StringExecFns;
use vstd::utf8::encode_utf8;

verus! {

/// The settings of the service. They are read once and never change.
#[derive(Debug, Clone, PartialEq, Eq)]
pub struct AppConfig {
    pub mongo_uri: String,
    pub mongo_db: String,
    pub redis_uri: String,
    /// The secret with which tokens are signed and checked.
    pub jwt_secret: String,
    /// For how many hours an issued token is valid.
    pub jwt_exp_hours: i64,
    pub host: String,
    pub port: u16,
    pub ssl_cert_path: Option<String>,
    pub ssl_key_path: Option<String>,
}

/// What the process environment holds under the names the service reads,
/// and whether the two certificate files are there.
#[derive(Debug, Clone, PartialEq, Eq)]
pub struct Environment {
    pub jwt_secret: Option<String>,
    pub mongo_uri: Option<String>,
    pub mongo_db: Option<String>,
    pub redis_uri: Option<String>,
    pub jwt_exp_hours: Option<String>,
    pub app_host: Option<String>,
    pub app_port: Option<String>,
    pub ssl_cert_path: Option<String>,
    pub ssl_key_path: Option<String>,
    /// Whether a file exists at `ssl_cert_path`.
    pub ssl_cert_exists: bool,
    /// Whether a file exists at `ssl_key_path`.
    pub ssl_key_exists: bool,
}

/// What `str::parse::<i64>` makes of a text.
pub uninterp spec fn parsed_i64(text: Seq<char>) -> Option<i64>;

/// What `str::parse::<u16>` makes of a text.
pub uninterp spec fn parsed_u16(text: Seq<char>) -> Option<u16>;

/// `str::parse::<i64>`: the number that the text is the decimal form of,
/// where it is one that an `i64` holds.
#[verifier::external_body]
fn parse_i64(text: &str) -> (r: Option<i64>)
    ensures
        r == parsed_i64(text@),
{
    text.parse::<i64>().ok()
}

/// `str::parse::<u16>`: the number that the text is the decimal form of,
/// where it is one that a `u16` holds.
#[verifier::external_body]
fn parse_u16(text: &str) -> (r: Option<u16>)
    ensures
        r == parsed_u16(text@),
{
    text.parse::<u16>().ok()
}

/// The number of bytes that a text takes in UTF-8.
pub open spec fn byte_len(text: Seq<char>) -> nat {
    encode_utf8(text).len()
}

/// The view of an optional text.
pub open spec fn text_of(value: Option<String>) -> Option<Seq<char>> {
    match value {
        Some(s) => Some(s@),
        None => None,
    }
}

/// The token lifetime that an environment asks for: the configured number
/// where there is one, else the default.
pub open spec fn lifetime_of(env: Environment) -> Option<i64> {
    match env.jwt_exp_hours {
        Some(text) => parsed_i64(text@),
        None => Some(DEFAULT_JWT_EXP_HOURS),
    }
}

/// The port that an environment asks for: the configured number where
/// there is one, else the default.
pub open spec fn port_of(env: Environment) -> Option<u16> {
    match env.app_port {
        Some(text) => parsed_u16(text@),
        None => Some(DEFAULT_PORT),
    }
}

/// Why an environment is refused, if it is: the first of the checks, in
/// this order, that it fails.
pub open spec fn refusal(env: Environment, hours: Option<i64>, port: Option<u16>) -> Option<
    Seq<char>,
> {
    if env.jwt_secret is None {
        Some(JWT_SECRET@ + " is required"@)
    } else if byte_len(env.jwt_secret->0@) < MIN_JWT_SECRET_LENGTH {
        Some(JWT_SECRET@ + " must be at least 32 characters"@)
    } else if env.mongo_uri is None {
        Some(MONGO_URI@ + " is required"@)
    } else if env.mongo_db is None {
        Some(MONGO_DB@ + " is required"@)
    } else if env.redis_uri is None {
        Some(REDIS_URI@ + " is required"@)
    } else if hours is None {
        Some(JWT_EXP_HOURS@ + " must be a valid number"@)
    } else if hours->0 <= 0 {
        Some(JWT_EXP_HOURS@ + " must be positive"@)
    } else if port is None {
        Some(APP_PORT@ + " must be a valid port number"@)
    } else if env.ssl_cert_path is Some && !env.ssl_cert_exists {
        Some("SSL certificate file not found: "@ + env.ssl_cert_path->0@)
    } else if env.ssl_key_path is Some && !env.ssl_key_exists {
        Some("SSL key file not found: "@ + env.ssl_key_path->0@)
    } else {
        None
    }
}

impl AppConfig {
    /// Whether these settings are ones that `from_env` can have made.
    pub open spec fn well_formed(&self) -> bool {
        &&& byte_len(self.jwt_secret@) >= MIN_JWT_SECRET_LENGTH
        &&& self.jwt_exp_hours > 0
    }

    /// Whether these settings are the ones that `env` asks for.
    pub open spec fn taken_from(&self, env: Environment, hours: i64, port: u16) -> bool {
        &&& Some(self.jwt_secret@) == text_of(env.jwt_secret)
        &&& Some(self.mongo_uri@) == text_of(env.mongo_uri)
        &&& Some(self.mongo_db@) == text_of(env.mongo_db)
        &&& Some(self.redis_uri@) == text_of(env.redis_uri)
        &&& self.jwt_exp_hours == hours
        &&& self.host@ == (match env.app_host {
            Some(h) => h@,
            None => DEFAULT_HOST@,
        })
        &&& self.port == port
        &&& text_of(self.ssl_cert_path) == text_of(env.ssl_cert_path)
        &&& text_of(self.ssl_key_path) == text_of(env.ssl_key_path)
    }

    /// The settings that an environment asks for, or the reason for which
    /// it is refused.
    pub fn from_env(env: &Environment) -> (r: Result<AppConfig, String>)
        ensures
            r is Ok <==> refusal(*env, lifetime_of(*env), port_of(*env)) is None,
            r matches Ok(cfg) ==> cfg.taken_from(*env, lifetime_of(*env)->0, port_of(*env)->0),
            r matches Ok(cfg) ==> cfg.well_formed(),
            r matches Err(reason) ==> refusal(*env, lifetime_of(*env), port_of(*env)) == Some(
                reason@,
            ),
    {
        let hours = match &env.jwt_exp_hours {
            Some(text) => parse_i64(text.as_str()),
            None => Some(DEFAULT_JWT_EXP_HOURS),
        };
        let port = match &env.app_port {
            Some(text) => parse_u16(text.as_str()),
            None => Some(DEFAULT_PORT),
        };
        AppConfig::from_parsed(env, hours, port)
    }

    /// The settings that an environment asks for, given what its two
    /// numbers were read as.
    pub fn from_parsed(env: &Environment, hours: Option<i64>, port: Option<u16>) -> (r: Result<
        AppConfig,
        String,
    >)
        ensures
            r is Ok <==> refusal(*env, hours, port) is None,
            r matches Ok(cfg) ==> cfg.taken_from(*env, hours->0, port->0),
            r matches Ok(cfg) ==> cfg.well_formed(),
            r matches Err(reason) ==> refusal(*env, hours, port) == Some(reason@),
    {
        let jwt_secret = match &env.jwt_secret {
            Some(s) => s.clone(),
            None => {
                return Err(JWT_SECRET.to_owned().concat(" is required"));
            },
        };
        if jwt_secret.as_str().as_bytes().len() < MIN_JWT_SECRET_LENGTH {
            return Err(JWT_SECRET.to_owned().concat(" must be at least 32 characters"));
        }
        let mongo_uri = match &env.mongo_uri {
            Some(s) => s.clone(),
            None => {
                return Err(MONGO_URI.to_owned().concat(" is required"));
            },
        };
        let mongo_db = match &env.mongo_db {
            Some(s) => s.clone(),
            None => {
                return Err(MONGO_DB.to_owned().concat(" is required"));
            },
        };
        let redis_uri = match &env.redis_uri {
            Some(s) => s.clone(),
            None => {
                return Err(REDIS_URI.to_owned().concat(" is required"));
            },
        };
        let jwt_exp_hours = match hours {
            Some(h) => h,
            None => {
                return Err(JWT_EXP_HOURS.to_owned().concat(" must be a valid number"));
            },
        };
        if jwt_exp_hours <= 0 {
            return Err(JWT_EXP_HOURS.to_owned().concat(" must be positive"));
        }
        let host = match &env.app_host {
            Some(h) => h.clone(),
            None => DEFAULT_HOST.to_owned(),
        };
        let port = match port {
            Some(p) => p,
            None => {
                return Err(APP_PORT.to_owned().concat(" must be a valid port number"));
            },
        };
        let ssl_cert_path = match &env.ssl_cert_path {
            Some(path) => {
                if !env.ssl_cert_exists {
                    return Err(
                        "SSL certificate file not found: ".to_owned().concat(path.as_str()),
                    );
                }
                Some(path.clone())
            },
            None => None,
        };
        let ssl_key_path = match &env.ssl_key_path {
            Some(path) => {
                if !env.ssl_key_exists {
                    return Err("SSL key file not found: ".to_owned().concat(path.as_str()));
                }
                Some(path.clone())
            },
            None => None,
        };
        Ok(
            AppConfig {
                mongo_uri,
                mongo_db,
                redis_uri,
                jwt_secret,
                jwt_exp_hours,
                host,
                port,
                ssl_cert_path,
                ssl_key_path,
            },
        )
    }
}

} // verus!
