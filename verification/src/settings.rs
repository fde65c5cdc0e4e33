//! The configuration surface consumed by the core, with its fixed
//! defaults: where the store lives, the per-category expirations, the
//! producer-side queue cap, and the endpoint settings of the upload
//! service.

use vstd::prelude::*;

verus! {

/// Result artifacts expire after ten minutes by default.
pub const RESULT_EXPIRATION_SECONDS: u32 = 10 * 60;

/// Uploaded images expire after ten minutes by default.
pub const IMAGE_EXPIRATION_SECONDS: u32 = 10 * 60;

/// Upload sessions expire after thirty minutes by default.
pub const SESSION_TTL_SECONDS: u32 = 30 * 60;

/// The producer trims the submission queue to roughly this many entries.
pub const FABSEAL_SUBMISSION_QUEUE_LIMIT: u32 = 50;

/// How to reach the shared store.
#[derive(Clone, Debug)]
pub struct RedisSettings {
    pub address: String,
    pub db_id: Option<i64>,
    pub password: Option<String>,
}

impl Default for RedisSettings {
    /// The local store on its usual port, no database index, no password.
    fn default() -> (s: Self)
        ensures
            s.address@ == "127.0.0.1:6379"@,
            s.db_id is None,
            s.password is None,
    {
        RedisSettings {
            address: String::from_str("127.0.0.1:6379"),
            db_id: None,
            password: None,
        }
    }
}

/// The limits and expirations of the pipeline.
#[derive(Copy, Clone, Debug, PartialEq, Eq, Structural)]
pub struct Limits {
    pub queue_limit: u32,
    pub image_ttl: u32,
    pub result_ttl: u32,
    pub session_ttl: u32,
}

impl Default for Limits {
    /// The fixed default limits.
    fn default() -> (s: Self)
        ensures
            s.queue_limit == FABSEAL_SUBMISSION_QUEUE_LIMIT,
            s.image_ttl == IMAGE_EXPIRATION_SECONDS,
            s.result_ttl == RESULT_EXPIRATION_SECONDS,
            s.session_ttl == SESSION_TTL_SECONDS,
    {
        Limits {
            queue_limit: FABSEAL_SUBMISSION_QUEUE_LIMIT,
            image_ttl: IMAGE_EXPIRATION_SECONDS,
            result_ttl: RESULT_EXPIRATION_SECONDS,
            session_ttl: SESSION_TTL_SECONDS,
        }
    }
}

/// Where the upload service listens, and its cookie domain if any.
#[derive(Clone, Debug)]
pub struct HttpSettings {
    pub endpoint: String,
    pub cookie_domain: Option<String>,
}

impl Default for HttpSettings {
    /// The local endpoint on its usual port, no cookie domain.
    fn default() -> (s: Self)
        ensures
            s.endpoint@ == "127.0.0.1:8080"@,
            s.cookie_domain is None,
    {
        HttpSettings { endpoint: String::from_str("127.0.0.1:8080"), cookie_domain: None }
    }
}

} // verus!
