//! Configuration of the authentication core, resolved once at startup
//! and passed in, never read ad hoc mid-flow. The signing secret is
//! required: startup fails without it, it never falls back to a
//! compiled-in constant. TTLs fall back to their documented defaults
//! when absent or unusable.

use vstd::prelude::*;

use crate::session::SessionMode;
use crate::text::{dec_val, is_dec_string, parse_u64};

verus! {

use vstd::string::StringExecFns;

/// Default lifetime of an access token, in minutes.
pub const DEFAULT_ACCESS_TTL_MINUTES: u64 = 15;

/// Default lifetime of a refresh token, in days.
pub const DEFAULT_REFRESH_TTL_DAYS: u64 = 7;

/// Upper bound accepted for the access-token lifetime: a leap year of
/// minutes. Keeps expiry arithmetic far from overflow.
pub const MAX_ACCESS_TTL_MINUTES: u64 = 527040;

/// Upper bound accepted for the refresh-token lifetime, in days: ten
/// years. Keeps expiry arithmetic far from overflow.
pub const MAX_REFRESH_TTL_DAYS: u64 = 3653;

/// Why configuration could not be resolved.
#[derive(Debug, Clone, Copy, PartialEq, Eq, Structural)]
pub enum ConfigError {
    /// The signing secret is absent or empty. Startup must fail rather
    /// than fall back to any built-in value.
    MissingSecret,
}

/// The resolved configuration the flows consume.
#[derive(Debug)]
pub struct AuthConfig {
    pub jwt_secret: String,
    pub access_ttl_minutes: u64,
    pub refresh_ttl_days: u64,
    pub session_mode: SessionMode,
}

impl AuthConfig {
    /// Resolved configuration is well formed: a non-empty secret and
    /// in-range, non-zero lifetimes.
    pub open spec fn wf(self) -> bool {
        &&& self.jwt_secret@.len() >= 1
        &&& 1 <= self.access_ttl_minutes <= MAX_ACCESS_TTL_MINUTES
        &&& 1 <= self.refresh_ttl_days <= MAX_REFRESH_TTL_DAYS
    }
}

/// How a raw lifetime setting resolves: absent, non-numeric, zero or
/// out-of-range values (a zero lifetime would break the invariant that
/// expiry is strictly after issuance) fall back to the default.
pub open spec fn resolved_ttl(raw: Option<String>, default: u64, max: u64) -> u64 {
    match raw {
        Option::None => default,
        Option::Some(s) => if is_dec_string(s@) && 1 <= dec_val(s@) <= max {
            dec_val(s@) as u64
        } else {
            default
        },
    }
}

/// How the raw session-mode setting resolves: the stateful marker
/// selects stateful tracking, anything else (including absence) is
/// stateless.
pub open spec fn resolved_mode(raw: Option<String>) -> SessionMode {
    match raw {
        Option::Some(s) => if s@ == "jwt_server_stateful"@ {
            SessionMode::Stateful
        } else {
            SessionMode::Stateless
        },
        Option::None => SessionMode::Stateless,
    }
}

/// Resolves one raw lifetime setting.
fn resolve_ttl(raw: &Option<String>, default: u64, max: u64) -> (r: u64)
    requires
        1 <= default <= max,
    ensures
        r == resolved_ttl(*raw, default, max),
        1 <= r <= max,
{
    match raw {
        Option::None => default,
        Option::Some(s) => {
            match parse_u64(s.as_str()) {
                Option::Some(v) => {
                    if 1 <= v && v <= max {
                        v
                    } else {
                        default
                    }
                },
                Option::None => default,
            }
        },
    }
}

/// Builds the configuration from raw, already-read setting values.
/// Fails if and only if the secret is absent or empty; lifetimes and
/// session mode resolve as [`resolved_ttl`] and [`resolved_mode`] say.
pub fn resolve_config(
    secret: Option<String>,
    access_ttl_raw: Option<String>,
    refresh_ttl_raw: Option<String>,
    session_mode_raw: Option<String>,
) -> (r: Result<AuthConfig, ConfigError>)
    ensures
        r is Ok <==> (secret is Some && secret->0@.len() >= 1),
        r is Err ==> r->Err_0 == ConfigError::MissingSecret,
        r is Ok ==> r->Ok_0 == (AuthConfig {
            jwt_secret: secret->0,
            access_ttl_minutes: resolved_ttl(
                access_ttl_raw,
                DEFAULT_ACCESS_TTL_MINUTES,
                MAX_ACCESS_TTL_MINUTES,
            ),
            refresh_ttl_days: resolved_ttl(
                refresh_ttl_raw,
                DEFAULT_REFRESH_TTL_DAYS,
                MAX_REFRESH_TTL_DAYS,
            ),
            session_mode: resolved_mode(session_mode_raw),
        }),
        r is Ok ==> r->Ok_0.wf(),
{
    let jwt_secret = match secret {
        Option::Some(s) => {
            if s.as_str().unicode_len() == 0 {
                return Err(ConfigError::MissingSecret);
            }
            s
        },
        Option::None => {
            return Err(ConfigError::MissingSecret);
        },
    };
    let access_ttl_minutes = resolve_ttl(
        &access_ttl_raw,
        DEFAULT_ACCESS_TTL_MINUTES,
        MAX_ACCESS_TTL_MINUTES,
    );
    let refresh_ttl_days = resolve_ttl(
        &refresh_ttl_raw,
        DEFAULT_REFRESH_TTL_DAYS,
        MAX_REFRESH_TTL_DAYS,
    );
    let session_mode = match &session_mode_raw {
        Option::Some(s) => {
            if *s == String::from_str("jwt_server_stateful") {
                SessionMode::Stateful
            } else {
                SessionMode::Stateless
            }
        },
        Option::None => SessionMode::Stateless,
    };
    Ok(AuthConfig { jwt_secret, access_ttl_minutes, refresh_ttl_days, session_mode })
}

} // verus!
