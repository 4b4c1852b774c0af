use crate::error::ApiError;
use crate::json::JsonDoc;
use vstd::prelude::*;

verus! {

/// Default seconds to wait between two poll attempts.
pub const DEFAULT_CHECK_INTERVAL: u64 = 5;

/// Default bound on fetch-after-creation attempts in a poll loop.
pub const DEFAULT_MAX_ATTEMPTS: u32 = 6;

/// Polling settings, loaded once and shared read-only by both phases.
#[derive(Clone, Copy, PartialEq, Eq, Structural, Debug)]
pub struct PaymentSettings {
    /// Seconds to wait between two poll attempts.
    pub check_interval: u64,
    /// Bound on fetch-after-creation attempts in one poll loop.
    pub max_attempts: u32,
}

impl PaymentSettings {
    /// Effective settings when the configuration gives none.
    pub fn defaults() -> (r: PaymentSettings)
        ensures
            r.check_interval == DEFAULT_CHECK_INTERVAL,
            r.max_attempts == DEFAULT_MAX_ATTEMPTS,
    {
        PaymentSettings { check_interval: DEFAULT_CHECK_INTERVAL, max_attempts: DEFAULT_MAX_ATTEMPTS }
    }

    /// Builds effective settings from a partial configuration: each field
    /// that the configuration does not give falls back to its default.
    pub fn from_partial(check_interval: Option<u64>, max_attempts: Option<u32>) -> (r: PaymentSettings)
        ensures
            r.check_interval == (match check_interval {
                Some(v) => v,
                None => DEFAULT_CHECK_INTERVAL,
            }),
            r.max_attempts == (match max_attempts {
                Some(v) => v,
                None => DEFAULT_MAX_ATTEMPTS,
            }),
    {
        let ci: u64 = match check_interval {
            Some(v) => v,
            None => DEFAULT_CHECK_INTERVAL,
        };
        let ma: u32 = match max_attempts {
            Some(v) => v,
            None => DEFAULT_MAX_ATTEMPTS,
        };
        PaymentSettings { check_interval: ci, max_attempts: ma }
    }

    /// Reads the effective settings out of a whole configuration
    /// document; an ill-typed `payment_settings` entry is a
    /// configuration error.
    pub fn of_config_doc(cfg: &JsonDoc) -> (r: Result<PaymentSettings, ApiError>)
        ensures
            match spec_effective_settings(*cfg) {
                Some(s) => r == Ok::<PaymentSettings, ApiError>(s),
                None => r matches Err(ApiError::Config(_)),
            },
    {
        let ps: &JsonDoc = match cfg.get("payment_settings") {
            None => {
                return Ok(PaymentSettings::defaults());
            },
            Some(d) => d,
        };
        match ps {
            JsonDoc::Null => Ok(PaymentSettings::defaults()),
            JsonDoc::Obj(_) => {
                let ci: u64 = match ps.get("check_interval") {
                    None => DEFAULT_CHECK_INTERVAL,
                    Some(d) => match d {
                        JsonDoc::Int(v) => {
                            if *v >= 0 {
                                *v as u64
                            } else {
                                return Err(config_error("payment_settings.check_interval"));
                            }
                        },
                        _ => {
                            return Err(config_error("payment_settings.check_interval"));
                        },
                    },
                };
                let ma: u32 = match ps.get("max_attempts") {
                    None => DEFAULT_MAX_ATTEMPTS,
                    Some(d) => match d {
                        JsonDoc::Int(v) => {
                            if *v >= 0 && *v <= u32::MAX as i64 {
                                *v as u32
                            } else {
                                return Err(config_error("payment_settings.max_attempts"));
                            }
                        },
                        _ => {
                            return Err(config_error("payment_settings.max_attempts"));
                        },
                    },
                };
                Ok(PaymentSettings { check_interval: ci, max_attempts: ma })
            },
            _ => Err(config_error("payment_settings")),
        }
    }
}

/// The settings used when the configuration gives none.
pub open spec fn spec_default_settings() -> PaymentSettings {
    PaymentSettings { check_interval: DEFAULT_CHECK_INTERVAL, max_attempts: DEFAULT_MAX_ATTEMPTS }
}

/// The `u64`-valued setting under `key` of a settings object: its
/// default when absent, no value at all when ill-typed or negative.
pub open spec fn spec_u64_setting(ps: JsonDoc, key: Seq<char>, default: u64) -> Option<u64> {
    match ps.spec_get(key) {
        None => Some(default),
        Some(JsonDoc::Int(v)) => if v >= 0 {
            Some(v as u64)
        } else {
            None
        },
        Some(_) => None,
    }
}

/// The `u32`-valued setting under `key` of a settings object: its
/// default when absent, no value at all when ill-typed or out of range.
pub open spec fn spec_u32_setting(ps: JsonDoc, key: Seq<char>, default: u32) -> Option<u32> {
    match ps.spec_get(key) {
        None => Some(default),
        Some(JsonDoc::Int(v)) => if 0 <= v <= u32::MAX {
            Some(v as u32)
        } else {
            None
        },
        Some(_) => None,
    }
}

/// The effective settings of a configuration document: a missing or
/// null `payment_settings` entry falls back to the defaults whole, a
/// partial object field by field; an ill-typed entry or field gives no
/// settings at all.
pub open spec fn spec_effective_settings(cfg: JsonDoc) -> Option<PaymentSettings> {
    match cfg.spec_get("payment_settings"@) {
        None => Some(spec_default_settings()),
        Some(JsonDoc::Null) => Some(spec_default_settings()),
        Some(ps) => if ps is Obj {
            match (
                spec_u64_setting(ps, "check_interval"@, DEFAULT_CHECK_INTERVAL),
                spec_u32_setting(ps, "max_attempts"@, DEFAULT_MAX_ATTEMPTS),
            ) {
                (Some(ci), Some(ma)) => Some(
                    PaymentSettings { check_interval: ci, max_attempts: ma },
                ),
                _ => None,
            }
        } else {
            None
        },
    }
}

/// Reads the API secret out of the configuration document; a missing or
/// non-string key is a configuration error.
pub fn config_api_key(cfg: &JsonDoc) -> (r: Result<String, ApiError>)
    ensures
        match cfg.spec_get("stripe_api_key"@) {
            Some(JsonDoc::Str(s)) => r matches Ok(k) && k@ == s@,
            _ => r matches Err(ApiError::Config(_)),
        },
{
    match cfg.get("stripe_api_key") {
        Some(d) => match d {
            JsonDoc::Str(s) => Ok(s.clone()),
            _ => Err(config_error("stripe_api_key")),
        },
        None => Err(config_error("stripe_api_key")),
    }
}

/// The error an ill-typed or missing configuration field reports,
/// naming the field so that the failure can be diagnosed without
/// rereading the file.
fn config_error(field: &str) -> (r: ApiError)
    ensures
        r matches ApiError::Config(m) && m@ == "missing or invalid configuration field: "@
            + field@,
{
    let mut s = String::from_str("missing or invalid configuration field: ");
    s.append(field);
    ApiError::Config(s)
}

} // verus!
