//! The two parameters that every request needs, and how they are read from
//! the process environment.

use vstd::prelude::*;

verus! {

/// The environment variable that holds the appliance's API key.
pub const API_KEY_VARIABLE: &'static str = "UNIFI_API_KEY";

/// The environment variable that holds the appliance's host name or address.
pub const HOST_VARIABLE: &'static str = "UNIFI_VIDEO_HOST";

/// What the environment holds under one variable name.
#[derive(Debug, PartialEq, Eq)]
pub enum EnvValue {
    Missing,
    NotText,
    Text(String),
}

/// Why the configuration could not be built; each variant names the variable.
#[derive(Debug, PartialEq, Eq)]
pub enum ConfigError {
    MissingVariable(String),
    EncodingError(String),
}

/// Where the appliance is and the key that it accepts.
#[derive(Debug, PartialEq, Eq)]
pub struct Config {
    pub api_key: String,
    pub host: String,
}

/// Whether `e` is the error that the variable `name` gives when it holds `v`.
pub open spec fn error_for(e: ConfigError, name: Seq<char>, v: EnvValue) -> bool {
    match v {
        EnvValue::Missing => e matches ConfigError::MissingVariable(n) && n@ == name,
        EnvValue::NotText => e matches ConfigError::EncodingError(n) && n@ == name,
        EnvValue::Text(_) => false,
    }
}

/// The text of one variable, or the error that it gives.
fn read_variable(name: &str, v: EnvValue) -> (r: Result<String, ConfigError>)
    ensures
        v is Text ==> r == Ok::<String, ConfigError>(v->0),
        !(v is Text) ==> r is Err && error_for(r->Err_0, name@, v),
{
    match v {
        EnvValue::Missing => Err(ConfigError::MissingVariable(String::from_str(name))),
        EnvValue::NotText => Err(ConfigError::EncodingError(String::from_str(name))),
        EnvValue::Text(s) => Ok(s),
    }
}

impl Config {
    /// Builds the configuration from what the environment holds under
    /// `UNIFI_API_KEY` and `UNIFI_VIDEO_HOST`. The key is looked at first: an
    /// unusable key is reported even when the host is unusable too.
    pub fn new(api_key: EnvValue, host: EnvValue) -> (r: Result<Config, ConfigError>)
        ensures
            !(api_key is Text) ==> r is Err && error_for(r->Err_0, API_KEY_VARIABLE@, api_key),
            api_key is Text && !(host is Text) ==> r is Err && error_for(
                r->Err_0,
                HOST_VARIABLE@,
                host,
            ),
            api_key is Text && host is Text ==> r == Ok::<Config, ConfigError>(
                Config { api_key: api_key->0, host: host->0 },
            ),
    {
        let api_key = match read_variable(API_KEY_VARIABLE, api_key) {
            Ok(k) => k,
            Err(e) => return Err(e),
        };
        let host = match read_variable(HOST_VARIABLE, host) {
            Ok(h) => h,
            Err(e) => return Err(e),
        };
        Ok(Config { api_key, host })
    }
}

} // verus!
