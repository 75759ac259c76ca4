//! Service configuration, read from the environment by the caller and
//! validated here.
//!
//! The transport layer collects the raw variable values; this module owns
//! what counts as a complete, well-formed configuration.  The sampling
//! interval in particular is what the accrual engine's duration clamp is
//! measured against, so it is parsed exactly rather than trusted.

use vstd::prelude::*;

use crate::errors::ApiError;
use crate::parse::parse_bool;
use crate::parse::parse_u64;
use crate::parse::spec_parse_bool;
use crate::parse::spec_parse_u64;

verus! {

/// The service's runtime settings.
#[derive(Clone, Debug)]
pub struct Config {
    /// Address the transport layer listens on.
    pub listen_address: String,
    /// Domain attribute of the session cookies.
    pub cookie_domain: String,
    /// Whether session cookies are issued for cross-site use.
    pub cookie_cross: bool,
    /// Connection string of the backing store.
    pub database_url: String,
    /// Sensor sampling interval in milliseconds.
    pub sensor_interval: u64,
}

/// Mathematical image of a configuration.
#[verifier::ext_equal]
pub ghost struct ConfigView {
    pub listen_address: Seq<char>,
    pub cookie_domain: Seq<char>,
    pub cookie_cross: bool,
    pub database_url: Seq<char>,
    pub sensor_interval: int,
}

impl View for Config {
    type V = ConfigView;

    open spec fn view(&self) -> ConfigView {
        ConfigView {
            listen_address: self.listen_address@,
            cookie_domain: self.cookie_domain@,
            cookie_cross: self.cookie_cross,
            database_url: self.database_url@,
            sensor_interval: self.sensor_interval as int,
        }
    }
}

/// View of an optionally present environment value.
pub open spec fn opt_text(o: Option<String>) -> Option<Seq<char>> {
    match o {
        Some(s) => Some(s@),
        None => None,
    }
}

/// The configuration a set of environment values denotes, if all five
/// variables are present and the boolean and the interval parse.
pub open spec fn config_of_env(
    listen_address: Option<Seq<char>>,
    cookie_domain: Option<Seq<char>>,
    cookie_cross: Option<Seq<char>>,
    database_url: Option<Seq<char>>,
    sensor_interval: Option<Seq<char>>,
) -> Option<ConfigView> {
    match (listen_address, cookie_domain, cookie_cross, database_url, sensor_interval) {
        (Some(la), Some(cd), Some(cc), Some(du), Some(si)) => match (
            spec_parse_bool(cc),
            spec_parse_u64(si),
        ) {
            (Some(cross), Some(interval)) => Some(
                ConfigView {
                    listen_address: la,
                    cookie_domain: cd,
                    cookie_cross: cross,
                    database_url: du,
                    sensor_interval: interval,
                },
            ),
            _ => None,
        },
        _ => None,
    }
}

impl Config {
    /// Validates the raw environment values: all five variables must be
    /// present, the cross-site flag must be `true` or `false`, and the
    /// sampling interval must be a decimal `u64`.  Anything else is
    /// rejected as malformed input.
    pub fn from_env(
        listen_address: Option<String>,
        cookie_domain: Option<String>,
        cookie_cross: Option<String>,
        database_url: Option<String>,
        sensor_interval: Option<String>,
    ) -> (r: Result<Config, ApiError>)
        ensures
            match r {
                Ok(c) => config_of_env(
                    opt_text(listen_address),
                    opt_text(cookie_domain),
                    opt_text(cookie_cross),
                    opt_text(database_url),
                    opt_text(sensor_interval),
                ) == Some(c@),
                Err(e) => config_of_env(
                    opt_text(listen_address),
                    opt_text(cookie_domain),
                    opt_text(cookie_cross),
                    opt_text(database_url),
                    opt_text(sensor_interval),
                ) is None && e == ApiError::InvalidInput,
            },
    {
        match (listen_address, cookie_domain, cookie_cross, database_url, sensor_interval) {
            (Some(la), Some(cd), Some(cc), Some(du), Some(si)) => {
                let cross = match parse_bool(cc.as_str()) {
                    Some(b) => b,
                    None => {
                        return Err(ApiError::InvalidInput);
                    },
                };
                let interval = match parse_u64(si.as_str()) {
                    Some(v) => v,
                    None => {
                        return Err(ApiError::InvalidInput);
                    },
                };
                Ok(
                    Config {
                        listen_address: la,
                        cookie_domain: cd,
                        cookie_cross: cross,
                        database_url: du,
                        sensor_interval: interval,
                    },
                )
            },
            _ => Err(ApiError::InvalidInput),
        }
    }
}

} // verus!
