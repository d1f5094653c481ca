use crate::config::app::{setting_or, text_or};
use crate::config::cors::{development, is_development};
use crate::trusted::text::{decimal_u32, decimal_u64, lowercase, parse_u32, parse_u64, to_lowercase};
use vstd::prelude::*;

verus! {

/// How the pool of connections to the database is set up.
#[derive(Debug)]
pub struct DatabaseConfig {
    pub url: String,
    pub environment: String,
    pub max_connections: u32,
    pub min_connections: u32,
    pub connect_timeout_secs: u64,
    pub idle_timeout_secs: u64,
    pub max_lifetime_secs: u64,
}

/// The settings of [`DatabaseConfig`] as the environment holds them: each
/// the text of one variable, `None` where the variable is not set.
#[derive(Debug)]
pub struct DatabaseVars {
    pub url: Option<String>,
    pub environment: Option<String>,
    pub max_connections: Option<String>,
    pub min_connections: Option<String>,
    pub connect_timeout_secs: Option<String>,
    pub idle_timeout_secs: Option<String>,
    pub max_lifetime_secs: Option<String>,
}

/// The number of a variable: what its text spells, or `fallback` where the
/// variable is not set or spells no number of 32 bits.
pub open spec fn count_or(text: Option<String>, fallback: u32) -> u32 {
    match text {
        Some(text) => match decimal_u32(text@) {
            Some(number) => number,
            None => fallback,
        },
        None => fallback,
    }
}

/// The number of a variable: what its text spells, or `fallback` where the
/// variable is not set or spells no number of 64 bits.
pub open spec fn seconds_or(text: Option<String>, fallback: u64) -> u64 {
    match text {
        Some(text) => match decimal_u64(text@) {
            Some(number) => number,
            None => fallback,
        },
        None => fallback,
    }
}

/// Reads a count from a variable.
pub fn count_setting(text: &Option<String>, fallback: u32) -> (count: u32)
    ensures
        count == count_or(*text, fallback),
{
    match text {
        Some(text) => match parse_u32(text.as_str()) {
            Some(number) => number,
            None => fallback,
        },
        None => fallback,
    }
}

/// Reads a number of seconds from a variable.
pub fn seconds_setting(text: &Option<String>, fallback: u64) -> (seconds: u64)
    ensures
        seconds == seconds_or(*text, fallback),
{
    match text {
        Some(text) => match parse_u64(text.as_str()) {
            Some(number) => number,
            None => fallback,
        },
        None => fallback,
    }
}

impl Default for DatabaseVars {
    /// The environment in which none of the variables is set.
    fn default() -> (vars: DatabaseVars)
        ensures
            vars.url is None,
            vars.environment is None,
            vars.max_connections is None,
            vars.min_connections is None,
            vars.connect_timeout_secs is None,
            vars.idle_timeout_secs is None,
            vars.max_lifetime_secs is None,
    {
        DatabaseVars {
            url: None,
            environment: None,
            max_connections: None,
            min_connections: None,
            connect_timeout_secs: None,
            idle_timeout_secs: None,
            max_lifetime_secs: None,
        }
    }
}

impl Clone for DatabaseConfig {
    fn clone(&self) -> (copy: DatabaseConfig)
        ensures
            copy.url@ == self.url@,
            copy.environment@ == self.environment@,
            copy.max_connections == self.max_connections,
            copy.min_connections == self.min_connections,
            copy.connect_timeout_secs == self.connect_timeout_secs,
            copy.idle_timeout_secs == self.idle_timeout_secs,
            copy.max_lifetime_secs == self.max_lifetime_secs,
    {
        DatabaseConfig {
            url: self.url.clone(),
            environment: self.environment.clone(),
            max_connections: self.max_connections,
            min_connections: self.min_connections,
            connect_timeout_secs: self.connect_timeout_secs,
            idle_timeout_secs: self.idle_timeout_secs,
            max_lifetime_secs: self.max_lifetime_secs,
        }
    }
}

impl DatabaseConfig {
    /// Whether the configuration `config` is what the variables `vars` give
    /// rise to. The environment is taken in lower case, `production` where
    /// it is not set. Each number comes from its variable; where that is not
    /// set or spells no number, a development set-up gets the roomier
    /// default and every other set-up the stricter one.
    pub open spec fn read_from(vars: DatabaseVars, config: DatabaseConfig) -> bool {
        let environment = lowercase(text_or(vars.environment, "production"@));
        let dev = is_development(environment);
        &&& vars.url matches Some(url)
        &&& config.url@ == url@
        &&& config.environment@ == environment
        &&& config.max_connections == count_or(
            vars.max_connections,
            if dev {
                10
            } else {
                20
            },
        )
        &&& config.min_connections == count_or(
            vars.min_connections,
            if dev {
                2
            } else {
                5
            },
        )
        &&& config.connect_timeout_secs == seconds_or(
            vars.connect_timeout_secs,
            if dev {
                10
            } else {
                5
            },
        )
        &&& config.idle_timeout_secs == seconds_or(
            vars.idle_timeout_secs,
            if dev {
                600
            } else {
                300
            },
        )
        &&& config.max_lifetime_secs == seconds_or(vars.max_lifetime_secs, 1800)
    }

    /// Makes the configuration from the variables of the environment. It
    /// fails where the address of the database is not set, and only there.
    pub fn from_env(vars: DatabaseVars) -> (result: Result<DatabaseConfig, String>)
        ensures
            match result {
                Ok(config) => Self::read_from(vars, config),
                Err(complaint) => vars.url is None && complaint@
                    == "DATABASE_URL environment variable is not set"@,
            },
    {
        let url = match vars.url {
            Some(url) => url,
            None => {
                return Err("DATABASE_URL environment variable is not set".to_string());
            },
        };
        let environment_text = setting_or(vars.environment, "production");
        let environment = to_lowercase(environment_text.as_str());
        let dev = development(environment.as_str());
        let max_connections = count_setting(&vars.max_connections, if dev { 10 } else { 20 });
        let min_connections = count_setting(&vars.min_connections, if dev { 2 } else { 5 });
        let connect_timeout_secs = seconds_setting(
            &vars.connect_timeout_secs,
            if dev { 10 } else { 5 },
        );
        let idle_timeout_secs = seconds_setting(
            &vars.idle_timeout_secs,
            if dev { 600 } else { 300 },
        );
        let max_lifetime_secs = seconds_setting(&vars.max_lifetime_secs, 1800);
        Ok(
            DatabaseConfig {
                url,
                environment,
                max_connections,
                min_connections,
                connect_timeout_secs,
                idle_timeout_secs,
                max_lifetime_secs,
            },
        )
    }

    /// Whether the statements sent to the database are logged: in a
    /// development set-up only.
    pub fn statement_logging(&self) -> (logged: bool)
        ensures
            logged == is_development(self.environment@),
    {
        development(self.environment.as_str())
    }
}

} // verus!
