use crate::trusted::text::{decimal_i64, decimal_u16, lowercase, parse_i64, parse_u16, to_lowercase};
use vstd::prelude::*;

verus! {

/// How the server is set up.
#[derive(Debug)]
pub struct Config {
    pub jwt_secret: String,
    pub jwt_expiration_minutes: i64,
    pub server_host: String,
    pub server_port: u16,
    pub environment: String,
    pub frontend_url: Option<String>,
}

/// The settings of [`Config`] as the environment holds them: each the text
/// of one variable, `None` where the variable is not set.
#[derive(Debug)]
pub struct ConfigVars {
    pub bearer_token: Option<String>,
    pub jwt_expiration_minutes: Option<String>,
    pub server_host: Option<String>,
    pub server_port: Option<String>,
    pub environment: Option<String>,
    pub frontend_url: Option<String>,
}

/// The characters of a text that may be missing.
pub open spec fn optional_text(text: Option<String>) -> Option<Seq<char>> {
    match text {
        Some(text) => Some(text@),
        None => None,
    }
}

/// The text of a variable, or `fallback` where the variable is not set.
pub open spec fn text_or(text: Option<String>, fallback: Seq<char>) -> Seq<char> {
    match text {
        Some(text) => text@,
        None => fallback,
    }
}

/// The text of a variable, or `fallback` where the variable is not set.
pub fn setting_or(text: Option<String>, fallback: &str) -> (setting: String)
    ensures
        setting@ == text_or(text, fallback@),
{
    match text {
        Some(text) => text,
        None => fallback.to_string(),
    }
}

impl Default for ConfigVars {
    /// The environment in which none of the variables is set.
    fn default() -> (vars: ConfigVars)
        ensures
            vars.bearer_token is None,
            vars.jwt_expiration_minutes is None,
            vars.server_host is None,
            vars.server_port is None,
            vars.environment is None,
            vars.frontend_url is None,
    {
        ConfigVars {
            bearer_token: None,
            jwt_expiration_minutes: None,
            server_host: None,
            server_port: None,
            environment: None,
            frontend_url: None,
        }
    }
}

impl Clone for Config {
    fn clone(&self) -> (copy: Config)
        ensures
            copy.jwt_secret@ == self.jwt_secret@,
            copy.jwt_expiration_minutes == self.jwt_expiration_minutes,
            copy.server_host@ == self.server_host@,
            copy.server_port == self.server_port,
            copy.environment@ == self.environment@,
            optional_text(copy.frontend_url) == optional_text(self.frontend_url),
    {
        Config {
            jwt_secret: self.jwt_secret.clone(),
            jwt_expiration_minutes: self.jwt_expiration_minutes,
            server_host: self.server_host.clone(),
            server_port: self.server_port,
            environment: self.environment.clone(),
            frontend_url: match &self.frontend_url {
                Some(url) => Some(url.clone()),
                None => None,
            },
        }
    }
}

impl Config {
    /// Whether the configuration `config` is what the variables `vars` give
    /// rise to: each setting from its variable, or its default where the
    /// variable is not set; the environment in lower case.
    pub open spec fn read_from(vars: ConfigVars, config: Config) -> bool {
        &&& config.jwt_secret@ == text_or(
            vars.bearer_token,
            "your-secret-key-change-in-production"@,
        )
        &&& Some(config.jwt_expiration_minutes) == decimal_i64(
            text_or(vars.jwt_expiration_minutes, "10"@),
        )
        &&& config.server_host@ == text_or(vars.server_host, "0.0.0.0"@)
        &&& Some(config.server_port) == decimal_u16(text_or(vars.server_port, "8070"@))
        &&& config.environment@ == lowercase(text_or(vars.environment, "production"@))
        &&& optional_text(config.frontend_url) == optional_text(vars.frontend_url)
    }

    /// Makes the configuration from the variables of the environment. It
    /// fails where the minutes of a token's life or the port are set to a
    /// text that is no number of their kind, the minutes first.
    pub fn from_env(vars: ConfigVars) -> (result: Result<Config, String>)
        ensures
            match result {
                Ok(config) => Self::read_from(vars, config),
                Err(complaint) => if decimal_i64(text_or(vars.jwt_expiration_minutes, "10"@))
                    is None {
                    complaint@ == "JWT_EXPIRATION_MINUTES must be a valid number"@
                } else {
                    decimal_u16(text_or(vars.server_port, "8070"@)) is None && complaint@
                        == "SERVER_PORT must be a valid number"@
                },
            },
    {
        let jwt_secret = setting_or(vars.bearer_token, "your-secret-key-change-in-production");
        let minutes_text = setting_or(vars.jwt_expiration_minutes, "10");
        let jwt_expiration_minutes = match parse_i64(minutes_text.as_str()) {
            Some(minutes) => minutes,
            None => {
                return Err("JWT_EXPIRATION_MINUTES must be a valid number".to_string());
            },
        };
        let server_host = setting_or(vars.server_host, "0.0.0.0");
        let port_text = setting_or(vars.server_port, "8070");
        let server_port = match parse_u16(port_text.as_str()) {
            Some(port) => port,
            None => {
                return Err("SERVER_PORT must be a valid number".to_string());
            },
        };
        let environment_text = setting_or(vars.environment, "production");
        let environment = to_lowercase(environment_text.as_str());
        Ok(
            Config {
                jwt_secret,
                jwt_expiration_minutes,
                server_host,
                server_port,
                environment,
                frontend_url: vars.frontend_url,
            },
        )
    }
}

} // verus!
