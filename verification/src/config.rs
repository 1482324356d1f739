//! The settings of the service, read from the variables of its environment.

use crate::text::{parse_unsigned, parsed_unsigned, same_text};
use vstd::prelude::*;
use vstd::string::*;

verus! {

/// The settings of the service.
#[derive(Debug, Clone, PartialEq, Eq)]
pub struct Config {
    pub port: u16,
    pub log_level: String,
    pub bluesky_api_url: String,
    pub request_timeout_seconds: u64,
    pub poll_enabled: bool,
    /// The first interval between two polls, in seconds.
    pub poll_initial_interval: u64,
    /// The longest interval between two polls, in seconds.
    pub poll_max_interval: u64,
    /// The age of its last post, in seconds, from which a thread is stale.
    pub poll_disable_after: u64,
    /// The public address of the service.
    pub public_url: String,
}

/// The value of a `Config`.
pub struct ConfigModel {
    pub port: u16,
    pub log_level: Seq<char>,
    pub bluesky_api_url: Seq<char>,
    pub request_timeout_seconds: u64,
    pub poll_enabled: bool,
    pub poll_initial_interval: u64,
    pub poll_max_interval: u64,
    pub poll_disable_after: u64,
    pub public_url: Seq<char>,
}

impl View for Config {
    type V = ConfigModel;

    open spec fn view(&self) -> ConfigModel {
        ConfigModel {
            port: self.port,
            log_level: self.log_level@,
            bluesky_api_url: self.bluesky_api_url@,
            request_timeout_seconds: self.request_timeout_seconds,
            poll_enabled: self.poll_enabled,
            poll_initial_interval: self.poll_initial_interval,
            poll_max_interval: self.poll_max_interval,
            poll_disable_after: self.poll_disable_after,
            public_url: self.public_url@,
        }
    }
}

/// A variable whose value cannot be read as what it stands for.
#[derive(Debug, Clone, PartialEq, Eq)]
pub enum ConfigError {
    /// The name of the variable, and its value.
    InvalidEnvVar(&'static str, String),
}

impl ConfigError {
    /// The name of the variable.
    pub open spec fn name(self) -> Seq<char> {
        match self {
            ConfigError::InvalidEnvVar(name, _) => name@,
        }
    }

    /// The value that could not be read.
    pub open spec fn value(self) -> Seq<char> {
        match self {
            ConfigError::InvalidEnvVar(_, value) => value@,
        }
    }

    /// The sentence that describes the error.
    pub fn to_string(&self) -> (r: String)
        ensures
            r@ == "invalid "@ + self.name() + " value: "@ + self.value(),
    {
        match self {
            ConfigError::InvalidEnvVar(name, value) => {
                let mut r = String::from_str("invalid ");
                r.append(name);
                r.append(" value: ");
                r.append(value.as_str());
                r
            },
        }
    }
}

/// The lower-case form of a text, as the standard library gives it.
pub uninterp spec fn lowercase_of(text: Seq<char>) -> Seq<char>;

/// Lower-cases with `str::to_lowercase`.
#[verifier::external_body]
fn to_lowercase(text: &str) -> (r: String)
    ensures
        r@ == lowercase_of(text@),
{
    text.to_lowercase()
}

/// The names and values of the variables of an environment.
pub open spec fn variables(vars: Seq<(String, String)>) -> Seq<(Seq<char>, Seq<char>)> {
    vars.map_values(|v: (String, String)| (v.0@, v.1@))
}

/// The value of the first variable called `name`.
pub open spec fn value_of(vars: Seq<(Seq<char>, Seq<char>)>, name: Seq<char>) -> Option<Seq<char>>
    decreases vars.len(),
{
    if vars.len() == 0 {
        None
    } else if vars[0].0 == name {
        Some(vars[0].1)
    } else {
        value_of(vars.drop_first(), name)
    }
}

/// What a variable that holds a number stands for: the default where it is
/// not set, its value read as a decimal number up to `max`, and nothing
/// where it cannot be read so.
pub open spec fn number_of(
    vars: Seq<(Seq<char>, Seq<char>)>,
    name: Seq<char>,
    default: u64,
    max: u64,
) -> Option<u64> {
    match value_of(vars, name) {
        None => Some(default),
        Some(value) => match parsed_unsigned(value, max as nat) {
            Some(n) => Some(n as u64),
            None => None,
        },
    }
}

/// What a text in lower case says of a switch: `true`, `1` and `yes` turn
/// it on, `false`, `0` and `no` turn it off.
pub open spec fn switch_of_lower(lower: Seq<char>) -> Option<bool> {
    if lower == "true"@ || lower == "1"@ || lower == "yes"@ {
        Some(true)
    } else if lower == "false"@ || lower == "0"@ || lower == "no"@ {
        Some(false)
    } else {
        None
    }
}

/// What a text says of a switch, in any mix of upper and lower case.
pub open spec fn switch_of(value: Seq<char>) -> Option<bool> {
    switch_of_lower(lowercase_of(value))
}

/// Reads a text in lower case as a switch.
pub fn read_switch(lower: &str) -> (r: Option<bool>)
    ensures
        r == switch_of_lower(lower@),
{
    if same_text(lower, "true") || same_text(lower, "1") || same_text(lower, "yes") {
        Some(true)
    } else if same_text(lower, "false") || same_text(lower, "0") || same_text(lower, "no") {
        Some(false)
    } else {
        None
    }
}

/// The text of a variable, or the default where it is not set.
pub open spec fn text_of(vars: Seq<(Seq<char>, Seq<char>)>, name: Seq<char>, default: Seq<char>)
    -> Seq<char> {
    match value_of(vars, name) {
        Some(value) => value,
        None => default,
    }
}

fn lookup<'a>(vars: &'a Vec<(String, String)>, name: &str) -> (r: Option<&'a String>)
    ensures
        r is Some <==> value_of(variables(vars@), name@) is Some,
        r matches Some(value) ==> value_of(variables(vars@), name@) == Some(value@),
{
    let ghost all = variables(vars@);
    let mut i: usize = 0;
    assert(all.skip(0) =~= all);
    while i < vars.len()
        invariant
            i <= vars.len(),
            all == variables(vars@),
            value_of(all, name@) == value_of(all.skip(i as int), name@),
        decreases vars.len() - i,
    {
        proof {
            assert(all.skip(i as int).drop_first() =~= all.skip(i + 1));
        }
        if same_text(vars[i].0.as_str(), name) {
            return Some(&vars[i].1);
        }
        i += 1;
    }
    None
}

/// The text of the variable `name`, or `default` where it is not set.
pub fn env_var_or_default(vars: &Vec<(String, String)>, name: &str, default: &str) -> (r: String)
    ensures
        r@ == text_of(variables(vars@), name@, default@),
{
    match lookup(vars, name) {
        Some(value) => value.clone(),
        None => String::from_str(default),
    }
}

/// The number of the variable `name`, no greater than `max`, or `default`
/// where it is not set.
pub fn parse_env_or_default(
    vars: &Vec<(String, String)>,
    name: &'static str,
    default: u64,
    max: u64,
) -> (r: Result<u64, ConfigError>)
    ensures
        r is Ok <==> number_of(variables(vars@), name@, default, max) is Some,
        r matches Ok(n) ==> number_of(variables(vars@), name@, default, max) == Some(n) && (
        value_of(variables(vars@), name@) is Some ==> n <= max),
        r matches Err(e) ==> e.name() == name@ && Some(e.value()) == value_of(
            variables(vars@),
            name@,
        ),
{
    match lookup(vars, name) {
        Some(value) => match parse_unsigned(value.as_str(), max) {
            Some(n) => Ok(n),
            None => Err(ConfigError::InvalidEnvVar(name, value.clone())),
        },
        None => Ok(default),
    }
}

/// The switch of the variable `name`, or `default` where it is not set.
pub fn parse_bool_env_or_default(vars: &Vec<(String, String)>, name: &'static str, default: bool)
    -> (r: Result<bool, ConfigError>)
    ensures
        match value_of(variables(vars@), name@) {
            None => r == Ok::<bool, ConfigError>(default),
            Some(value) => match switch_of(value) {
                Some(b) => r == Ok::<bool, ConfigError>(b),
                None => r is Err && r->Err_0.name() == name@ && r->Err_0.value() == value,
            },
        },
{
    match lookup(vars, name) {
        Some(value) => match read_switch(to_lowercase(value.as_str()).as_str()) {
            Some(b) => Ok(b),
            None => Err(ConfigError::InvalidEnvVar(name, value.clone())),
        },
        None => Ok(default),
    }
}

/// The settings that an environment stands for, where every variable that
/// is set can be read: the port (`PORT`, 8080), the log level (`LOG_LEVEL`,
/// `info`), the address of the API (`BLUESKY_API_URL`), the timeout of a
/// request (`REQUEST_TIMEOUT_SECONDS`, 10), whether readers poll
/// (`POLL_ENABLED`, yes), the first and the longest interval between polls
/// (`POLL_INITIAL_INTERVAL_SECONDS`, 30, and `POLL_MAX_INTERVAL_SECONDS`,
/// 120), the age from which a thread is stale (`POLL_DISABLE_AFTER_SECONDS`,
/// 1800), and the public address of the service (`PUBLIC_URL`).
pub open spec fn settings_of(vars: Seq<(Seq<char>, Seq<char>)>) -> Option<ConfigModel> {
    let port = number_of(vars, "PORT"@, 8080, 65535);
    let timeout = number_of(vars, "REQUEST_TIMEOUT_SECONDS"@, 10, u64::MAX);
    let enabled = match value_of(vars, "POLL_ENABLED"@) {
        Some(value) => switch_of(value),
        None => Some(true),
    };
    let initial = number_of(vars, "POLL_INITIAL_INTERVAL_SECONDS"@, 30, u64::MAX);
    let longest = number_of(vars, "POLL_MAX_INTERVAL_SECONDS"@, 120, u64::MAX);
    let disable = number_of(vars, "POLL_DISABLE_AFTER_SECONDS"@, 1800, u64::MAX);
    if port is Some && timeout is Some && enabled is Some && initial is Some && longest is Some
        && disable is Some {
        Some(
            ConfigModel {
                port: port->0 as u16,
                log_level: text_of(vars, "LOG_LEVEL"@, "info"@),
                bluesky_api_url: text_of(vars, "BLUESKY_API_URL"@, "https://public.api.bsky.app"@),
                request_timeout_seconds: timeout->0,
                poll_enabled: enabled->0,
                poll_initial_interval: initial->0,
                poll_max_interval: longest->0,
                poll_disable_after: disable->0,
                public_url: text_of(vars, "PUBLIC_URL"@, "https://sklonger.app"@),
            },
        )
    } else {
        None
    }
}

/// The first variable, in the order in which the settings are read, that is
/// set and cannot be read.
pub open spec fn first_unreadable(vars: Seq<(Seq<char>, Seq<char>)>) -> Option<Seq<char>> {
    if number_of(vars, "PORT"@, 8080, 65535) is None {
        Some("PORT"@)
    } else if number_of(vars, "REQUEST_TIMEOUT_SECONDS"@, 10, u64::MAX) is None {
        Some("REQUEST_TIMEOUT_SECONDS"@)
    } else if value_of(vars, "POLL_ENABLED"@) is Some && switch_of(
        value_of(vars, "POLL_ENABLED"@)->0,
    ) is None {
        Some("POLL_ENABLED"@)
    } else if number_of(vars, "POLL_INITIAL_INTERVAL_SECONDS"@, 30, u64::MAX) is None {
        Some("POLL_INITIAL_INTERVAL_SECONDS"@)
    } else if number_of(vars, "POLL_MAX_INTERVAL_SECONDS"@, 120, u64::MAX) is None {
        Some("POLL_MAX_INTERVAL_SECONDS"@)
    } else if number_of(vars, "POLL_DISABLE_AFTER_SECONDS"@, 1800, u64::MAX) is None {
        Some("POLL_DISABLE_AFTER_SECONDS"@)
    } else {
        None
    }
}

impl Config {
    /// Reads the settings from the variables of the environment, given as
    /// pairs of name and value. A variable that is not set has its default;
    /// the first one that is set and cannot be read is the error.
    pub fn from_env(vars: &Vec<(String, String)>) -> (r: Result<Config, ConfigError>)
        ensures
            r is Ok <==> settings_of(variables(vars@)) is Some,
            r matches Ok(config) ==> settings_of(variables(vars@)) == Some(config@),
            r matches Err(e) ==> first_unreadable(variables(vars@)) == Some(e.name()) && Some(
                e.value(),
            ) == value_of(variables(vars@), e.name()),
    {
        let port = match parse_env_or_default(vars, "PORT", 8080, 65535) {
            Ok(n) => n,
            Err(e) => {
                return Err(e);
            },
        };
        let log_level = env_var_or_default(vars, "LOG_LEVEL", "info");
        let bluesky_api_url = env_var_or_default(
            vars,
            "BLUESKY_API_URL",
            "https://public.api.bsky.app",
        );
        let request_timeout_seconds = match parse_env_or_default(
            vars,
            "REQUEST_TIMEOUT_SECONDS",
            10,
            u64::MAX,
        ) {
            Ok(n) => n,
            Err(e) => {
                return Err(e);
            },
        };
        let poll_enabled = match parse_bool_env_or_default(vars, "POLL_ENABLED", true) {
            Ok(b) => b,
            Err(e) => {
                return Err(e);
            },
        };
        let poll_initial_interval = match parse_env_or_default(
            vars,
            "POLL_INITIAL_INTERVAL_SECONDS",
            30,
            u64::MAX,
        ) {
            Ok(n) => n,
            Err(e) => {
                return Err(e);
            },
        };
        let poll_max_interval = match parse_env_or_default(
            vars,
            "POLL_MAX_INTERVAL_SECONDS",
            120,
            u64::MAX,
        ) {
            Ok(n) => n,
            Err(e) => {
                return Err(e);
            },
        };
        let poll_disable_after = match parse_env_or_default(
            vars,
            "POLL_DISABLE_AFTER_SECONDS",
            1800,
            u64::MAX,
        ) {
            Ok(n) => n,
            Err(e) => {
                return Err(e);
            },
        };
        let public_url = env_var_or_default(vars, "PUBLIC_URL", "https://sklonger.app");
        Ok(
            Config {
                port: port as u16,
                log_level,
                bluesky_api_url,
                request_timeout_seconds,
                poll_enabled,
                poll_initial_interval,
                poll_max_interval,
                poll_disable_after,
                public_url,
            },
        )
    }
}

} // verus!
