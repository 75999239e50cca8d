//! The validated configuration: the collector endpoint, the poll cadence,
//! the batch size, where checkpoints live, and the sources.

use vstd::prelude::*;
use core::time::Duration;
use crate::journal::opt_view;
use crate::text::{chars_of, owned, parse_unsigned, parse_usize};

verus! {

/// Default config file path
pub const DEFAULT_CONFIG_PATH: &'static str = "/etc/otel-journal-gatewayd-forwarder/config.toml";

/// Default cursor storage directory
pub const DEFAULT_CURSOR_DIR: &'static str = "/var/lib/otel-journal-gatewayd-forwarder";

/// Default poll interval, in seconds
pub const DEFAULT_POLL_INTERVAL_SECS: u64 = 5;

/// Default batch size
pub const DEFAULT_BATCH_SIZE: usize = 500;

/// Why a configuration could not be loaded or is not valid.
#[derive(Debug)]
pub enum ConfigError {
    ReadFile(std::io::Error),
    /// The config file is not valid TOML for this program, with the parser's message.
    ParseToml(String),
    MissingField(&'static str),
    InvalidValue { field: &'static str, message: String },
    NoSources,
}

/// Validated application configuration
#[derive(Debug)]
pub struct Config {
    pub otlp_endpoint: String,
    pub poll_interval: Duration,
    pub batch_size: usize,
    pub cursor_dir: String,
    pub sources: Vec<Source>,
}

/// Validated source configuration
#[derive(Debug, Clone)]
pub struct Source {
    pub name: String,
    pub url: String,
    pub units: Vec<String>,
    pub labels: Vec<(String, String)>,
}

/// Relies on `Duration::from_secs`.
pub assume_specification[ Duration::from_secs ](secs: u64) -> Duration;

/// The duration that humantime reads from a text, if it reads one.
pub uninterp spec fn parsed_duration(s: Seq<char>) -> Option<Duration>;

/// Relies on `humantime::parse_duration`; a refusal comes with its message.
#[verifier::external_body]
fn humantime_duration(s: &str) -> (r: Result<Duration, String>)
    ensures
        r matches Ok(d) ==> parsed_duration(s@) == Some(d),
        r is Err ==> parsed_duration(s@) is None,
{
    humantime::parse_duration(s).map_err(|e| e.to_string())
}

/// Parse a duration string like "5s", "10m", "1h"
pub fn parse_duration(s: &str) -> (r: Result<Duration, ConfigError>)
    ensures
        r matches Ok(d) ==> parsed_duration(s@) == Some(d),
        r is Err ==> parsed_duration(s@) is None && (r matches Err(
            ConfigError::InvalidValue { field, .. },
        ) && field@ == "poll_interval"@),
{
    match humantime_duration(s) {
        Ok(d) => Ok(d),
        Err(message) => Err(ConfigError::InvalidValue { field: "poll_interval", message }),
    }
}

/// Whether a text begins with a prefix.
pub open spec fn has_prefix(s: Seq<char>, prefix: Seq<char>) -> bool {
    prefix.len() <= s.len() && s.subrange(0, prefix.len() as int) == prefix
}

/// An HTTP or HTTPS URL.
pub open spec fn is_http_url(s: Seq<char>) -> bool {
    has_prefix(s, "http://"@) || has_prefix(s, "https://"@)
}

/// Whether a text begins with a prefix.
pub fn starts_with(s: &str, prefix: &str) -> (r: bool)
    ensures
        r == has_prefix(s@, prefix@),
{
    let cs = chars_of(s);
    let ps = chars_of(prefix);
    if ps.len() > cs.len() {
        return false;
    }
    let mut i: usize = 0;
    while i < ps.len()
        invariant
            i <= ps@.len() <= cs@.len(),
            cs@ == s@,
            ps@ == prefix@,
            cs@.subrange(0, i as int) == ps@.subrange(0, i as int),
        decreases ps.len() - i,
    {
        if cs[i] != ps[i] {
            assert(cs@.subrange(0, ps@.len() as int)[i as int] != ps@[i as int]);
            return false;
        }
        assert(cs@.subrange(0, i + 1) =~= cs@.subrange(0, i as int).push(cs@[i as int]));
        assert(ps@.subrange(0, i + 1) =~= ps@.subrange(0, i as int).push(ps@[i as int]));
        i = i + 1;
    }
    assert(ps@.subrange(0, ps@.len() as int) =~= ps@);
    true
}

fn http_url(s: &str) -> (r: bool)
    ensures
        r == is_http_url(s@),
{
    starts_with(s, "http://") || starts_with(s, "https://")
}

/// Whether a source is acceptable: a name, and an HTTP(S) URL.
pub open spec fn source_valid(s: Source) -> bool {
    s.name@.len() > 0 && is_http_url(s.url@)
}

/// The error that a source's first problem brings.
pub open spec fn source_error_field(s: Source) -> Seq<char> {
    if s.name@.len() == 0 {
        "source.name"@
    } else {
        "source.url"@
    }
}

/// The settings that the config file gives, each where it is set.
#[derive(Debug, Default)]
pub struct FileSettings {
    pub otlp_endpoint: Option<String>,
    pub poll_interval: Option<String>,
    pub batch_size: Option<usize>,
    pub cursor_dir: Option<String>,
    pub sources: Vec<Source>,
}

/// The settings that the environment gives, each variable where it is set.
#[derive(Debug, Default)]
pub struct EnvSettings {
    pub otlp_endpoint: Option<String>,
    pub poll_interval: Option<String>,
    pub batch_size: Option<String>,
    pub cursor_dir: Option<String>,
}

/// A setting taken from the environment where it is set there, else from the file.
pub open spec fn either(env: Option<String>, file: Option<String>) -> Option<Seq<char>> {
    match env {
        Some(v) => Some(v@),
        None => opt_view(file),
    }
}

/// Whether the batch size that the environment sets, if any, is a number.
pub open spec fn batch_size_ok(env: Option<String>) -> bool {
    match env {
        Some(t) => parse_unsigned(t@, usize::MAX as nat) is Some,
        None => true,
    }
}

/// The batch size: the environment's, else the file's, else the default.
pub open spec fn batch_size_of(env: Option<String>, file: Option<usize>) -> nat {
    match env {
        Some(t) => parse_unsigned(t@, usize::MAX as nat)->0,
        None => match file {
            Some(n) => n as nat,
            None => DEFAULT_BATCH_SIZE as nat,
        },
    }
}

fn first_set(env: Option<String>, file: Option<String>) -> (r: Option<String>)
    ensures
        opt_view(r) == either(env, file),
{
    match env {
        Some(v) => Some(v),
        None => file,
    }
}

impl Config {
    /// Merges the environment over the config file, with defaults for the
    /// poll interval, batch size and checkpoint directory. The collector
    /// endpoint and at least one source are required; a poll interval or
    /// batch size that does not parse is refused.
    pub fn from_settings(file: FileSettings, env: EnvSettings) -> (r: Result<Config, ConfigError>)
        ensures
            r is Ok <==> either(env.otlp_endpoint, file.otlp_endpoint) is Some && (either(
                env.poll_interval,
                file.poll_interval,
            ) matches Some(t) ==> parsed_duration(t) is Some) && batch_size_ok(env.batch_size)
                && file.sources@.len() > 0,
            either(env.otlp_endpoint, file.otlp_endpoint) is None ==> (r matches Err(
                ConfigError::MissingField(f),
            ) && f@ == "otlp_endpoint"@),
            either(env.otlp_endpoint, file.otlp_endpoint) is Some && (either(
                env.poll_interval,
                file.poll_interval,
            ) matches Some(t) && parsed_duration(t) is None) ==> (r matches Err(
                ConfigError::InvalidValue { field, .. },
            ) && field@ == "poll_interval"@),
            either(env.otlp_endpoint, file.otlp_endpoint) is Some && (either(
                env.poll_interval,
                file.poll_interval,
            ) matches Some(t) ==> parsed_duration(t) is Some) && !batch_size_ok(env.batch_size)
                ==> (r matches Err(ConfigError::InvalidValue { field, .. }) && field@
                == "batch_size"@),
            either(env.otlp_endpoint, file.otlp_endpoint) is Some && (either(
                env.poll_interval,
                file.poll_interval,
            ) matches Some(t) ==> parsed_duration(t) is Some) && batch_size_ok(env.batch_size)
                && file.sources@.len() == 0 ==> (r matches Err(ConfigError::NoSources)),
            r matches Ok(c) ==> {
                &&& Some(c.otlp_endpoint@) == either(env.otlp_endpoint, file.otlp_endpoint)
                &&& (either(env.poll_interval, file.poll_interval) matches Some(t)
                    ==> parsed_duration(t) == Some(c.poll_interval))
                &&& c.batch_size as nat == batch_size_of(env.batch_size, file.batch_size)
                &&& c.cursor_dir@ == match either(env.cursor_dir, file.cursor_dir) {
                    Some(d) => d,
                    None => DEFAULT_CURSOR_DIR@,
                }
                &&& c.sources == file.sources
            },
    {
        let otlp_endpoint = match first_set(env.otlp_endpoint, file.otlp_endpoint) {
            Some(e) => e,
            None => return Err(ConfigError::MissingField("otlp_endpoint")),
        };
        let poll_interval = match first_set(env.poll_interval, file.poll_interval) {
            Some(t) => match parse_duration(t.as_str()) {
                Ok(d) => d,
                Err(e) => return Err(e),
            },
            None => Duration::from_secs(DEFAULT_POLL_INTERVAL_SECS),
        };
        let batch_size = match &env.batch_size {
            Some(t) => match parse_usize(t.as_str()) {
                Some(n) => n,
                None => return Err(
                    ConfigError::InvalidValue {
                        field: "batch_size",
                        message: owned("must be a positive integer"),
                    },
                ),
            },
            None => match file.batch_size {
                Some(n) => n,
                None => DEFAULT_BATCH_SIZE,
            },
        };
        let cursor_dir = match first_set(env.cursor_dir, file.cursor_dir) {
            Some(d) => d,
            None => owned(DEFAULT_CURSOR_DIR),
        };
        if file.sources.len() == 0 {
            return Err(ConfigError::NoSources);
        }
        Ok(Config { otlp_endpoint, poll_interval, batch_size, cursor_dir, sources: file.sources })
    }

    /// Validate the configuration: the collector endpoint must be an
    /// HTTP(S) URL, and each source must have a name and an HTTP(S) URL. The
    /// first problem found is reported.
    pub fn validate(&self) -> (r: Result<(), ConfigError>)
        ensures
            r is Ok <==> is_http_url(self.otlp_endpoint@) && forall|i: int|
                0 <= i < self.sources@.len() ==> source_valid(#[trigger] self.sources@[i]),
            !is_http_url(self.otlp_endpoint@) ==> (r matches Err(
                ConfigError::InvalidValue { field, .. },
            ) && field@ == "otlp_endpoint"@),
            is_http_url(self.otlp_endpoint@) && r is Err ==> exists|i: int|
                0 <= i < self.sources@.len() && !source_valid(#[trigger] self.sources@[i]) && (
                forall|j: int| 0 <= j < i ==> source_valid(#[trigger] self.sources@[j]))
                && (r matches Err(ConfigError::InvalidValue { field, .. }) && field@
                == source_error_field(self.sources@[i])),
    {
        if !http_url(self.otlp_endpoint.as_str()) {
            return Err(
                ConfigError::InvalidValue {
                    field: "otlp_endpoint",
                    message: owned("must be a valid HTTP(S) URL"),
                },
            );
        }
        let mut i: usize = 0;
        while i < self.sources.len()
            invariant
                i <= self.sources@.len(),
                is_http_url(self.otlp_endpoint@),
                forall|j: int| 0 <= j < i ==> source_valid(#[trigger] self.sources@[j]),
            decreases self.sources.len() - i,
        {
            let source = &self.sources[i];
            if source.name.as_str().is_empty() {
                return Err(
                    ConfigError::InvalidValue {
                        field: "source.name",
                        message: owned("cannot be empty"),
                    },
                );
            }
            if !http_url(source.url.as_str()) {
                let mut message = owned("invalid URL for source '");
                message.push_str(source.name.as_str());
                message.push_str("': must be HTTP(S)");
                return Err(ConfigError::InvalidValue { field: "source.url", message });
            }
            i = i + 1;
        }
        Ok(())
    }
}

} // verus!
