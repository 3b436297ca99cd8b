//! Connection and server configuration: builds the immutable `AppConfig`
//! value from named, optional parameter strings, with defaults, endpoint
//! normalization and port parsing, or fails naming the missing parameter.

use vstd::prelude::*;

use crate::text::{contains_lower, has_lower_substring, str_eq};

verus! {

/// The immutable configuration a gateway process runs with.
#[derive(Debug, Clone)]
pub struct AppConfig {
    pub s3_endpoint: String,
    pub s3_region: String,
    pub s3_access_key: String,
    pub s3_secret_key: String,
    pub s3_bucket_name: String,
    pub s3_path_style: bool,
    pub server_host: String,
    pub server_port: u16,
    pub log_level: String,
    pub debug_enabled: bool,
}

/// The named connection parameters, each present or absent, as the host
/// environment hands them over.
pub struct ConfigVars {
    pub s3_endpoint: Option<String>,
    pub s3_region: Option<String>,
    pub s3_access_key: Option<String>,
    pub s3_secret_key: Option<String>,
    pub s3_bucket_name: Option<String>,
    pub s3_path_style: Option<String>,
    pub server_host: Option<String>,
    pub server_port: Option<String>,
    pub log_level: Option<String>,
}

/// A required connection parameter.
#[derive(Debug, Clone, Copy, PartialEq, Eq, Structural)]
pub enum ConfigParam {
    Endpoint,
    AccessKey,
    SecretKey,
    BucketName,
}

/// Why configuration was rejected: a required parameter was absent, or the
/// listen port did not parse.
#[derive(Debug, Clone, Copy, PartialEq, Eq, Structural)]
pub enum ConfigError {
    MissingConfiguration(ConfigParam),
    InvalidPort,
}

impl ConfigError {
    /// The diagnostic line for this error.
    pub fn message(&self) -> (r: String)
        ensures
            r@ == match self {
                ConfigError::MissingConfiguration(ConfigParam::Endpoint) =>
                    "S3_ENDPOINT environment variable is required"@,
                ConfigError::MissingConfiguration(ConfigParam::AccessKey) =>
                    "S3_ACCESS_KEY environment variable is required"@,
                ConfigError::MissingConfiguration(ConfigParam::SecretKey) =>
                    "S3_SECRET_KEY environment variable is required"@,
                ConfigError::MissingConfiguration(ConfigParam::BucketName) =>
                    "S3_BUCKET_NAME environment variable is required"@,
                ConfigError::InvalidPort => "SERVER_PORT must be a valid port number"@,
            },
    {
        match self {
            ConfigError::MissingConfiguration(ConfigParam::Endpoint) => String::from_str(
                "S3_ENDPOINT environment variable is required",
            ),
            ConfigError::MissingConfiguration(ConfigParam::AccessKey) => String::from_str(
                "S3_ACCESS_KEY environment variable is required",
            ),
            ConfigError::MissingConfiguration(ConfigParam::SecretKey) => String::from_str(
                "S3_SECRET_KEY environment variable is required",
            ),
            ConfigError::MissingConfiguration(ConfigParam::BucketName) => String::from_str(
                "S3_BUCKET_NAME environment variable is required",
            ),
            ConfigError::InvalidPort => String::from_str(
                "SERVER_PORT must be a valid port number",
            ),
        }
    }
}

/// `s` with every trailing `/` removed.
pub open spec fn strip_trailing(s: Seq<char>) -> Seq<char>
    decreases s.len(),
{
    if s.len() > 0 && s.last() == '/' {
        strip_trailing(s.drop_last())
    } else {
        s
    }
}

/// Removes every trailing `/` from `s`.
pub fn trim_trailing_slashes(s: &str) -> (r: String)
    ensures
        r@ == strip_trailing(s@),
{
    let n = s.unicode_len();
    let mut end = n;
    proof {
        assert(s@.subrange(0, n as int) =~= s@);
    }
    while end > 0 && s.get_char(end - 1) == '/'
        invariant
            end <= n,
            n == s@.len(),
            strip_trailing(s@) == strip_trailing(s@.subrange(0, end as int)),
        decreases end,
    {
        proof {
            assert(s@.subrange(0, end as int).last() == s@[end - 1]);
            assert(s@.subrange(0, end as int).drop_last() =~= s@.subrange(0, end - 1));
        }
        end = end - 1;
    }
    let out = s.substring_char(0, end);
    String::from_str(out)
}

/// Whether every character of `s` is an ASCII decimal digit.
pub open spec fn all_digits(s: Seq<char>) -> bool {
    forall|i: int| 0 <= i < s.len() ==> '0' as u32 <= (#[trigger] s[i]) as u32 <= '9' as u32
}

/// The number denoted by a sequence of decimal digits (most significant
/// first).
pub open spec fn digits_value(s: Seq<char>) -> int
    decreases s.len(),
{
    if s.len() == 0 {
        0
    } else {
        digits_value(s.drop_last()) * 10 + (s.last() as u32 - '0' as u32)
    }
}

/// The digit part of a port string: the whole string, or what follows an
/// optional leading `+`.
pub open spec fn port_digits(s: Seq<char>) -> Seq<char> {
    if s.len() > 0 && s[0] == '+' {
        s.subrange(1, s.len() as int)
    } else {
        s
    }
}

/// What parsing a listen-port string yields: an optional leading `+`, then
/// one or more decimal digits whose value fits a `u16`; anything else is
/// rejected.
pub open spec fn spec_parse_u16(s: Seq<char>) -> Option<u16> {
    let t = port_digits(s);
    if t.len() >= 1 && all_digits(t) && digits_value(t) <= 65535 {
        Some(digits_value(t) as u16)
    } else {
        None
    }
}

proof fn lemma_digits_value_nonneg(s: Seq<char>)
    requires
        all_digits(s),
    ensures
        digits_value(s) >= 0,
    decreases s.len(),
{
    if s.len() > 0 {
        lemma_digits_value_nonneg(s.drop_last());
    }
}

proof fn lemma_digits_value_prefix(s: Seq<char>, j: int)
    requires
        all_digits(s),
        0 <= j <= s.len(),
    ensures
        digits_value(s.subrange(0, j)) <= digits_value(s),
    decreases s.len(),
{
    if j == s.len() {
        assert(s.subrange(0, j) =~= s);
    } else {
        assert(s.drop_last().subrange(0, j) =~= s.subrange(0, j));
        lemma_digits_value_prefix(s.drop_last(), j);
        lemma_digits_value_nonneg(s.drop_last());
    }
}

/// Parses a listen-port string exactly as the host's integer parsing would:
/// an optional leading `+`, then decimal digits, value at most 65535.
pub fn parse_port(s: &str) -> (r: Option<u16>)
    ensures
        r == spec_parse_u16(s@),
{
    let n = s.unicode_len();
    let start: usize = if n > 0 && s.get_char(0) == '+' {
        1
    } else {
        0
    };
    let ghost t = port_digits(s@);
    proof {
        assert(t =~= s@.subrange(start as int, n as int));
    }
    if start == n {
        return None;
    }
    let mut acc: u32 = 0;
    let mut i = start;
    while i < n
        invariant
            start <= i <= n,
            n == s@.len(),
            t == port_digits(s@),
            t == s@.subrange(start as int, n as int),
            acc <= 65535,
            all_digits(t.subrange(0, i - start)),
            acc == digits_value(t.subrange(0, i - start)),
        decreases n - i,
    {
        let c = s.get_char(i);
        let u = c as u32;
        if u < '0' as u32 || u > '9' as u32 {
            proof {
                assert(t[i - start] == s@[i as int]);
                assert(!all_digits(t)) by {
                    assert(!('0' as u32 <= t[i - start] as u32 <= '9' as u32));
                }
            }
            return None;
        }
        let d = u - '0' as u32;
        let next = acc * 10 + d;
        proof {
            assert(t.subrange(0, i - start + 1).drop_last() =~= t.subrange(0, i - start));
            assert(t.subrange(0, i - start + 1).last() == s@[i as int]);
        }
        if next > 65535 {
            proof {
                assert(digits_value(t.subrange(0, i - start + 1)) == acc * 10 + d);
                if all_digits(t) {
                    lemma_digits_value_prefix(t, i - start + 1);
                    assert(digits_value(t) > 65535);
                }
            }
            return None;
        }
        acc = next;
        i = i + 1;
    }
    proof {
        assert(t.subrange(0, n - start) =~= t);
    }
    Some(acc as u16)
}

/// The parameter's string, or the given default where it is absent.
pub open spec fn or_str(v: Option<String>, d: Seq<char>) -> Seq<char> {
    match v {
        Some(x) => x@,
        None => d,
    }
}

impl AppConfig {
    /// Builds the configuration from the named parameters, or rejects them:
    /// every required parameter must be present, and the listen port, where
    /// given, must parse.  The endpoint loses its trailing `/`s; region,
    /// host, port and log level fall back to their defaults; path-style
    /// addressing is on unless the parameter is exactly `false`; debug
    /// diagnostics are on when the log level asks for `debug` (any casing)
    /// or the logger already has it on (`logger_debug`).
    pub fn from_vars(vars: ConfigVars, logger_debug: bool) -> (r: Result<AppConfig, ConfigError>)
        ensures
            r is Ok <==> (vars.s3_endpoint is Some && vars.s3_access_key is Some
                && vars.s3_secret_key is Some && vars.s3_bucket_name is Some && (
            vars.server_port is None || spec_parse_u16(vars.server_port->0@) is Some)),
            vars.s3_endpoint is None ==> r == Err::<AppConfig, ConfigError>(
                ConfigError::MissingConfiguration(ConfigParam::Endpoint),
            ),
            vars.s3_endpoint is Some && vars.s3_access_key is None ==> r == Err::<
                AppConfig,
                ConfigError,
            >(ConfigError::MissingConfiguration(ConfigParam::AccessKey)),
            vars.s3_endpoint is Some && vars.s3_access_key is Some && vars.s3_secret_key is None
                ==> r == Err::<AppConfig, ConfigError>(
                ConfigError::MissingConfiguration(ConfigParam::SecretKey),
            ),
            vars.s3_endpoint is Some && vars.s3_access_key is Some && vars.s3_secret_key is Some
                && vars.s3_bucket_name is None ==> r == Err::<AppConfig, ConfigError>(
                ConfigError::MissingConfiguration(ConfigParam::BucketName),
            ),
            vars.s3_endpoint is Some && vars.s3_access_key is Some && vars.s3_secret_key is Some
                && vars.s3_bucket_name is Some && vars.server_port is Some && spec_parse_u16(
                vars.server_port->0@,
            ) is None ==> r == Err::<AppConfig, ConfigError>(ConfigError::InvalidPort),
            r matches Ok(c) ==> {
                &&& c.s3_endpoint@ == strip_trailing(vars.s3_endpoint->0@)
                &&& c.s3_region@ == or_str(vars.s3_region, "us-east-1"@)
                &&& c.s3_access_key@ == vars.s3_access_key->0@
                &&& c.s3_secret_key@ == vars.s3_secret_key->0@
                &&& c.s3_bucket_name@ == vars.s3_bucket_name->0@
                &&& c.s3_path_style == (match vars.s3_path_style {
                    Some(ps) => ps@ != "false"@,
                    None => true,
                })
                &&& c.server_host@ == or_str(vars.server_host, "0.0.0.0"@)
                &&& c.server_port == (match vars.server_port {
                    Some(ps) => spec_parse_u16(ps@)->0,
                    None => 8089u16,
                })
                &&& c.log_level@ == or_str(vars.log_level, "info"@)
                &&& c.debug_enabled == (has_lower_substring(
                    or_str(vars.log_level, "info"@),
                    "debug"@,
                ) || logger_debug)
            },
    {
        let endpoint_raw = match vars.s3_endpoint {
            Some(e) => e,
            None => {
                return Err(ConfigError::MissingConfiguration(ConfigParam::Endpoint));
            },
        };
        let s3_access_key = match vars.s3_access_key {
            Some(k) => k,
            None => {
                return Err(ConfigError::MissingConfiguration(ConfigParam::AccessKey));
            },
        };
        let s3_secret_key = match vars.s3_secret_key {
            Some(k) => k,
            None => {
                return Err(ConfigError::MissingConfiguration(ConfigParam::SecretKey));
            },
        };
        let s3_bucket_name = match vars.s3_bucket_name {
            Some(b) => b,
            None => {
                return Err(ConfigError::MissingConfiguration(ConfigParam::BucketName));
            },
        };
        let server_port: u16 = match &vars.server_port {
            Some(ps) => match parse_port(ps.as_str()) {
                Some(v) => v,
                None => {
                    return Err(ConfigError::InvalidPort);
                },
            },
            None => 8089,
        };
        let s3_endpoint = trim_trailing_slashes(endpoint_raw.as_str());
        let s3_region = match vars.s3_region {
            Some(x) => x,
            None => String::from_str("us-east-1"),
        };
        let s3_path_style = match &vars.s3_path_style {
            Some(ps) => !str_eq(ps.as_str(), "false"),
            None => true,
        };
        let server_host = match vars.server_host {
            Some(x) => x,
            None => String::from_str("0.0.0.0"),
        };
        let log_level = match vars.log_level {
            Some(x) => x,
            None => String::from_str("info"),
        };
        let debug_enabled = contains_lower(log_level.as_str(), "debug") || logger_debug;
        Ok(
            AppConfig {
                s3_endpoint,
                s3_region,
                s3_access_key,
                s3_secret_key,
                s3_bucket_name,
                s3_path_style,
                server_host,
                server_port,
                log_level,
                debug_enabled,
            },
        )
    }

    /// The at-most-four-character prefix of the access key that diagnostics
    /// may show; the rest of the key is never echoed.
    pub fn access_key_preview(&self) -> (r: String)
        ensures
            r@ == self.s3_access_key@.subrange(
                0,
                if self.s3_access_key@.len() < 4 {
                    self.s3_access_key@.len() as int
                } else {
                    4
                },
            ),
    {
        let n = self.s3_access_key.as_str().unicode_len();
        let end = if n < 4 {
            n
        } else {
            4
        };
        let out = self.s3_access_key.as_str().substring_char(0, end);
        String::from_str(out)
    }
}

} // verus!
