use vstd::prelude::*;

verus! {

use vstd::string::StringExecFns;
use crate::text::{
    dec_str, digits_only, digits_value, parse_u64, parseable_u64, unsigned_body, u64_to_string,
};

/// Host used when the environment leaves the host unset.
pub fn default_host() -> (h: String)
    ensures
        h@ == "127.0.0.1"@,
{
    String::from_str("127.0.0.1")
}

/// Port used when the environment leaves the port unset.
pub fn default_port() -> (p: u16)
    ensures
        p == 1430,
{
    1430
}

/// Data directory used when the environment leaves it unset.
pub fn default_data_dir() -> (d: String)
    ensures
        d@ == "."@,
{
    String::from_str(".")
}

/// Health-check timeout, in seconds, used when the environment leaves it
/// unset.
pub fn default_health_check_timeout_secs() -> (t: u64)
    ensures
        t == 30,
{
    30
}

/// Health-check poll interval, in milliseconds, used when the environment
/// leaves it unset.
pub fn default_health_check_interval_ms() -> (i: u64)
    ensures
        i == 200,
{
    200
}

/// A present environment value that does not read as its field's type.
/// Fatal to startup: the caller aborts with a message rather than running
/// on a half-understood configuration.
#[derive(PartialEq, Eq, Structural, Debug, Clone, Copy)]
pub enum ConfigError {
    InvalidPort,
    InvalidTimeout,
    InvalidInterval,
}

/// The immutable runtime configuration, built once at startup and then
/// only read.
#[derive(Debug)]
pub struct Settings {
    pub host: String,
    pub port: u16,
    pub data_dir: String,
    pub health_check_timeout_secs: u64,
    pub health_check_interval_ms: u64,
}

/// The text reads as a decimal number that fits in a `u16`.
pub open spec fn parseable_u16(s: Seq<char>) -> bool {
    let t = unsigned_body(s);
    t.len() > 0 && digits_only(t) && digits_value(t) <= u16::MAX as int
}

/// `http://<host>:<port>`.
pub open spec fn backend_url_spec(host: Seq<char>, port: int) -> Seq<char> {
    "http://"@ + host + ":"@ + dec_str(port)
}

/// `http://<host>:<port>/api/v1/health`.
pub open spec fn health_endpoint_spec(host: Seq<char>, port: int) -> Seq<char> {
    backend_url_spec(host, port) + "/api/v1/health"@
}

/// Seconds expressed in milliseconds, saturating at `u64::MAX`.
pub open spec fn secs_to_millis_spec(secs: int) -> int {
    if secs * 1000 <= u64::MAX as int {
        secs * 1000
    } else {
        u64::MAX as int
    }
}

impl Settings {
    /// Builds the settings from the raw environment values, one `Option`
    /// per variable, `None` where the variable is unset. Every unset field
    /// takes its default; a present numeric field that does not parse is a
    /// fatal `ConfigError`, the first such field (in declaration order)
    /// naming the error.
    pub fn from_parts(
        host: Option<String>,
        port: Option<String>,
        data_dir: Option<String>,
        health_check_timeout_secs: Option<String>,
        health_check_interval_ms: Option<String>,
    ) -> (r: Result<Settings, ConfigError>)
        ensures
            (r is Err) <==> ((port matches Some(p) && !parseable_u16(p@))
                || (health_check_timeout_secs matches Some(t) && !parseable_u64(t@))
                || (health_check_interval_ms matches Some(i) && !parseable_u64(i@))),
            (port matches Some(p) && !parseable_u16(p@)) ==> r == Result::<Settings,
                ConfigError,
            >::Err(ConfigError::InvalidPort),
            ((port matches Some(p) ==> parseable_u16(p@))
                && (health_check_timeout_secs matches Some(t) && !parseable_u64(t@))) ==> r
                == Result::<Settings, ConfigError>::Err(ConfigError::InvalidTimeout),
            ((port matches Some(p) ==> parseable_u16(p@))
                && (health_check_timeout_secs matches Some(t) ==> parseable_u64(t@))
                && (health_check_interval_ms matches Some(i) && !parseable_u64(i@))) ==> r
                == Result::<Settings, ConfigError>::Err(ConfigError::InvalidInterval),
            r matches Ok(s) ==> {
                &&& (match host {
                    Some(h) => s.host@ == h@,
                    None => s.host@ == "127.0.0.1"@,
                })
                &&& (match port {
                    Some(p) => s.port as int == digits_value(unsigned_body(p@)),
                    None => s.port == 1430,
                })
                &&& (match data_dir {
                    Some(d) => s.data_dir@ == d@,
                    None => s.data_dir@ == "."@,
                })
                &&& (match health_check_timeout_secs {
                    Some(t) => s.health_check_timeout_secs as int == digits_value(
                        unsigned_body(t@),
                    ),
                    None => s.health_check_timeout_secs == 30,
                })
                &&& (match health_check_interval_ms {
                    Some(i) => s.health_check_interval_ms as int == digits_value(
                        unsigned_body(i@),
                    ),
                    None => s.health_check_interval_ms == 200,
                })
            },
    {
        let port_value: u16 = match port {
            Some(p) => {
                match parse_u64(p.as_str()) {
                    Some(v) if v <= 65535 => v as u16,
                    _ => {
                        return Err(ConfigError::InvalidPort);
                    },
                }
            },
            None => default_port(),
        };
        let timeout_value: u64 = match health_check_timeout_secs {
            Some(t) => {
                match parse_u64(t.as_str()) {
                    Some(v) => v,
                    None => {
                        return Err(ConfigError::InvalidTimeout);
                    },
                }
            },
            None => default_health_check_timeout_secs(),
        };
        let interval_value: u64 = match health_check_interval_ms {
            Some(i) => {
                match parse_u64(i.as_str()) {
                    Some(v) => v,
                    None => {
                        return Err(ConfigError::InvalidInterval);
                    },
                }
            },
            None => default_health_check_interval_ms(),
        };
        let host_value: String = match host {
            Some(h) => h,
            None => default_host(),
        };
        let data_dir_value: String = match data_dir {
            Some(d) => d,
            None => default_data_dir(),
        };
        Ok(
            Settings {
                host: host_value,
                port: port_value,
                data_dir: data_dir_value,
                health_check_timeout_secs: timeout_value,
                health_check_interval_ms: interval_value,
            },
        )
    }

    /// The backend's base URL, a pure function of host and port:
    /// `http://<host>:<port>`.
    pub fn backend_url(&self) -> (r: String)
        ensures
            r@ == backend_url_spec(self.host@, self.port as int),
    {
        let mut s = String::from_str("http://");
        s.append(self.host.as_str());
        s.append(":");
        let port_text = u64_to_string(self.port as u64);
        s.append(port_text.as_str());
        proof {
            assert(s@ =~= backend_url_spec(self.host@, self.port as int));
        }
        s
    }

    /// The backend's readiness URL, a pure function of host and port:
    /// `http://<host>:<port>/api/v1/health`.
    pub fn health_endpoint(&self) -> (r: String)
        ensures
            r@ == health_endpoint_spec(self.host@, self.port as int),
    {
        let mut s = self.backend_url();
        s.append("/api/v1/health");
        proof {
            assert(s@ =~= health_endpoint_spec(self.host@, self.port as int));
        }
        s
    }

    /// The health-check timeout in milliseconds, saturating at `u64::MAX`.
    pub fn health_check_timeout(&self) -> (r: u64)
        ensures
            r as int == secs_to_millis_spec(self.health_check_timeout_secs as int),
    {
        if self.health_check_timeout_secs <= u64::MAX / 1000 {
            self.health_check_timeout_secs * 1000
        } else {
            u64::MAX
        }
    }

    /// The health-check poll interval in milliseconds.
    pub fn health_check_interval(&self) -> (r: u64)
        ensures
            r == self.health_check_interval_ms,
    {
        self.health_check_interval_ms
    }
}

} // verus!
