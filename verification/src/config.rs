//! Configuration for gz-transport nodes.
use vstd::prelude::*;
use vstd::string::*;
use crate::text::{parse_ipv4, parse_ipv4_text, parse_u16, parse_u16_text};

verus! {

/// Default multicast address for discovery (239.255.0.7), as a big-endian `u32`.
pub const DEFAULT_MULTICAST_ADDR: u32 = 0xEFFF_0007;

/// Default message discovery port.
pub const DEFAULT_MSG_DISCOVERY_PORT: u16 = 10317;

/// Default service discovery port.
pub const DEFAULT_SRV_DISCOVERY_PORT: u16 = 10318;

/// Protocol wire version.
pub const WIRE_VERSION: u32 = 10;

/// Heartbeat interval in milliseconds.
pub const HEARTBEAT_INTERVAL_MS: u64 = 1000;

/// Silence timeout in milliseconds (node considered dead).
pub const SILENCE_TIMEOUT_MS: u64 = 3000;

/// Activity check interval in milliseconds.
pub const ACTIVITY_INTERVAL_MS: u64 = 100;

/// Default discovery and service-call timeout in milliseconds.
pub const DEFAULT_TIMEOUT_MS: u64 = 5000;

/// Configuration for a gz-transport node.
///
/// IPv4 addresses are big-endian `u32` values; durations are milliseconds.
#[derive(Debug, Clone)]
pub struct Config {
    /// Partition name (default: from GZ_PARTITION or hostname:username).
    pub partition: Option<String>,
    /// Discovery multicast address.
    pub multicast_addr: u32,
    /// Message discovery port.
    pub msg_discovery_port: u16,
    /// Service discovery port.
    pub srv_discovery_port: u16,
    /// Discovery timeout, in milliseconds.
    pub discovery_timeout_ms: u64,
    /// Service call timeout, in milliseconds.
    pub service_timeout_ms: u64,
    /// Heartbeat interval, in milliseconds.
    pub heartbeat_interval_ms: u64,
    /// Host IP override (default: auto-detect).
    pub host_ip: Option<u32>,
    /// Service response port (default: ephemeral).
    pub service_response_port: Option<u16>,
}

/// The text of an optional string.
pub open spec fn opt_text(o: Option<String>) -> Option<Seq<char>> {
    match o {
        Some(s) => Some(s@),
        None => None,
    }
}

/// The text of an optional string slice.
pub open spec fn opt_str_text(o: Option<&str>) -> Option<Seq<char>> {
    match o {
        Some(s) => Some(s@),
        None => None,
    }
}

impl Config {
    /// The configuration with every default.
    pub open spec fn is_default(&self) -> bool {
        &&& self.partition is None
        &&& self.multicast_addr == DEFAULT_MULTICAST_ADDR
        &&& self.msg_discovery_port == DEFAULT_MSG_DISCOVERY_PORT
        &&& self.srv_discovery_port == DEFAULT_SRV_DISCOVERY_PORT
        &&& self.discovery_timeout_ms == DEFAULT_TIMEOUT_MS
        &&& self.service_timeout_ms == DEFAULT_TIMEOUT_MS
        &&& self.heartbeat_interval_ms == HEARTBEAT_INTERVAL_MS
        &&& self.host_ip is None
        &&& self.service_response_port is None
    }

    /// The same settings (text compared by content).
    pub open spec fn same_as(&self, other: &Config) -> bool {
        &&& opt_text(self.partition) == opt_text(other.partition)
        &&& self.multicast_addr == other.multicast_addr
        &&& self.msg_discovery_port == other.msg_discovery_port
        &&& self.srv_discovery_port == other.srv_discovery_port
        &&& self.discovery_timeout_ms == other.discovery_timeout_ms
        &&& self.service_timeout_ms == other.service_timeout_ms
        &&& self.heartbeat_interval_ms == other.heartbeat_interval_ms
        &&& self.host_ip == other.host_ip
        &&& self.service_response_port == other.service_response_port
    }

    /// A copy of this configuration.
    pub fn duplicate(&self) -> (r: Config)
        ensures
            r.same_as(self),
    {
        Config {
            partition: match &self.partition {
                Some(p) => Some(p.clone()),
                None => None,
            },
            multicast_addr: self.multicast_addr,
            msg_discovery_port: self.msg_discovery_port,
            srv_discovery_port: self.srv_discovery_port,
            discovery_timeout_ms: self.discovery_timeout_ms,
            service_timeout_ms: self.service_timeout_ms,
            heartbeat_interval_ms: self.heartbeat_interval_ms,
            host_ip: self.host_ip,
            service_response_port: self.service_response_port,
        }
    }

    /// Create a new configuration builder.
    pub fn builder() -> (r: ConfigBuilder)
        ensures
            r.config().is_default(),
    {
        ConfigBuilder { config: Config::default() }
    }
}

impl Default for Config {
    fn default() -> (r: Config)
        ensures
            r.is_default(),
    {
        Config {
            partition: None,
            multicast_addr: DEFAULT_MULTICAST_ADDR,
            msg_discovery_port: DEFAULT_MSG_DISCOVERY_PORT,
            srv_discovery_port: DEFAULT_SRV_DISCOVERY_PORT,
            discovery_timeout_ms: DEFAULT_TIMEOUT_MS,
            service_timeout_ms: DEFAULT_TIMEOUT_MS,
            heartbeat_interval_ms: HEARTBEAT_INTERVAL_MS,
            host_ip: None,
            service_response_port: None,
        }
    }
}

/// Builder for [`Config`].
#[derive(Debug, Clone)]
pub struct ConfigBuilder {
    config: Config,
}

impl ConfigBuilder {
    /// The configuration being built.
    pub closed spec fn config(&self) -> Config {
        self.config
    }

    /// Set the partition name.
    pub fn partition(self, partition: Option<&str>) -> (r: Self)
        ensures
            opt_text(r.config().partition) == opt_str_text(partition),
            r.config().same_as(&Config { partition: r.config().partition, ..self.config() }),
    {
        let mut b = self;
        b.config.partition = match partition {
            Some(p) => Some(p.to_owned()),
            None => None,
        };
        b
    }

    /// Set the multicast address (big-endian `u32`).
    pub fn multicast_addr(self, addr: u32) -> (r: Self)
        ensures
            r.config() == (Config { multicast_addr: addr, ..self.config() }),
    {
        let mut b = self;
        b.config.multicast_addr = addr;
        b
    }

    /// Set the message discovery port.
    pub fn msg_discovery_port(self, port: u16) -> (r: Self)
        ensures
            r.config() == (Config { msg_discovery_port: port, ..self.config() }),
    {
        let mut b = self;
        b.config.msg_discovery_port = port;
        b
    }

    /// Set the service discovery port.
    pub fn srv_discovery_port(self, port: u16) -> (r: Self)
        ensures
            r.config() == (Config { srv_discovery_port: port, ..self.config() }),
    {
        let mut b = self;
        b.config.srv_discovery_port = port;
        b
    }

    /// Set discovery timeout, in milliseconds.
    pub fn discovery_timeout(self, timeout_ms: u64) -> (r: Self)
        ensures
            r.config() == (Config { discovery_timeout_ms: timeout_ms, ..self.config() }),
    {
        let mut b = self;
        b.config.discovery_timeout_ms = timeout_ms;
        b
    }

    /// Set service call timeout, in milliseconds.
    pub fn service_timeout(self, timeout_ms: u64) -> (r: Self)
        ensures
            r.config() == (Config { service_timeout_ms: timeout_ms, ..self.config() }),
    {
        let mut b = self;
        b.config.service_timeout_ms = timeout_ms;
        b
    }

    /// Set heartbeat interval, in milliseconds.
    pub fn heartbeat_interval(self, interval_ms: u64) -> (r: Self)
        ensures
            r.config() == (Config { heartbeat_interval_ms: interval_ms, ..self.config() }),
    {
        let mut b = self;
        b.config.heartbeat_interval_ms = interval_ms;
        b
    }

    /// Set host IP override (big-endian `u32`).
    pub fn host_ip(self, ip: Option<u32>) -> (r: Self)
        ensures
            r.config() == (Config { host_ip: ip, ..self.config() }),
    {
        let mut b = self;
        b.config.host_ip = ip;
        b
    }

    /// Set service response port.
    pub fn service_response_port(self, port: Option<u16>) -> (r: Self)
        ensures
            r.config() == (Config { service_response_port: port, ..self.config() }),
    {
        let mut b = self;
        b.config.service_response_port = port;
        b
    }

    /// Build the configuration.
    pub fn build(self) -> (r: Config)
        ensures
            r == self.config(),
    {
        self.config
    }
}

impl Default for ConfigBuilder {
    fn default() -> (r: ConfigBuilder)
        ensures
            r.config().is_default(),
    {
        ConfigBuilder { config: Config::default() }
    }
}


/// The partition name made of a host name and a user name: `<hostname>:<username>`,
/// with `localhost` for a host name that could not be read.
pub open spec fn default_partition(hostname: Option<Seq<char>>, username: Seq<char>) -> Seq<char> {
    let h = match hostname {
        Some(h) => h,
        None => "localhost"@,
    };
    h + seq![':'] + username
}

/// Calls `hostname::get`: the machine's host name, when it can be read and is UTF-8.
#[verifier::external_body]
fn host_name() -> (r: Option<String>) {
    hostname::get().ok().and_then(|h| h.into_string().ok())
}

/// Calls `whoami::username`: the name of the user running the process.
#[verifier::external_body]
fn user_name() -> (r: String) {
    whoami::username()
}

/// The default partition name from a host name (if it could be read) and a user name.
pub fn default_partition_name(hostname: Option<String>, username: &str) -> (r: String)
    ensures
        r@ == default_partition(opt_text(hostname), username@),
{
    let mut r = match hostname {
        Some(h) => h,
        None => String::from_str("localhost"),
    };
    proof {
        reveal_strlit(":");
    }
    r.append(":");
    r.append(username);
    r
}

impl Config {
    /// Get the effective partition name: the configured one, or `<hostname>:<username>`.
    pub fn effective_partition(&self) -> (r: String)
        ensures
            match self.partition {
                Some(p) => r@ == p@,
                None => exists|h: Option<Seq<char>>, u: Seq<char>| r@ == default_partition(h, u),
            },
    {
        match &self.partition {
            Some(p) => p.clone(),
            None => {
                let h = host_name();
                let u = user_name();
                let r = default_partition_name(h, u.as_str());
                proof {
                    assert(r@ == default_partition(opt_text(h), u@));
                }
                r
            },
        }
    }
}


/// The environment variables a configuration is read from (each `None` when unset
/// or not unicode).
#[derive(Debug)]
pub struct EnvVars {
    /// `GZ_PARTITION`.
    pub partition: Option<String>,
    /// `GZ_DISCOVERY_MULTICAST_IP`.
    pub multicast_ip: Option<String>,
    /// `GZ_DISCOVERY_MSG_PORT`.
    pub msg_port: Option<String>,
    /// `GZ_DISCOVERY_SRV_PORT`.
    pub srv_port: Option<String>,
    /// `GZ_IP`.
    pub host_ip: Option<String>,
    /// `GZ_SERVICE_RESPONSE_PORT`.
    pub service_response_port: Option<String>,
}

/// The setting a variable gives: its parsed value when it is set and parses, else `default`.
pub open spec fn env_setting<T>(var: Option<String>, parse: spec_fn(Seq<char>) -> Option<T>, default: T) -> T {
    match var {
        Some(v) => match parse(v@) {
            Some(x) => x,
            None => default,
        },
        None => default,
    }
}

/// `parse_u16_text` as a function value.
pub open spec fn port_parser() -> spec_fn(Seq<char>) -> Option<u16> {
    |s: Seq<char>| parse_u16_text(s)
}

/// `parse_ipv4_text` as a function value.
pub open spec fn ipv4_parser() -> spec_fn(Seq<char>) -> Option<u32> {
    |s: Seq<char>| parse_ipv4_text(s)
}

impl Config {
    /// Load configuration from the values of the environment variables
    /// `GZ_PARTITION`, `GZ_DISCOVERY_MULTICAST_IP`, `GZ_DISCOVERY_MSG_PORT`,
    /// `GZ_DISCOVERY_SRV_PORT`, `GZ_IP` and `GZ_SERVICE_RESPONSE_PORT`: each one that is
    /// set, and parses, overrides the default; the others are ignored.
    pub fn from_env(vars: &EnvVars) -> (r: Config)
        ensures
            opt_text(r.partition) == opt_text(vars.partition),
            r.multicast_addr == env_setting(vars.multicast_ip, ipv4_parser(), DEFAULT_MULTICAST_ADDR),
            r.msg_discovery_port == env_setting(vars.msg_port, port_parser(), DEFAULT_MSG_DISCOVERY_PORT),
            r.srv_discovery_port == env_setting(vars.srv_port, port_parser(), DEFAULT_SRV_DISCOVERY_PORT),
            r.discovery_timeout_ms == DEFAULT_TIMEOUT_MS,
            r.service_timeout_ms == DEFAULT_TIMEOUT_MS,
            r.heartbeat_interval_ms == HEARTBEAT_INTERVAL_MS,
            r.host_ip == env_setting(
                vars.host_ip,
                |s: Seq<char>|
                    match parse_ipv4_text(s) {
                        Some(x) => Some(Some(x)),
                        None => None,
                    },
                None,
            ),
            r.service_response_port == env_setting(
                vars.service_response_port,
                |s: Seq<char>|
                    match parse_u16_text(s) {
                        Some(x) => Some(Some(x)),
                        None => None,
                    },
                None,
            ),
    {
        let mut config = Config::default();
        if let Some(p) = &vars.partition {
            config.partition = Some(p.clone());
        }
        if let Some(v) = &vars.multicast_ip {
            if let Some(ip) = parse_ipv4(v.as_str()) {
                config.multicast_addr = ip;
            }
        }
        if let Some(v) = &vars.msg_port {
            if let Some(p) = parse_u16(v.as_str()) {
                config.msg_discovery_port = p;
            }
        }
        if let Some(v) = &vars.srv_port {
            if let Some(p) = parse_u16(v.as_str()) {
                config.srv_discovery_port = p;
            }
        }
        if let Some(v) = &vars.host_ip {
            if let Some(ip) = parse_ipv4(v.as_str()) {
                config.host_ip = Some(ip);
            }
        }
        if let Some(v) = &vars.service_response_port {
            if let Some(p) = parse_u16(v.as_str()) {
                config.service_response_port = Some(p);
            }
        }
        config
    }
}

} // verus!
