//! Server configuration: the settings that need a restart to change
//! (startup) and those that may change while the server runs (runtime),
//! with their validation.
use crate::text::{chars_of, decimal, decimal_chars, extend_chars, string_from_chars};
use vstd::prelude::*;

verus! {

/// Complete server configuration, split into startup and runtime parts.
#[derive(Debug, Clone)]
pub struct ServerConfig {
    pub startup: StartupConfig,
    pub runtime: RuntimeConfig,
}

/// Configuration that requires a server restart to take effect.
#[derive(Debug, Clone)]
pub struct StartupConfig {
    /// IP address to bind the FTP control connection.
    pub bind_address: String,
    /// Port for the FTP control connection.
    pub control_port: u16,
    /// Lowest port for passive-mode data connections.
    pub data_port_min: u16,
    /// Upper bound (exclusive) of the passive-mode data ports.
    pub data_port_max: u16,
    /// Root directory of the served file tree.
    pub server_root: String,
    /// Buffer size for file transfers.
    pub buffer_size: usize,
    /// Connection timeout for data channels, in seconds.
    pub connection_timeout_secs: u64,
    /// Maximum retry attempts.
    pub max_retries: usize,
    /// Maximum length of an FTP command line.
    pub max_command_length: usize,
    /// Maximum directory depth.
    pub max_directory_depth: usize,
    /// Maximum user name length, in bytes.
    pub max_username_length: usize,
    /// Lowest client port accepted for active-mode connections.
    pub min_client_port: u16,
}

/// Configuration that can be updated while the server runs.
#[derive(Debug, Clone)]
pub struct RuntimeConfig {
    /// Maximum number of concurrent clients.
    pub max_clients: usize,
    /// Maximum file upload size, in MiB.
    pub max_file_size_mb: u64,
}

/// A configuration that fails validation, with the reason.
#[derive(Debug)]
pub enum ConfigError {
    Message(String),
}

/// The reason a configuration is rejected, if it is: checks are made in
/// order and the first failing one is reported.
pub open spec fn config_problem(c: ServerConfig) -> Option<Seq<char>> {
    if c.startup.control_port == 0 {
        Some("Control port cannot be 0"@)
    } else if c.startup.data_port_min >= c.startup.data_port_max {
        Some("data_port_min must be less than data_port_max"@)
    } else if c.startup.data_port_max - c.startup.data_port_min < 10 {
        Some("Data port range too small (need at least 10 ports)"@)
    } else if c.startup.server_root@.len() == 0 {
        Some("server_root cannot be empty"@)
    } else if c.runtime.max_clients == 0 {
        Some("max_clients must be greater than 0"@)
    } else if c.runtime.max_file_size_mb == 0 {
        Some("max_file_size_mb must be greater than 0"@)
    } else {
        None
    }
}

fn config_error(text: &str) -> (e: ConfigError)
    ensures
        e matches ConfigError::Message(m) && m@ == text@,
{
    ConfigError::Message(string_from_chars(&chars_of(text)))
}

impl ServerConfig {
    /// Splits the configuration into its startup and runtime parts.
    pub fn split(self) -> (r: (StartupConfig, RuntimeConfig))
        ensures
            r.0 == self.startup,
            r.1 == self.runtime,
    {
        (self.startup, self.runtime)
    }

    /// Validates all configuration values.
    pub fn validate(&self) -> (r: Result<(), ConfigError>)
        ensures
            match r {
                Ok(()) => config_problem(*self) is None,
                Err(ConfigError::Message(m)) => config_problem(*self) == Some(m@),
            },
    {
        if self.startup.control_port == 0 {
            return Err(config_error("Control port cannot be 0"));
        }
        if self.startup.data_port_min >= self.startup.data_port_max {
            return Err(config_error("data_port_min must be less than data_port_max"));
        }
        if self.startup.data_port_max - self.startup.data_port_min < 10 {
            return Err(config_error("Data port range too small (need at least 10 ports)"));
        }
        if self.startup.server_root.as_str().is_empty() {
            return Err(config_error("server_root cannot be empty"));
        }
        if self.runtime.max_clients == 0 {
            return Err(config_error("max_clients must be greater than 0"));
        }
        if self.runtime.max_file_size_mb == 0 {
            return Err(config_error("max_file_size_mb must be greater than 0"));
        }
        Ok(())
    }
}

/// One place a configuration may be read from, as the caller found it.
#[derive(Debug)]
pub enum ConfigSource {
    /// Nothing could be read there; the reason.
    Unavailable(String),
    /// A configuration was read there, and turned into settings or not.
    Built(Result<ServerConfig, ConfigError>),
}

/// The position of the first place a configuration was read from.
pub open spec fn first_built(s: Seq<ConfigSource>) -> int
    decreases s.len(),
{
    if s.len() == 0 || s[0] is Built {
        0
    } else {
        1 + first_built(s.drop_first())
    }
}

proof fn lemma_first_built(s: Seq<ConfigSource>)
    requires
        exists|i: int| 0 <= i < s.len() && s[i] is Built,
    ensures
        0 <= first_built(s) < s.len(),
        s[first_built(s)] is Built,
    decreases s.len(),
{
    if !(s[0] is Built) {
        let i = choose|i: int| 0 <= i < s.len() && s[i] is Built;
        assert(s.drop_first()[i - 1] is Built);
        lemma_first_built(s.drop_first());
    }
}

impl ServerConfig {
    /// Loads the configuration from the places tried in order (the
    /// configuration file of the deployment, then that of the working
    /// directory, each with environment overrides): the first place a
    /// configuration was read from decides; its settings must convert and
    /// pass validation. At least one place must have been readable.
    pub fn load(sources: Vec<ConfigSource>) -> (r: Result<ServerConfig, ConfigError>)
        requires
            exists|i: int| 0 <= i < sources@.len() && sources@[i] is Built,
        ensures
            match sources@[first_built(sources@)] {
                ConfigSource::Built(Err(e)) => r == Err::<ServerConfig, ConfigError>(e),
                ConfigSource::Built(Ok(c)) => match config_problem(c) {
                    None => r == Ok::<ServerConfig, ConfigError>(c),
                    Some(m) => r matches Err(ConfigError::Message(x)) && x@ == m,
                },
                ConfigSource::Unavailable(_) => false,
            },
    {
        proof {
            lemma_first_built(sources@);
        }
        let ghost orig = sources@;
        let mut rest = sources;
        let ghost mut skipped: int = 0;
        loop
            invariant
                orig == sources@,
                0 <= skipped,
                rest@ == orig.subrange(skipped, orig.len() as int),
                first_built(orig) == skipped + first_built(rest@),
                0 <= first_built(rest@) < rest@.len(),
                rest@[first_built(rest@)] is Built,
                first_built(orig) < orig.len(),
            decreases rest@.len(),
        {
            let ghost before = rest@;
            let src = rest.remove(0);
            assert(orig[skipped] == before[0]);
            match src {
                ConfigSource::Unavailable(_) => {
                    proof {
                        assert(before.drop_first() =~= rest@);
                        skipped = skipped + 1;
                    }
                    assert(rest@ =~= orig.subrange(skipped, orig.len() as int));
                },
                ConfigSource::Built(b) => {
                    assert(first_built(before) == 0);
                    assert(first_built(orig) == skipped);
                    match b {
                        Err(e) => {
                            return Err(e);
                        },
                        Ok(c) => {
                            match c.validate() {
                                Ok(()) => {
                                    return Ok(c);
                                },
                                Err(e) => {
                                    return Err(e);
                                },
                            }
                        },
                    }
                },
            }
        }
    }
}

/// The `address:port` text of the control socket.
pub open spec fn control_socket_text(c: StartupConfig) -> Seq<char> {
    c.bind_address@ + seq![':'] + decimal(c.control_port as nat)
}

/// A span of time, as `std::time::Duration::from_secs(secs)` makes it.
pub uninterp spec fn duration_of_secs(secs: u64) -> std::time::Duration;

/// Makes a duration of whole seconds with `Duration::from_secs`. Claimed:
/// the result is [`duration_of_secs`] of the argument, a function of it
/// alone; Verus sees nothing inside a `Duration`.
#[verifier::external_body]
fn duration_from_secs(secs: u64) -> (d: std::time::Duration)
    ensures
        d == duration_of_secs(secs),
{
    std::time::Duration::from_secs(secs)
}

impl StartupConfig {
    /// The bind address and control port as a socket address text.
    pub fn control_socket(&self) -> (s: String)
        ensures
            s@ == control_socket_text(*self),
    {
        let mut v = chars_of(self.bind_address.as_str());
        v.push(':');
        extend_chars(&mut v, &decimal_chars(self.control_port as u64));
        string_from_chars(&v)
    }

    /// The port range for passive-mode data connections.
    pub fn data_port_range(&self) -> (r: std::ops::Range<u16>)
        ensures
            r.start == self.data_port_min,
            r.end == self.data_port_max,
    {
        self.data_port_min..self.data_port_max
    }

    /// The server root as a path.
    pub fn server_root_path(&self) -> (p: String)
        ensures
            p@ == self.server_root@,
    {
        self.server_root.clone()
    }

    /// The server root as a string.
    pub fn server_root_str(&self) -> (p: String)
        ensures
            p@ == self.server_root@,
    {
        self.server_root.clone()
    }

    /// The data-channel connection timeout.
    pub fn connection_timeout(&self) -> (d: std::time::Duration)
        ensures
            d == duration_of_secs(self.connection_timeout_secs),
    {
        duration_from_secs(self.connection_timeout_secs)
    }
}

impl RuntimeConfig {
    /// The maximum file size in bytes.
    pub fn max_file_size_bytes(&self) -> (b: u64)
        requires
            self.max_file_size_mb * 1048576 <= u64::MAX,
        ensures
            b == self.max_file_size_mb * 1048576,
    {
        self.max_file_size_mb * 1024 * 1024
    }
}

/// A configuration is accepted exactly when the control port is set, the
/// passive data ports span at least ten ports, the server root is named,
/// and at least one client and a positive file size are allowed.
pub proof fn law_config_accepted_when_sane(c: ServerConfig)
    ensures
        config_problem(c) is None <==> (c.startup.control_port != 0 && c.startup.data_port_min + 10
            <= c.startup.data_port_max && c.startup.server_root@.len() > 0 && c.runtime.max_clients > 0
            && c.runtime.max_file_size_mb > 0),
{
}

} // verus!
