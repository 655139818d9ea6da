use vstd::prelude::*;
use vstd::string::*;
use crate::container::Container;

verus! {

/// Where the configuration file is looked for when neither an argument nor the
/// environment names one.
pub const DEFAULT_CONFIG_PATH: &'static str = "./config.yml";

/// Where per-container state records are kept when neither the configuration
/// file nor the environment names a directory.
pub const DEFAULT_STATE_PATH: &'static str = "./state";

/// Global application configuration.
///
/// The configuration file fills it; `resolve` then completes the API key and the
/// state directory from the environment.
pub struct Config {
    pub steam_api_key: String,
    /// Poll interval, in milliseconds.
    pub check_interval_ms: u64,
    pub containers: Vec<Container>,
    pub state_directory: String,
    pub connect_mode: DockerConnectMode,
}

/// The ways of reaching the Docker daemon.
#[derive(Clone, Copy, Debug, PartialEq, Eq, Structural)]
pub enum DockerConnectMode {
    UnixSocket,
    Http,
    SSL,
}

impl Default for DockerConnectMode {
    fn default() -> (r: Self)
        ensures
            r == DockerConnectMode::UnixSocket,
    {
        DockerConnectMode::UnixSocket
    }
}

/// Why a configuration could not be completed.
#[derive(Clone, Copy, Debug, PartialEq, Eq, Structural)]
pub enum ConfigError {
    /// The API key is in neither the configuration file nor the environment.
    MissingApiKey,
}

/// The configuration path in force: the command-line argument, else the
/// environment variable, else the default.
pub open spec fn config_path_of(arg: Option<Seq<char>>, env: Option<Seq<char>>) -> Seq<char> {
    match arg {
        Some(a) => a,
        None => match env {
            Some(e) => e,
            None => DEFAULT_CONFIG_PATH@,
        },
    }
}

/// Picks the configuration file path: a command-line argument wins over the
/// environment, which wins over the default.
pub fn resolve_config_path(arg: Option<String>, env: Option<String>) -> (r: String)
    ensures
        r@ == config_path_of(
            match arg { Some(a) => Some(a@), None => None },
            match env { Some(e) => Some(e@), None => None },
        ),
{
    match arg {
        Some(a) => a,
        None => match env {
            Some(e) => e,
            None => String::from_str(DEFAULT_CONFIG_PATH),
        },
    }
}

impl Config {
    /// Completes a configuration read from its file: an empty API key is taken
    /// from `api_key_env`, and is an error where that is absent too; an empty
    /// state directory is taken from `state_env`, else it is the default.
    pub fn resolve(self, api_key_env: Option<String>, state_env: Option<String>) -> (r: Result<
        Config,
        ConfigError,
    >)
        ensures
            self.steam_api_key@.len() == 0 && api_key_env is None <==> r is Err,
            r is Err ==> r == Err::<Config, ConfigError>(ConfigError::MissingApiKey),
            r matches Ok(c) ==> {
                &&& c.steam_api_key@ == (if self.steam_api_key@.len() == 0 {
                    api_key_env->Some_0@
                } else {
                    self.steam_api_key@
                })
                &&& c.state_directory@ == (if self.state_directory@.len() != 0 {
                    self.state_directory@
                } else if state_env is Some {
                    state_env->Some_0@
                } else {
                    DEFAULT_STATE_PATH@
                })
                &&& c.check_interval_ms == self.check_interval_ms
                &&& c.containers == self.containers
                &&& c.connect_mode == self.connect_mode
            },
    {
        let mut ret = self;
        if ret.steam_api_key.as_str().unicode_len() == 0 {
            match api_key_env {
                Some(k) => {
                    ret.steam_api_key = k;
                },
                None => {
                    return Err(ConfigError::MissingApiKey);
                },
            }
        }
        if ret.state_directory.as_str().unicode_len() == 0 {
            match state_env {
                Some(p) => {
                    ret.state_directory = p;
                },
                None => {
                    ret.state_directory = String::from_str(DEFAULT_STATE_PATH);
                },
            }
        }
        Ok(ret)
    }

    /// Takes the configuration apart into the values the watcher runs on.
    pub fn consume(self) -> (r: (Vec<Container>, String, u64, String, DockerConnectMode))
        ensures
            r.0 == self.containers,
            r.1 == self.steam_api_key,
            r.2 == self.check_interval_ms,
            r.3 == self.state_directory,
            r.4 == self.connect_mode,
    {
        (
            self.containers,
            self.steam_api_key,
            self.check_interval_ms,
            self.state_directory,
            self.connect_mode,
        )
    }
}

} // verus!
