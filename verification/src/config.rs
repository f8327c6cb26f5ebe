//! Runtime configuration, loadable from `config.local.toml`.

use vstd::prelude::*;
use vstd::string::*;

verus! {

/// Name of the optional configuration file.
pub const CONFIG_FILE_NAME: &'static str = "config.local.toml";

/// Qualifier, organization and application name under which the user's
/// configuration and data directories are found.
pub const PROJECT_QUALIFIER: &'static str = "com";

/// See [`PROJECT_QUALIFIER`].
pub const PROJECT_ORGANIZATION: &'static str = "FilipNone";

/// See [`PROJECT_QUALIFIER`].
pub const PROJECT_APPLICATION: &'static str = "JanitorAI Grabber";

/// Name of the directory under the system temporary directory that holds
/// the captures when no user data directory is known.
pub const TEMP_DATA_DIR_NAME: &'static str = "janitorai-grabber";

/// How the chat-completions endpoint treats a request.
#[derive(Debug, Clone, Copy, PartialEq, Eq, Structural)]
pub enum Mode {
    /// Store the request and answer with a stub; contact nothing upstream.
    Capture,
    /// Forward the request upstream and store both halves.
    Forward,
}

/// The word the UI shows for a mode.
pub open spec fn mode_label(m: Mode) -> Seq<char> {
    match m {
        Mode::Capture => "capture"@,
        Mode::Forward => "forward"@,
    }
}

impl Mode {
    /// The word the UI shows for this mode.
    pub fn label(&self) -> (res: &'static str)
        ensures
            res@ == mode_label(*self),
    {
        match self {
            Mode::Capture => "capture",
            Mode::Forward => "forward",
        }
    }
}

/// Runtime configuration.
#[derive(Debug)]
pub struct Config {
    /// Local proxy bind address. Loopback only by default.
    pub listen_addr: String,
    /// Upstream base URL that forwarded traffic goes to.
    pub upstream_base_url: String,
    /// Where captures are stored (defaults to the OS user-data directory).
    pub data_dir: Option<String>,
    /// How chat completions are handled.
    pub mode: Mode,
}

/// The built-in configuration: loopback port 8817, the OpenAI API upstream,
/// the default data directory, capture mode.
pub open spec fn is_default_config(c: Config) -> bool {
    &&& c.listen_addr@ == "127.0.0.1:8817"@
    &&& c.upstream_base_url@ == "https://api.openai.com"@
    &&& c.data_dir is None
    &&& c.mode == Mode::Capture
}

/// The first configuration that loaded, if any.
pub open spec fn first_loaded(candidates: Seq<Option<Config>>) -> Option<Config>
    decreases candidates.len(),
{
    if candidates.len() == 0 {
        None
    } else if candidates[0] is Some {
        candidates[0]
    } else {
        first_loaded(candidates.drop_first())
    }
}

/// The data directory: the configured one, else the user's data directory
/// for this application, else the fallback under the temporary directory.
pub open spec fn chosen_data_dir(
    custom: Option<Seq<char>>,
    user_dir: Option<Seq<char>>,
    fallback: Seq<char>,
) -> Seq<char> {
    match custom {
        Some(d) => d,
        None => match user_dir {
            Some(d) => d,
            None => fallback,
        },
    }
}

impl Default for Config {
    fn default() -> (res: Self)
        ensures
            is_default_config(res),
    {
        Config {
            listen_addr: String::from_str("127.0.0.1:8817"),
            upstream_base_url: String::from_str("https://api.openai.com"),
            data_dir: None,
            mode: Mode::Capture,
        }
    }
}

impl Config {
    /// The configuration in effect given what each candidate file yielded,
    /// in order of preference (`None` where a file is missing, unreadable or
    /// malformed): the first one that loaded, else the built-in defaults.
    pub fn from_candidates(candidates: Vec<Option<Config>>) -> (res: Config)
        ensures
            match first_loaded(candidates@) {
                Some(c) => res == c,
                None => is_default_config(res),
            },
    {
        let mut rest = candidates;
        let ghost all = rest@;
        while rest.len() > 0
            invariant
                all == candidates@,
                first_loaded(all) == first_loaded(rest@),
            decreases rest.len(),
        {
            let ghost before = rest@;
            let c = rest.remove(0);
            assert(rest@ =~= before.drop_first());
            assert(before[0] == c);
            match c {
                Some(cfg) => {
                    return cfg;
                },
                None => {},
            }
        }
        Config::default()
    }

    /// Where captures live: the configured directory, else `user_data_dir`
    /// (the user's data directory for this application, when the platform
    /// has one), else `fallback` (under the temporary directory).
    pub fn data_dir(&self, user_data_dir: Option<String>, fallback: String) -> (res: String)
        ensures
            res@ == chosen_data_dir(self.data_dir.deep_view(), user_data_dir.deep_view(), fallback@),
    {
        match &self.data_dir {
            Some(custom) => custom.clone(),
            None => match user_data_dir {
                Some(d) => d,
                None => fallback,
            },
        }
    }
}

} // verus!
