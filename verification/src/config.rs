//! The client's configuration: where the service is, who calls it, and which
//! transport each operation takes.

use vstd::prelude::*;
use vstd::string::*;

verus! {

/// The settings of one client.
#[derive(Clone, Debug)]
pub struct Config {
    pub host: String,
    pub port: u16,
    pub user: String,
    pub secretkey: String,
    pub use_ws_for_learn: bool,
    pub use_ws_for_predit: bool,
}

/// Why no configuration could be had.
#[derive(Clone, Debug)]
pub enum ConfigError {
    /// The file could not be read.
    ReadError(String),
    /// The file's text is no configuration.
    ParseError(String),
    /// A configuration was set before.
    AlreadyInitialized,
    /// No file was named and none was found.
    NotFound(String),
}

/// A place where a configuration file may be, and whether a file is there.
#[derive(Clone, Debug)]
pub struct Candidate {
    pub path: String,
    pub exists: bool,
}

impl Config {
    /// Get the host from the configuration.
    pub fn host(&self) -> (r: &str)
        ensures
            r@ == self.host@,
    {
        self.host.as_str()
    }

    /// Get the port from the configuration.
    pub fn port(&self) -> (r: u16)
        ensures
            r == self.port,
    {
        self.port
    }

    /// Get the user from the configuration.
    pub fn user(&self) -> (r: &str)
        ensures
            r@ == self.user@,
    {
        self.user.as_str()
    }

    /// Get the secret key: the one given from outside where there is one,
    /// else the one of the configuration.
    pub fn secretkey(&self, given: Option<String>) -> (r: String)
        ensures
            r@ == match given {
                Some(key) => key@,
                None => self.secretkey@,
            },
    {
        match given {
            Some(key) => key,
            None => self.secretkey.clone(),
        }
    }

    /// Check if WebSocket should be used for learn operations.
    pub fn use_ws_for_learn(&self) -> (r: bool)
        ensures
            r == self.use_ws_for_learn,
    {
        self.use_ws_for_learn
    }

    /// Check if WebSocket should be used for predict operations.
    pub fn use_ws_for_predit(&self) -> (r: bool)
        ensures
            r == self.use_ws_for_predit,
    {
        self.use_ws_for_predit
    }
}

/// The paths of `candidates`, joined by a comma and a space.
pub open spec fn joined_paths(candidates: Seq<Candidate>) -> Seq<char>
    decreases candidates.len(),
{
    if candidates.len() == 0 {
        Seq::empty()
    } else if candidates.len() == 1 {
        candidates[0].path@
    } else {
        joined_paths(candidates.drop_last()) + ", "@ + candidates.last().path@
    }
}

/// The message that tells where a configuration was looked for.
pub open spec fn not_found_text(candidates: Seq<Candidate>) -> Seq<char> {
    "No configuration file found. Tried:\n  - --config flag\n  - SML_CONFIG_FILE environment variable\n  - Default locations: "@
        + joined_paths(candidates)
}

/// The index of the first candidate at which a file is, or the number of
/// candidates where there is none.
pub open spec fn first_existing(candidates: Seq<Candidate>) -> int
    decreases candidates.len(),
{
    if candidates.len() == 0 || candidates[0].exists {
        0
    } else {
        1 + first_existing(candidates.drop_first())
    }
}

/// The configuration file to load: the one named on the command line; else
/// the one named in the environment; else the first default location at
/// which a file is. `None` where there is no such file.
pub open spec fn selected_path(
    flag: Option<Seq<char>>,
    environment: Option<Seq<char>>,
    candidates: Seq<Candidate>,
) -> Option<Seq<char>> {
    match flag {
        Some(path) => Some(path),
        None => match environment {
            Some(path) => Some(path),
            None => if first_existing(candidates) < candidates.len() {
                Some(candidates[first_existing(candidates)].path@)
            } else {
                None
            },
        },
    }
}

proof fn lemma_first_existing(candidates: Seq<Candidate>, at: int)
    requires
        0 <= at <= candidates.len(),
        forall|k: int| 0 <= k < at ==> !(#[trigger] candidates[k]).exists,
        at < candidates.len() ==> candidates[at].exists,
    ensures
        first_existing(candidates) == at,
    decreases at,
{
    if at > 0 {
        lemma_first_existing(candidates.drop_first(), at - 1);
    }
}

fn not_found_message(candidates: &Vec<Candidate>) -> (r: String)
    ensures
        r@ == not_found_text(candidates@),
{
    let mut out = String::new();
    out.append(
        "No configuration file found. Tried:\n  - --config flag\n  - SML_CONFIG_FILE environment variable\n  - Default locations: ",
    );
    let ghost head = out@;
    let n: usize = candidates.len();
    let mut i: usize = 0;
    while i < n
        invariant
            i <= n == candidates@.len(),
            out@ == head + joined_paths(candidates@.take(i as int)),
        decreases n - i,
    {
        assert(candidates@.take(i + 1).drop_last() =~= candidates@.take(i as int));
        if i > 0 {
            out.append(", ");
        }
        out.append(candidates[i].path.as_str());
        i += 1;
    }
    assert(candidates@.take(n as int) =~= candidates@);
    out
}

/// Chooses the configuration file to load. What was named on the command
/// line comes first, then what the environment names, then the default
/// locations in their order. Where nothing is named and no default is there,
/// the error lists the defaults.
pub fn select_config_path(
    flag: Option<String>,
    environment: Option<String>,
    candidates: &Vec<Candidate>,
) -> (r: Result<String, ConfigError>)
    ensures
        match r {
            Ok(path) => selected_path(
                option_text(flag),
                option_text(environment),
                candidates@,
            ) == Some(path@),
            Err(e) => {
                &&& selected_path(option_text(flag), option_text(environment), candidates@) is None
                &&& e matches ConfigError::NotFound(text)
                &&& text@ == not_found_text(candidates@)
            },
        },
{
    if let Some(path) = flag {
        return Ok(path);
    }
    if let Some(path) = environment {
        return Ok(path);
    }
    let n: usize = candidates.len();
    let mut i: usize = 0;
    while i < n
        invariant
            i <= n == candidates@.len(),
            flag is None,
            environment is None,
            forall|k: int| 0 <= k < i ==> !(#[trigger] candidates@[k]).exists,
        decreases n - i,
    {
        if candidates[i].exists {
            proof {
                lemma_first_existing(candidates@, i as int);
            }
            return Ok(candidates[i].path.clone());
        }
        i += 1;
    }
    proof {
        lemma_first_existing(candidates@, n as int);
    }
    Err(ConfigError::NotFound(not_found_message(candidates)))
}

/// The view of an optional owned string.
pub open spec fn option_text(field: Option<String>) -> Option<Seq<char>> {
    match field {
        Some(text) => Some(text@),
        None => None,
    }
}

impl ConfigError {
    /// The message of this error.
    pub open spec fn message_text(self) -> Seq<char> {
        match self {
            ConfigError::ReadError(why) => "Failed to read config file: "@ + why@,
            ConfigError::ParseError(why) => "Failed to parse config: "@ + why@,
            ConfigError::AlreadyInitialized => "Config already initialized"@,
            ConfigError::NotFound(text) => text@,
        }
    }

    /// Says what went wrong.
    pub fn message(&self) -> (r: String)
        ensures
            r@ == self.message_text(),
    {
        let mut out = String::new();
        match self {
            ConfigError::ReadError(why) => {
                out.append("Failed to read config file: ");
                out.append(why.as_str());
            },
            ConfigError::ParseError(why) => {
                out.append("Failed to parse config: ");
                out.append(why.as_str());
            },
            ConfigError::AlreadyInitialized => {
                out.append("Config already initialized");
            },
            ConfigError::NotFound(text) => {
                out.append(text.as_str());
            },
        }
        out
    }
}

} // verus!
