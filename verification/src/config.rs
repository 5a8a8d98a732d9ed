//! What the client keeps between runs: its tokens and credentials, and
//! where on disk they live.
//!
//! Reading and writing the file is the caller's work; this module says
//! where the file is, which of the files found is to be read, and what a
//! configuration holds.

use crate::text::text_of;
use vstd::prelude::*;
use vstd::string::*;

verus! {

/// The directory of the client under the user's configuration directory.
pub const CONFIG_DIR_NAME: &'static str = "ndl";

/// The name of the configuration file.
pub const CONFIG_FILE_NAME: &'static str = "config.json";

/// The name the configuration file had in earlier versions.
pub const LEGACY_FILE_NAME: &'static str = "config.toml";

/// Why the configuration could not be had.
#[derive(Debug, Clone)]
pub enum ConfigError {
    /// The system names no configuration directory.
    NoConfigDir,
    /// Reading or writing failed.
    Io(String),
    /// The file is no configuration.
    JsonParse(String),
}

impl ConfigError {
    /// The error as a line of text.
    pub open spec fn message_text(self) -> Seq<char> {
        match self {
            ConfigError::NoConfigDir => "Could not determine config directory"@,
            ConfigError::Io(why) => "IO error: "@ + why@,
            ConfigError::JsonParse(why) => "JSON parse error: "@ + why@,
        }
    }

    /// The error as a line of text.
    pub fn message(&self) -> (text: String)
        ensures
            text@ == self.message_text(),
    {
        match self {
            ConfigError::NoConfigDir => String::from_str("Could not determine config directory"),
            ConfigError::Io(why) => {
                let mut text = String::from_str("IO error: ");
                text.append(why.as_str());
                text
            },
            ConfigError::JsonParse(why) => {
                let mut text = String::from_str("JSON parse error: ");
                text.append(why.as_str());
                text
            },
        }
    }
}

/// The account at Bluesky.
#[derive(Debug, Clone)]
pub struct BlueskyConfig {
    pub identifier: String,
    pub password: String,
    /// A session kept from an earlier run.
    pub session: Option<String>,
}

/// What the client keeps between runs.
#[derive(Debug)]
pub struct Config {
    pub access_token: Option<String>,
    pub client_id: Option<String>,
    pub client_secret: Option<String>,
    /// The relay to log in through.
    pub auth_server: Option<String>,
    pub bluesky: Option<BlueskyConfig>,
}

/// The path `base` extended by `name`: the two with a `/` between them.
pub open spec fn path_joined(base: Seq<char>, name: Seq<char>) -> Seq<char> {
    base + "/"@ + name
}

fn join_path(base: &str, name: &str) -> (joined: String)
    ensures
        joined@ == path_joined(base@, name@),
{
    let mut joined = String::from_str(base);
    joined.append("/");
    joined.append(name);
    joined
}

/// `dirs::config_dir`: the user's configuration directory, where the
/// system names one. What it is depends on the system and the environment.
#[verifier::external_body]
fn user_config_dir() -> Option<String> {
    dirs::config_dir().map(|p| p.to_string_lossy().into_owned())
}

/// Which file a configuration is loaded from.
#[derive(Debug, Clone, Copy, PartialEq, Eq, Structural)]
pub enum LoadPlan {
    /// Read the configuration file.
    ReadJson,
    /// Read the file of an earlier version, write it anew as the
    /// configuration file and remove the old one.
    MigrateLegacy,
    /// There is no file: start from an empty configuration.
    UseDefault,
}

impl Config {
    /// An empty configuration.
    pub fn empty() -> (c: Config)
        ensures
            c.access_token is None,
            c.client_id is None,
            c.client_secret is None,
            c.auth_server is None,
            c.bluesky is None,
    {
        Config {
            access_token: None,
            client_id: None,
            client_secret: None,
            auth_server: None,
            bluesky: None,
        }
    }

    /// The client's directory under the configuration directory `home`.
    pub fn dir_in(home: Option<&str>) -> (r: Result<String, ConfigError>)
        ensures
            match home {
                Some(base) => r matches Ok(dir) && dir@ == path_joined(base@, CONFIG_DIR_NAME@),
                None => r matches Err(ConfigError::NoConfigDir),
            },
    {
        match home {
            Some(base) => Ok(join_path(base, CONFIG_DIR_NAME)),
            None => Err(ConfigError::NoConfigDir),
        }
    }

    /// The configuration file under the configuration directory `home`.
    pub fn path_in(home: Option<&str>) -> (r: Result<String, ConfigError>)
        ensures
            match home {
                Some(base) => r matches Ok(path) && path@ == path_joined(
                    path_joined(base@, CONFIG_DIR_NAME@),
                    CONFIG_FILE_NAME@,
                ),
                None => r matches Err(ConfigError::NoConfigDir),
            },
    {
        match Config::dir_in(home) {
            Ok(dir) => Ok(join_path(dir.as_str(), CONFIG_FILE_NAME)),
            Err(e) => Err(e),
        }
    }

    /// The file of earlier versions under the configuration directory
    /// `home`.
    pub fn legacy_path_in(home: Option<&str>) -> (r: Result<String, ConfigError>)
        ensures
            match home {
                Some(base) => r matches Ok(path) && path@ == path_joined(
                    path_joined(base@, CONFIG_DIR_NAME@),
                    LEGACY_FILE_NAME@,
                ),
                None => r matches Err(ConfigError::NoConfigDir),
            },
    {
        match Config::dir_in(home) {
            Ok(dir) => Ok(join_path(dir.as_str(), LEGACY_FILE_NAME)),
            Err(e) => Err(e),
        }
    }

    /// The client's directory under the configuration directory that the
    /// system names for the user; `NoConfigDir` where it names none.
    pub fn dir() -> (r: Result<String, ConfigError>)
        ensures
            exists|home: Option<Seq<char>>| #[trigger] is_dir_under(home, r),
    {
        let home = user_config_dir();
        let r = match &home { Some(base) => Config::dir_in(Some(base.as_str())), None => Config::dir_in(None) };
        assert(is_dir_under(text_of(home), r));
        r
    }

    /// The configuration file under the configuration directory that the
    /// system names for the user; `NoConfigDir` where it names none.
    pub fn path() -> (r: Result<String, ConfigError>)
        ensures
            exists|home: Option<Seq<char>>| #[trigger] is_file_under(home, CONFIG_FILE_NAME@, r),
    {
        let home = user_config_dir();
        let r = match &home { Some(base) => Config::path_in(Some(base.as_str())), None => Config::path_in(None) };
        assert(is_file_under(text_of(home), CONFIG_FILE_NAME@, r));
        r
    }

    /// The file of earlier versions under the configuration directory that
    /// the system names for the user; `NoConfigDir` where it names none.
    pub fn legacy_path() -> (r: Result<String, ConfigError>)
        ensures
            exists|home: Option<Seq<char>>| #[trigger] is_file_under(home, LEGACY_FILE_NAME@, r),
    {
        let home = user_config_dir();
        let r = match &home { Some(base) => Config::legacy_path_in(Some(base.as_str())), None => Config::legacy_path_in(None) };
        assert(is_file_under(text_of(home), LEGACY_FILE_NAME@, r));
        r
    }

    /// Which file to load from: the configuration file where it exists,
    /// else the file of an earlier version where that exists, else none.
    pub fn load_plan(json_exists: bool, legacy_exists: bool) -> (plan: LoadPlan)
        ensures
            plan == if json_exists {
                LoadPlan::ReadJson
            } else if legacy_exists {
                LoadPlan::MigrateLegacy
            } else {
                LoadPlan::UseDefault
            },
    {
        if json_exists {
            LoadPlan::ReadJson
        } else if legacy_exists {
            LoadPlan::MigrateLegacy
        } else {
            LoadPlan::UseDefault
        }
    }

    /// Whether the credentials of the client at the provider are there.
    pub fn has_credentials(&self) -> (r: bool)
        ensures
            r == (self.client_id is Some && self.client_secret is Some),
    {
        self.client_id.is_some() && self.client_secret.is_some()
    }

    /// Whether an account at Bluesky is configured.
    pub fn has_bluesky(&self) -> (r: bool)
        ensures
            r == (self.bluesky is Some),
    {
        self.bluesky.is_some()
    }

    /// Whether a token for Threads is there.
    pub fn has_threads(&self) -> (r: bool)
        ensures
            r == (self.access_token is Some),
    {
        self.access_token.is_some()
    }
}

/// Whether `r` is what looking for the client's directory under `home`
/// gives: the directory `ndl` in it, or `NoConfigDir` where there is no
/// `home`.
pub open spec fn is_dir_under(home: Option<Seq<char>>, r: Result<String, ConfigError>) -> bool {
    match home {
        Some(base) => r matches Ok(dir) && dir@ == path_joined(base, CONFIG_DIR_NAME@),
        None => r matches Err(ConfigError::NoConfigDir),
    }
}

/// Whether `r` is what looking for the file `name` of the client under
/// `home` gives: that file in the directory `ndl` in it, or `NoConfigDir`
/// where there is no `home`.
pub open spec fn is_file_under(
    home: Option<Seq<char>>,
    name: Seq<char>,
    r: Result<String, ConfigError>,
) -> bool {
    match home {
        Some(base) => r matches Ok(path) && path@ == path_joined(
            path_joined(base, CONFIG_DIR_NAME@),
            name,
        ),
        None => r matches Err(ConfigError::NoConfigDir),
    }
}

/// The relay that logins go through where nothing else is configured.
pub const DEFAULT_OAUTH_ENDPOINT: &'static str = "https://ndl.pgray.dev";

/// Said where the local flow is asked for and no client id is to be had.
pub const MISSING_CLIENT_ID: &'static str =
    "Missing client_id. Set NDL_CLIENT_ID or add to config.";

/// Said where the local flow is asked for and no client secret is to be
/// had.
pub const MISSING_CLIENT_SECRET: &'static str =
    "Missing client_secret. Set NDL_CLIENT_SECRET or add to config.";

/// How a login is to be run.
#[derive(Debug, Clone)]
pub enum LoginPlan {
    /// Through the relay at this address.
    Hosted { auth_server: String },
    /// By the local flow, with these credentials.
    Local { client_id: String, client_secret: String },
}

/// Mathematical value of a [`LoginPlan`].
pub enum LoginPlanView {
    Hosted { auth_server: Seq<char> },
    Local { client_id: Seq<char>, client_secret: Seq<char> },
}

impl View for LoginPlan {
    type V = LoginPlanView;

    open spec fn view(&self) -> LoginPlanView {
        match self {
            LoginPlan::Hosted { auth_server } => LoginPlanView::Hosted { auth_server: auth_server@ },
            LoginPlan::Local { client_id, client_secret } => LoginPlanView::Local {
                client_id: client_id@,
                client_secret: client_secret@,
            },
        }
    }
}

/// The first of two texts that is there.
pub open spec fn first_of(a: Option<Seq<char>>, b: Option<Seq<char>>) -> Option<Seq<char>> {
    match a {
        Some(text) => Some(text),
        None => b,
    }
}

/// How a login is to be run, or why it cannot be.
///
/// The relay is the one the environment names, else the configured one,
/// else [`DEFAULT_OAUTH_ENDPOINT`]. An empty address asks for the local
/// flow. That needs a client id and a client secret, each from the
/// configuration or else from the environment; the id is looked for first.
pub open spec fn planned_login(
    env_endpoint: Option<Seq<char>>,
    configured_server: Option<Seq<char>>,
    configured_id: Option<Seq<char>>,
    configured_secret: Option<Seq<char>>,
    env_id: Option<Seq<char>>,
    env_secret: Option<Seq<char>>,
) -> Result<LoginPlanView, Seq<char>> {
    let server = match first_of(env_endpoint, configured_server) {
        Some(address) => address,
        None => DEFAULT_OAUTH_ENDPOINT@,
    };
    if server.len() > 0 {
        Ok(LoginPlanView::Hosted { auth_server: server })
    } else {
        match first_of(configured_id, env_id) {
            None => Err(MISSING_CLIENT_ID@),
            Some(client_id) => match first_of(configured_secret, env_secret) {
                None => Err(MISSING_CLIENT_SECRET@),
                Some(client_secret) => Ok(LoginPlanView::Local { client_id, client_secret }),
            },
        }
    }
}

/// The view of a plan or of the reason why there is none.
pub open spec fn plan_result_view(r: Result<LoginPlan, String>) -> Result<LoginPlanView, Seq<char>> {
    match r {
        Ok(plan) => Ok(plan@),
        Err(why) => Err(why@),
    }
}

fn first_text(a: &Option<String>, b: Option<String>) -> (r: Option<String>)
    ensures
        text_of(r) == first_of(text_of(*a), text_of(b)),
{
    match a {
        Some(text) => Some(text.clone()),
        None => b,
    }
}

impl Config {
    /// Decides how a login is to be run, from the configuration and from
    /// what the environment says: the relay's address, the client id and
    /// the client secret, each where it is set.
    pub fn plan_login(
        &self,
        env_endpoint: Option<String>,
        env_client_id: Option<String>,
        env_client_secret: Option<String>,
    ) -> (r: Result<LoginPlan, String>)
        ensures
            plan_result_view(r) == planned_login(
                text_of(env_endpoint),
                text_of(self.auth_server),
                text_of(self.client_id),
                text_of(self.client_secret),
                text_of(env_client_id),
                text_of(env_client_secret),
            ),
    {
        let server = match env_endpoint {
            Some(address) => address,
            None => match &self.auth_server {
                Some(address) => address.clone(),
                None => String::from_str(DEFAULT_OAUTH_ENDPOINT),
            },
        };
        if !server.as_str().is_empty() {
            return Ok(LoginPlan::Hosted { auth_server: server });
        }
        match first_text(&self.client_id, env_client_id) {
            None => Err(String::from_str(MISSING_CLIENT_ID)),
            Some(client_id) => match first_text(&self.client_secret, env_client_secret) {
                None => Err(String::from_str(MISSING_CLIENT_SECRET)),
                Some(client_secret) => Ok(LoginPlan::Local { client_id, client_secret }),
            },
        }
    }

    /// Writes a login into the configuration: the token, and with the
    /// local flow the credentials it ran with. The relay's address and the
    /// account at Bluesky are left as they are.
    pub fn record_login(&mut self, plan: &LoginPlan, access_token: String)
        ensures
            text_of(final(self).access_token) == Some(access_token@),
            text_of(final(self).client_id) == match plan {
                LoginPlan::Local { client_id, client_secret } => Some(client_id@),
                LoginPlan::Hosted { auth_server } => text_of(old(self).client_id),
            },
            text_of(final(self).client_secret) == match plan {
                LoginPlan::Local { client_id, client_secret } => Some(client_secret@),
                LoginPlan::Hosted { auth_server } => text_of(old(self).client_secret),
            },
            final(self).auth_server == old(self).auth_server,
            final(self).bluesky == old(self).bluesky,
    {
        match plan {
            LoginPlan::Local { client_id, client_secret } => {
                self.client_id = Some(client_id.clone());
                self.client_secret = Some(client_secret.clone());
            },
            LoginPlan::Hosted { auth_server } => {},
        }
        self.access_token = Some(access_token);
    }

    /// Takes the token out of the configuration: everything else stays.
    pub fn forget_login(&mut self)
        ensures
            final(self).access_token is None,
            final(self).client_id == old(self).client_id,
            final(self).client_secret == old(self).client_secret,
            final(self).auth_server == old(self).auth_server,
            final(self).bluesky == old(self).bluesky,
    {
        self.access_token = None;
    }
}

} // verus!
