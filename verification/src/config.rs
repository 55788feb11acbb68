//! The daemon's configuration: where the remote service is, and how
//! environment variables override what a configuration file said.

use crate::text::{
    has_prefix,
    lowercase,
    replace,
    replaced,
    same,
    to_lowercase,
    to_uppercase,
    uppercase,
};
use vstd::prelude::*;
use vstd::string::StringExecFns;

verus! {

/// The prefix of every environment variable that the configuration reads.
pub open spec fn env_prefix() -> Seq<char> {
    "POLYDRIVE_"@
}

/// The scheme used when the configuration names none.
pub open spec fn default_scheme() -> Seq<char> {
    "http"@
}

/// Where the remote service listens.
#[derive(Debug, Clone, PartialEq)]
pub struct ServerConfig {
    /// Host and port, as in `localhost:9000`.
    pub host: String,
    /// The scheme of the requests, as in `http`.
    pub scheme: Option<String>,
}

pub struct ServerConfigView {
    pub host: Seq<char>,
    pub scheme: Option<Seq<char>>,
}

impl View for ServerConfig {
    type V = ServerConfigView;

    open spec fn view(&self) -> ServerConfigView {
        ServerConfigView { host: self.host@, scheme: self.scheme.deep_view() }
    }
}

#[derive(Debug, Clone, PartialEq)]
pub struct Config {
    /// The server configuration block.
    pub server: ServerConfig,
}

pub struct ConfigView {
    pub server: ServerConfigView,
}

impl View for Config {
    type V = ConfigView;

    open spec fn view(&self) -> ConfigView {
        ConfigView { server: self.server@ }
    }
}

impl DeepView for Config {
    type V = ConfigView;

    open spec fn deep_view(&self) -> ConfigView {
        self@
    }
}

impl ServerConfigView {
    /// The service on this machine, port 8090, over `http`.
    pub open spec fn standard() -> ServerConfigView {
        ServerConfigView { host: "localhost:8090"@, scheme: Some("http"@) }
    }
}

impl ConfigView {
    pub open spec fn standard() -> ConfigView {
        ConfigView { server: ServerConfigView::standard() }
    }

    /// The address of the server: scheme, `://`, host.
    pub open spec fn server_address(self) -> Seq<char> {
        let scheme = match self.server.scheme {
            Some(s) => s,
            None => default_scheme(),
        };
        scheme + "://"@ + self.server.host
    }

    /// This configuration after the setting `key` got the value `value`.
    /// A key that names no setting changes nothing.
    pub open spec fn overridden(self, key: Seq<char>, value: Seq<char>) -> ConfigView {
        if key == "server.host"@ {
            ConfigView { server: ServerConfigView { host: value, scheme: self.server.scheme } }
        } else if key == "server.scheme"@ {
            ConfigView { server: ServerConfigView { host: self.server.host, scheme: Some(value) } }
        } else {
            self
        }
    }

    /// This configuration after the variables of `env` were applied in
    /// order: each variable whose name starts with the prefix overrides the
    /// setting that its name stands for.
    pub open spec fn with_env(self, env: Seq<(Seq<char>, Seq<char>)>) -> ConfigView
        decreases env.len(),
    {
        if env.len() == 0 {
            self
        } else {
            let before = self.with_env(env.drop_last());
            let (name, value) = env.last();
            if env_prefix().is_prefix_of(name) {
                before.overridden(env_key(name), value)
            } else {
                before
            }
        }
    }
}

/// The configuration key that an environment variable's name stands for:
/// the prefix removed, `_` turned into `.`, in lowercase.
pub open spec fn env_key(name: Seq<char>) -> Seq<char> {
    lowercase(replaced(replaced(name, env_prefix(), ""@), "_"@, "."@))
}

/// The name that an uppercase key has as an environment variable: the
/// prefix, then the key with `.` turned into `_`.
pub open spec fn env_name_of_upper(upper: Seq<char>) -> Seq<char> {
    env_prefix() + replaced(upper, "."@, "_"@)
}

/// The environment variable's name for a configuration key.
pub open spec fn env_name(key: Seq<char>) -> Seq<char> {
    env_name_of_upper(uppercase(key))
}

/// Whether `key` names a setting that a variable can override.
pub open spec fn is_setting(key: Seq<char>) -> bool {
    key == "server.host"@ || key == "server.scheme"@
}

/// The variables of `env` that carry the prefix and override nothing,
/// each by the name that its key has as a variable, in their order.
pub open spec fn ineffective(env: Seq<(Seq<char>, Seq<char>)>) -> Seq<Seq<char>>
    decreases env.len(),
{
    if env.len() == 0 {
        Seq::empty()
    } else {
        let before = ineffective(env.drop_last());
        let name = env.last().0;
        if env_prefix().is_prefix_of(name) && !is_setting(env_key(name)) {
            before.push(env_name(env_key(name)))
        } else {
            before
        }
    }
}

/// What `Config::load` returns.
pub open spec fn loaded(
    file: Option<ConfigView>,
    override_with_env: Option<bool>,
    env: Seq<(Seq<char>, Seq<char>)>,
) -> ConfigView {
    let base = match file {
        Some(c) => c,
        None => ConfigView::standard(),
    };
    if override_with_env == Some(true) {
        base.with_env(env)
    } else {
        base
    }
}

impl Default for ServerConfig {
    fn default() -> (r: Self)
        ensures
            r@ == ServerConfigView::standard(),
    {
        ServerConfig {
            host: String::from_str("localhost:8090"),
            scheme: Some(String::from_str("http")),
        }
    }
}

impl Default for Config {
    fn default() -> (r: Self)
        ensures
            r@ == ConfigView::standard(),
    {
        Config { server: ServerConfig::default() }
    }
}

impl Config {
    /// Builds the configuration from what a configuration file held, if one
    /// was read, and from the process environment. Without a file the
    /// standard configuration is the base. Where `override_with_env` is
    /// `Some(true)`, the variables of `env` (name and value, in the order
    /// given) are applied on top of it.
    pub fn load(file: Option<Config>, override_with_env: Option<bool>, env: &Vec<(String, String)>) -> (r:
        Config)
        ensures
            r@ == loaded(file.deep_view(), override_with_env, env.deep_view()),
    {
        let mut config = match file {
            Some(c) => c,
            None => Config::default(),
        };
        if let Some(true) = override_with_env {
            let ghost base = config@;
            let mut i: usize = 0;
            proof {
                assert(env.deep_view().take(0) =~= Seq::empty());
            }
            while i < env.len()
                invariant
                    i <= env.len(),
                    config@ == base.with_env(env.deep_view().take(i as int)),
                decreases env.len() - i,
            {
                let name = env[i].0.as_str();
                let value = env[i].1.as_str();
                proof {
                    let done = env.deep_view().take(i + 1);
                    assert(done.drop_last() =~= env.deep_view().take(i as int));
                    assert(done.last() == (name@, value@));
                }
                if has_prefix(name, "POLYDRIVE_") {
                    let key = Config::env_to_key(name);
                    config.apply_override(key.as_str(), value);
                }
                i += 1;
            }
            proof {
                assert(env.deep_view().take(env.len() as int) =~= env.deep_view());
            }
        }
        config
    }

    /// The variables of `env` that look like overrides and have no effect
    /// on the configuration, for the operator to be warned of.
    pub fn ineffective_overrides(env: &Vec<(String, String)>) -> (r: Vec<String>)
        ensures
            r.deep_view() == ineffective(env.deep_view()),
    {
        let mut names: Vec<String> = Vec::new();
        let mut i: usize = 0;
        proof {
            assert(env.deep_view().take(0) =~= Seq::empty());
            assert(names.deep_view() =~= Seq::<Seq<char>>::empty());
        }
        while i < env.len()
            invariant
                i <= env.len(),
                names.deep_view() == ineffective(env.deep_view().take(i as int)),
            decreases env.len() - i,
        {
            let name = env[i].0.as_str();
            proof {
                let done = env.deep_view().take(i + 1);
                assert(done.drop_last() =~= env.deep_view().take(i as int));
                assert(done.last().0 == name@);
            }
            if has_prefix(name, "POLYDRIVE_") {
                let key = Config::env_to_key(name);
                if !same(key.as_str(), "server.host") && !same(key.as_str(), "server.scheme") {
                    let shown = Config::key_to_env(key.as_str());
                    let ghost before = names.deep_view();
                    names.push(shown);
                    proof {
                        assert(names.deep_view() =~= before.push(shown@));
                    }
                }
            }
            i += 1;
        }
        proof {
            assert(env.deep_view().take(env.len() as int) =~= env.deep_view());
        }
        names
    }

    /// Gives the setting `key` the value `value`, and says whether `key`
    /// names a setting.
    pub fn apply_override(&mut self, key: &str, value: &str) -> (applied: bool)
        ensures
            final(self)@ == old(self)@.overridden(key@, value@),
            applied == is_setting(key@),
    {
        if same(key, "server.host") {
            self.server.host = String::from_str(value);
            true
        } else if same(key, "server.scheme") {
            self.server.scheme = Some(String::from_str(value));
            true
        } else {
            false
        }
    }

    /// The address of the server: scheme, `://`, host; the scheme is `http`
    /// where none is set.
    pub fn get_server_address(&self) -> (r: String)
        ensures
            r@ == self@.server_address(),
    {
        let mut address = match &self.server.scheme {
            Some(scheme) => String::from_str(scheme.as_str()),
            None => String::from_str("http"),
        };
        address.append("://");
        address.append(self.server.host.as_str());
        address
    }

    /// Turns the name of an environment variable into the configuration key
    /// that it stands for: `POLYDRIVE_SERVER_HOST` gives `server.host`.
    pub fn env_to_key(key: &str) -> (r: String)
        ensures
            r@ == env_key(key@),
    {
        let bare = replace(key, "POLYDRIVE_", "");
        let dotted = replace(bare.as_str(), "_", ".");
        to_lowercase(dotted.as_str())
    }

    /// Turns a configuration key into the name of its environment variable:
    /// `server.host` gives `POLYDRIVE_SERVER_HOST`.
    pub fn key_to_env(key: &str) -> (r: String)
        ensures
            r@ == env_name(key@),
    {
        let upper = to_uppercase(key);
        Config::upper_key_to_env(upper.as_str())
    }

    /// The environment variable's name for a key that is already in
    /// uppercase: the prefix, then the key with every `.` turned into `_`.
    pub fn upper_key_to_env(upper: &str) -> (r: String)
        ensures
            r@ == env_name_of_upper(upper@),
    {
        let mut name = String::from_str("POLYDRIVE_");
        let joined = replace(upper, ".", "_");
        name.append(joined.as_str());
        name
    }
}

} // verus!
