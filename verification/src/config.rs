//! The layered configuration: process-wide settings plus named server
//! blocks, each bound to one backend configuration. Built once per
//! invocation, overridden at most twice, then read-only.

use vstd::prelude::*;
use vstd::string::StringExecFns;

use crate::overrides::{override_option_with_option_none, spec_override_option, spec_sentinel};

verus! {

/// One backend's settings; exactly one variant is active at a time.
#[derive(Debug, Clone)]
pub enum BackendConfig {
    Generic(crate::generic::Backend),
    Vpaste(crate::vpaste::Backend),
    Haste(crate::haste::Backend),
    Bpaste(crate::bpaste::Backend),
    Fiche(crate::fiche::Backend),
}

/// Process-scoped settings.
#[derive(Debug, Clone)]
pub struct MainConfig {
    pub server: Option<String>,
    pub histfile: Option<String>,
}

/// A name bound to one backend configuration.
#[derive(Debug, Clone)]
pub struct ServerBlock {
    pub name: String,
    pub backend: BackendConfig,
}

/// The whole configuration of one invocation.
#[derive(Debug, Clone)]
pub struct Config {
    pub main: MainConfig,
    pub servers: Vec<ServerBlock>,
}

/// The compiled-in configuration: two built-in server blocks pointing at
/// two well-known public services, the first of them the default server.
pub open spec fn spec_is_default_config(c: Config) -> bool {
    &&& c.main.server matches Option::Some(s) && s@ == "paste_rs"@
    &&& c.main.histfile is None
    &&& c.servers@.len() == 2
    &&& c.servers@[0].name@ == "paste_rs"@
    &&& (c.servers@[0].backend matches BackendConfig::Generic(g) && g.url@ == "https://paste.rs/"@)
    &&& c.servers@[1].name@ == "vpaste"@
    &&& (c.servers@[1].backend matches BackendConfig::Vpaste(v) && v.url@ == "http://vpaste.net/"@)
}

impl Default for Config {
    fn default() -> (r: Config)
        ensures
            spec_is_default_config(r),
    {
        let mut servers: Vec<ServerBlock> = Vec::new();
        servers.push(
            ServerBlock {
                name: "paste_rs".to_owned(),
                backend: BackendConfig::Generic(
                    crate::generic::Backend { url: "https://paste.rs/".to_owned() },
                ),
            },
        );
        servers.push(
            ServerBlock {
                name: "vpaste".to_owned(),
                backend: BackendConfig::Vpaste(
                    crate::vpaste::Backend { url: "http://vpaste.net/".to_owned() },
                ),
            },
        );
        Config {
            main: MainConfig { server: Option::Some("paste_rs".to_owned()), histfile: Option::None },
            servers,
        }
    }
}

impl Config {
    /// Apply the per-invocation server selection: absent keeps the stored
    /// choice, the sentinel clears it, anything else replaces it.
    pub fn with_server_override(self, new_server: Option<String>) -> (r: Config)
        ensures
            r.main.server.deep_view() == spec_override_option(
                self.main.server.deep_view(),
                new_server.deep_view(),
            ),
            r.main.histfile == self.main.histfile,
            r.servers == self.servers,
    {
        let mut c = self;
        override_option_with_option_none(&mut c.main.server, new_server);
        c
    }

    /// Apply the per-invocation history-file choice, under the same rule.
    pub fn with_histfile_override(self, new_histfile: Option<String>) -> (r: Config)
        ensures
            r.main.histfile.deep_view() == spec_override_option(
                self.main.histfile.deep_view(),
                new_histfile.deep_view(),
            ),
            r.main.server == self.main.server,
            r.servers == self.servers,
    {
        let mut c = self;
        override_option_with_option_none(&mut c.main.histfile, new_histfile);
        c
    }
}

/// Why a server block could not be resolved.
#[derive(Debug, Clone)]
pub enum DispatchError {
    /// The configuration holds no server blocks at all.
    NoServers,
    /// The chosen name matches no server block.
    UnknownServer(String),
}

pub open spec fn spec_no_servers_msg() -> Seq<char> {
    "No servers defined in configuration!\nDefine one in the config file like:\n\n    [servers.rs]\n    backend = \"generic\"\n    url = \"https://paste.rs/\""@
}

pub open spec fn spec_unknown_server_msg(name: Seq<char>) -> Seq<char> {
    "No corresponding server config for "@ + name
        + ".\nTo use this, add a server block under the heading [servers."@ + name
        + "] in the config toml file."@
}

impl DispatchError {
    /// The one-line remediation message for the error stream.
    pub fn message(&self) -> (r: String)
        ensures
            match self {
                DispatchError::NoServers => r@ == spec_no_servers_msg(),
                DispatchError::UnknownServer(n) => r@ == spec_unknown_server_msg(n@),
            },
    {
        match self {
            DispatchError::NoServers => {
                "No servers defined in configuration!\nDefine one in the config file like:\n\n    [servers.rs]\n    backend = \"generic\"\n    url = \"https://paste.rs/\"".to_owned()
            },
            DispatchError::UnknownServer(n) => {
                let mut m = "No corresponding server config for ".to_owned();
                m.append(n.as_str());
                m.append(".\nTo use this, add a server block under the heading [servers.");
                m.append(n.as_str());
                m.append("] in the config toml file.");
                m
            },
        }
    }
}

/// The name resolution must look up: the configured default server, or the
/// first block when none is configured.
pub open spec fn spec_chosen_name(c: Config) -> Seq<char>
    recommends
        c.servers@.len() > 0,
{
    match c.main.server {
        Option::Some(s) => s@,
        Option::None => c.servers@[0].name@,
    }
}

/// The first server block carrying the name.
pub open spec fn spec_lookup(blocks: Seq<ServerBlock>, name: Seq<char>) -> Option<ServerBlock>
    decreases blocks.len(),
{
    if blocks.len() == 0 {
        Option::None
    } else if blocks[0].name@ == name {
        Option::Some(blocks[0])
    } else {
        spec_lookup(blocks.drop_first(), name)
    }
}

/// Resolve the server block one invocation pastes to. This only reads the
/// configuration: every failure is decided before any network activity.
pub fn resolve_backend(config: &Config) -> (r: Result<&ServerBlock, DispatchError>)
    ensures
        config.servers@.len() == 0 ==> r == Result::<&ServerBlock, DispatchError>::Err(
            DispatchError::NoServers,
        ),
        config.servers@.len() > 0 ==> match spec_lookup(
            config.servers@,
            spec_chosen_name(*config),
        ) {
            Option::Some(b) => (r matches Result::Ok(out) && *out == b),
            Option::None => (r matches Result::Err(DispatchError::UnknownServer(n)) && n@
                == spec_chosen_name(*config)),
        },
{
    if config.servers.len() == 0 {
        return Result::Err(DispatchError::NoServers);
    }
    let name: &String = match &config.main.server {
        Option::Some(s) => s,
        Option::None => &config.servers[0].name,
    };
    let ghost blocks = config.servers@;
    proof {
        assert(blocks.skip(0) =~= blocks);
    }
    let mut i: usize = 0;
    while i < config.servers.len()
        invariant
            0 <= i <= blocks.len(),
            blocks == config.servers@,
            name@ == spec_chosen_name(*config),
            spec_lookup(blocks, name@) == spec_lookup(blocks.skip(i as int), name@),
        decreases blocks.len() - i,
    {
        if config.servers[i].name == *name {
            return Result::Ok(&config.servers[i]);
        }
        proof {
            assert(blocks.skip(i as int).drop_first() =~= blocks.skip(i as int + 1));
        }
        i = i + 1;
    }
    proof {
        assert(blocks.skip(i as int) =~= Seq::empty());
    }
    Result::Err(DispatchError::UnknownServer(name.clone()))
}

/// Where one invocation's configuration should come from.
#[derive(Debug, Clone)]
pub enum ConfigSource {
    /// The sentinel was given: use the compiled-in defaults only.
    Defaults,
    /// An explicit path was given: it must exist, or loading fails.
    Path(String),
    /// Nothing was given: search the default locations.
    SearchDefault,
}

/// Classify the config-file override: the sentinel forces defaults-only, an
/// explicit path must be used as given, absence means searching the default
/// locations.
pub fn classify_config_override(file_override: &Option<String>) -> (r: ConfigSource)
    ensures
        match file_override {
            Option::Some(s) => if s@ == spec_sentinel() {
                r is Defaults
            } else {
                (r matches ConfigSource::Path(p) && p@ == s@)
            },
            Option::None => r is SearchDefault,
        },
{
    match file_override {
        Option::Some(s) => {
            if crate::overrides::is_sentinel(s) {
                ConfigSource::Defaults
            } else {
                ConfigSource::Path(s.clone())
            }
        },
        Option::None => ConfigSource::SearchDefault,
    }
}

/// The message for an explicit config path that does not exist.
pub fn config_not_found_msg(path: &String) -> (r: String)
    ensures
        r@ == "config file not found: \""@ + path@ + "\""@,
{
    let mut m = "config file not found: \"".to_owned();
    m.append(path.as_str());
    m.append("\"");
    m
}

/// The line recorded in the history file for one successful paste: the URL,
/// newline-terminated. Two sequential pastes therefore append exactly their
/// two URLs, in call order.
pub fn history_line(url: &String) -> (r: String)
    ensures
        r@ == url@ + "\n"@,
{
    let mut m = url.clone();
    m.append("\n");
    m
}

} // verus!
