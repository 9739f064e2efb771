//! Where the configuration file lives, and what it lists: the connectors to
//! offer. Reading and parsing the file happen outside the library.
use vstd::prelude::*;

verus! {

/// A connector that the configuration names, and the address of its management API.
#[derive(Clone, Debug)]
pub struct ConnectorConfig {
    name: String,
    address: String,
}

/// The configuration: the connectors, in the order listed.
#[derive(Clone, Debug)]
pub struct Config {
    pub connectors: Vec<ConnectorConfig>,
}

/// Why the configuration directory could not be found.
#[derive(Clone, Debug)]
pub struct ConfigError {
    pub message: String,
}

impl ConnectorConfig {
    pub closed spec fn spec_name(&self) -> Seq<char> {
        self.name@
    }

    pub closed spec fn spec_address(&self) -> Seq<char> {
        self.address@
    }

    pub fn new(name: String, address: String) -> (r: ConnectorConfig)
        ensures
            r.spec_name() == name@,
            r.spec_address() == address@,
    {
        ConnectorConfig { name, address }
    }

    pub fn name(&self) -> (r: &str)
        ensures
            r@ == self.spec_name(),
    {
        self.name.as_str()
    }

    pub fn address(&self) -> (r: &str)
        ensures
            r@ == self.spec_address(),
    {
        self.address.as_str()
    }
}

/// `base` with the relative component `comp` appended: a separator goes
/// between them unless `base` is empty or already ends in one.
pub open spec fn path_join(base: Seq<char>, comp: Seq<char>) -> Seq<char> {
    if base.len() == 0 || base.last() == '/' {
        base + comp
    } else {
        base + "/"@ + comp
    }
}

/// Appends the relative path component `comp` to `base`.
pub fn join(base: &str, comp: &str) -> (r: String)
    ensures
        r@ == path_join(base@, comp@),
{
    let mut out = base.to_owned();
    let n = base.unicode_len();
    if n > 0 && base.get_char(n - 1) != '/' {
        proof {
            reveal_strlit("/");
        }
        out.append("/");
    }
    out.append(comp);
    out
}

pub open spec fn app_dir_name() -> Seq<char> {
    "edc-tui"@
}

pub open spec fn config_file_name() -> Seq<char> {
    "config.toml"@
}

pub open spec fn no_config_dir_text() -> Seq<char> {
    "failed to find os config dir."@
}

/// The application's own configuration directory inside the system's
/// configuration directory `os_config_dir`, if the system has one.
pub fn app_config_path(os_config_dir: Option<&str>) -> (r: Result<String, ConfigError>)
    ensures
        match os_config_dir {
            Some(d) => r is Ok && r->Ok_0@ == path_join(d@, app_dir_name()),
            None => r is Err && r->Err_0.message@ == no_config_dir_text(),
        },
{
    match os_config_dir {
        Some(d) => {
            proof {
                reveal_strlit("edc-tui");
            }
            Ok(join(d, "edc-tui"))
        },
        None => {
            proof {
                reveal_strlit("failed to find os config dir.");
            }
            Err(ConfigError { message: String::from_str("failed to find os config dir.") })
        },
    }
}

/// The configuration file inside the application's configuration directory.
pub fn default_file(app_config_dir: &str) -> (r: String)
    ensures
        r@ == path_join(app_config_dir@, config_file_name()),
{
    proof {
        reveal_strlit("config.toml");
    }
    join(app_config_dir, "config.toml")
}

} // verus!
