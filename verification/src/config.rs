use vstd::prelude::*;
use crate::decimal::{decimal, decimal_u64};

verus! {

/// Settings read from the YAML configuration file.
#[derive(Clone, Debug)]
pub struct Config {
    pub web_hostname: String,
    pub web_port: u16,
    pub botapi_token: String,
    pub discord_token: String,
    pub mysql_hostname: String,
    pub mysql_port: u16,
    pub mysql_user: String,
    pub mysql_password: String,
    pub mysql_dbname: String,
    pub web_sslkey: String,
    pub web_chain: String,
    /// Whether the HTTP relay is started.
    pub web_enabled: bool,
    /// Whether the game-server status rotation is started.
    pub mysql_enabled: bool,
    /// Whether the message and voice log is started.
    pub messages_enabled: bool,
    /// Whether the HTTP relay serves TLS with `web_chain` and `web_sslkey`.
    pub web_ssl: bool,
}

impl Config {
    /// Host name used when the file names none.
    pub fn default_hostname() -> (r: String)
        ensures
            r@ == "localhost"@,
    {
        String::from_str("localhost")
    }

    /// Port of the HTTP relay when the file names none.
    pub fn default_web_port() -> (r: u16)
        ensures
            r == 3444,
    {
        3444
    }

    /// Port of the MySQL server when the file names none.
    pub fn default_mysql_port() -> (r: u16)
        ensures
            r == 3444,
    {
        3444
    }
}

/// The configuration file to read: the program's first argument, or
/// `config.yaml` when there is none.
pub fn config_path(first_argument: Option<String>) -> (r: String)
    ensures
        first_argument matches Some(a) ==> r@ == a@,
        first_argument is None ==> r@ == "config.yaml"@,
{
    match first_argument {
        Some(a) => a,
        None => String::from_str("config.yaml"),
    }
}

/// The address the HTTP relay listens on: `host:port`.
pub fn bind_address(host: &str, port: u16) -> (r: String)
    ensures
        r@ == host@ + ":"@ + decimal(port as nat),
{
    proof { reveal_strlit(":"); }
    let mut address = host.to_owned();
    address.append(":");
    let p = decimal_u64(port as u64);
    address.append(p.as_str());
    address
}

} // verus!
