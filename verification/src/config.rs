//! The settings that the publisher works with. They are fixed when the
//! process starts and handed to whoever needs them.
use vstd::prelude::*;
use vstd::string::StringExecFns;

verus! {

/// The registry to push to, the account to push with, and the host under
/// which built servers reach this service.
#[derive(Debug)]
pub struct Config {
    pub registry_username: String,
    pub registry_password: String,
    pub registry_host: String,
    pub api_host: String,
}

/// The text of a setting: the value that was given for it, or else its default.
pub open spec fn setting(given: Option<String>, default: Seq<char>) -> Seq<char> {
    match given {
        Some(text) => text@,
        None => default,
    }
}

fn choose_setting(given: Option<String>, default: &str) -> (text: String)
    ensures
        text@ == setting(given, default@),
{
    match given {
        Some(text) => text,
        None => String::from_str(default),
    }
}

impl Config {
    /// The settings of a process: for each of the four, the value that its
    /// surroundings gave, or the default where they gave none.
    pub fn new(
        default_registry_username: &str,
        default_registry_password: &str,
        default_registry_host: &str,
        default_api_host: &str,
        registry_username: Option<String>,
        registry_password: Option<String>,
        registry_host: Option<String>,
        api_host: Option<String>,
    ) -> (config: Config)
        ensures
            config.registry_username@ == setting(registry_username, default_registry_username@),
            config.registry_password@ == setting(registry_password, default_registry_password@),
            config.registry_host@ == setting(registry_host, default_registry_host@),
            config.api_host@ == setting(api_host, default_api_host@),
    {
        Config {
            registry_username: choose_setting(registry_username, default_registry_username),
            registry_password: choose_setting(registry_password, default_registry_password),
            registry_host: choose_setting(registry_host, default_registry_host),
            api_host: choose_setting(api_host, default_api_host),
        }
    }
}

} // verus!
