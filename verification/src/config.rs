//! Default configuration values of the agent.

use vstd::prelude::*;
use vstd::string::*;

verus! {

/// How much the agent may communicate with the outside.
#[derive(Debug, Clone, Copy, PartialEq, Eq, Structural)]
pub enum PrivacyLevel {
    /// No external communication.
    Strict,
    /// Minimal external communication.
    Standard,
    /// Full external communication, with the consent of the user.
    Open,
}

/// Configuration of the agent.
#[derive(Debug, PartialEq, Eq)]
pub struct Config {
    pub data_dir: String,
    pub log_level: String,
    pub privacy_level: PrivacyLevel,
    pub max_modules: usize,
}

/// A configuration over sequences of characters.
pub struct ConfigView {
    pub data_dir: Seq<char>,
    pub log_level: Seq<char>,
    pub privacy_level: PrivacyLevel,
    pub max_modules: usize,
}

impl View for Config {
    type V = ConfigView;

    open spec fn view(&self) -> ConfigView {
        ConfigView {
            data_dir: self.data_dir@,
            log_level: self.log_level@,
            privacy_level: self.privacy_level,
            max_modules: self.max_modules,
        }
    }
}

impl Clone for Config {
    fn clone(&self) -> (r: Self)
        ensures
            r@ == self@,
    {
        Config {
            data_dir: self.data_dir.clone(),
            log_level: self.log_level.clone(),
            privacy_level: self.privacy_level,
            max_modules: self.max_modules,
        }
    }
}

impl Default for Config {
    fn default() -> (r: Self)
        ensures
            r@ == (ConfigView {
                data_dir: "~/.rae"@,
                log_level: "info"@,
                privacy_level: PrivacyLevel::Strict,
                max_modules: 10,
            }),
    {
        Config {
            data_dir: String::from_str("~/.rae"),
            log_level: String::from_str("info"),
            privacy_level: PrivacyLevel::Strict,
            max_modules: 10,
        }
    }
}

} // verus!
