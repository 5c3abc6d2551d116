//! The configuration that is used where none is stored.

use vstd::prelude::*;
use crate::models::{default_theme, Config, Theme};

verus! {

/// The port on which the model server listens unless told otherwise.
pub const DEFAULT_PORT: u16 = 11434;

impl Default for Config {
    fn default() -> (config: Config)
        ensures
            config.ollama_host@ == "http://127.0.0.1"@,
            config.ollama_port == DEFAULT_PORT,
            config.db_filename@ == "ollama-tui.sqlite"@,
            !config.auth_enabled,
            config.auth_method is None,
            config.theme@ == default_theme(),
    {
        Config {
            ollama_host: "http://127.0.0.1".to_string(),
            ollama_port: DEFAULT_PORT,
            db_filename: "ollama-tui.sqlite".to_string(),
            auth_enabled: false,
            auth_method: None,
            theme: Theme::default(),
        }
    }
}

/// The address of the model server: host and port with a colon between.
pub open spec fn base_url(host: Seq<char>, port: u16) -> Seq<char> {
    host + ":"@ + crate::text::decimal_of(port as nat)
}

impl Config {
    /// The address of the model server.
    pub fn server_url(&self) -> (url: String)
        ensures
            url@ == base_url(self.ollama_host@, self.ollama_port),
    {
        let mut url = self.ollama_host.clone();
        vstd::string::StringExecFns::append(&mut url, ":");
        let digits = crate::text::from_chars(&crate::text::decimal(self.ollama_port as u128));
        vstd::string::StringExecFns::append(&mut url, digits.as_str());
        url
    }
}

} // verus!
