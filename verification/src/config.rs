//! The runtime configuration: the credentials and endpoints the outer
//! program hands the core's drivers.  Loading the file and deserializing
//! it happen outside this crate; the core holds the plain values.

use vstd::prelude::*;

verus! {

/// The configuration values of one deployment.
#[derive(Debug)]
pub struct Config {
    pub discord_bot_token: String,
    pub ss14_database: String,
    pub api_host: String,
    pub guild_id: String,
    pub ss14_server_token: String,
    pub ss14_api_url: String,
    pub authorization_url: String,
}

impl Config {
    /// The chat-platform bot token.
    pub fn token(&self) -> (r: &str)
        ensures
            r@ == self.discord_bot_token@,
    {
        self.discord_bot_token.as_str()
    }

    /// The backing store's connection string.
    pub fn cstr(&self) -> (r: &str)
        ensures
            r@ == self.ss14_database@,
    {
        self.ss14_database.as_str()
    }

    /// The host the chat surface is served for.
    pub fn host(&self) -> (r: &str)
        ensures
            r@ == self.api_host@,
    {
        self.api_host.as_str()
    }

    /// The guild the commands are registered under.
    pub fn guild(&self) -> (r: &str)
        ensures
            r@ == self.guild_id@,
    {
        self.guild_id.as_str()
    }

    /// The authorization service's URL.
    pub fn auth_url(&self) -> (r: &str)
        ensures
            r@ == self.authorization_url@,
    {
        self.authorization_url.as_str()
    }

    /// The administrative API's credential.
    pub fn server_token(&self) -> (r: &str)
        ensures
            r@ == self.ss14_server_token@,
    {
        self.ss14_server_token.as_str()
    }

    /// The administrative API's URL.
    pub fn api_url(&self) -> (r: &str)
        ensures
            r@ == self.ss14_api_url@,
    {
        self.ss14_api_url.as_str()
    }
}

} // verus!
