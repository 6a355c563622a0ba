//! Configuration: which networks are used, their credentials, the settings.
use vstd::prelude::*;
use vstd::string::StringExecFns;

verus! {

/// Which networks are used. Where nothing is said, all of them are.
#[derive(Debug, Clone, Copy)]
pub struct Platforms {
    /// Whether Twitter is used.
    pub twitter: bool,
    /// Whether Gab is used.
    pub gab: bool,
    /// Whether Mastodon is used.
    pub mastodon: bool,
    /// Whether Minds is used.
    pub minds: bool,
}

impl Default for Platforms {
    fn default() -> (platforms: Self)
        ensures
            platforms.twitter && platforms.gab && platforms.mastodon && platforms.minds,
    {
        Platforms { twitter: true, gab: true, mastodon: true, minds: true }
    }
}

impl Platforms {
    /// Whether at least one network is used.
    pub fn any(&self) -> (r: bool)
        ensures
            r == (self.twitter || self.gab || self.mastodon || self.minds),
    {
        self.twitter || self.gab || self.mastodon || self.minds
    }
}

/// The networks that the command line names.
#[derive(Debug, Clone, Copy)]
pub struct Flags {
    /// Twitter is named.
    pub twitter: bool,
    /// Gab is named.
    pub gab: bool,
    /// Mastodon is named.
    pub mastodon: bool,
    /// Minds is named.
    pub minds: bool,
}

impl Flags {
    /// The networks to use: those that the command line names, or, where it
    /// names none, those that the configuration gives.
    pub fn choose_from(&self, configured: Platforms) -> (chosen: Platforms)
        ensures
            chosen == if self.twitter || self.gab || self.mastodon || self.minds {
                (Platforms {
                    twitter: self.twitter,
                    gab: self.gab,
                    mastodon: self.mastodon,
                    minds: self.minds,
                })
            } else {
                configured
            },
    {
        if self.twitter || self.gab || self.mastodon || self.minds {
            Platforms {
                twitter: self.twitter,
                gab: self.gab,
                mastodon: self.mastodon,
                minds: self.minds,
            }
        } else {
            configured
        }
    }
}

/// A key and its secret.
#[derive(Debug)]
pub struct Token {
    /// The key.
    pub key: String,
    /// The secret.
    pub secret: String,
}

impl Default for Token {
    fn default() -> (token: Self)
        ensures
            token.key@.len() == 0,
            token.secret@.len() == 0,
    {
        Token { key: String::new(), secret: String::new() }
    }
}

/// Twitter's credentials.
#[derive(Debug)]
pub struct Twitter {
    /// The application's token.
    pub consumer: Token,
    /// The user's token.
    pub access: Token,
}

impl Default for Twitter {
    fn default() -> (config: Self)
        ensures
            config.consumer.key@.len() == 0,
            config.consumer.secret@.len() == 0,
            config.access.key@.len() == 0,
            config.access.secret@.len() == 0,
    {
        Twitter { consumer: Token::default(), access: Token::default() }
    }
}

impl Twitter {
    /// Whether a part of the application's token is missing.
    pub open spec fn lacks_consumer(self) -> bool {
        self.consumer.key@.len() == 0 || self.consumer.secret@.len() == 0
    }

    /// Takes `key` and `secret` as the application's token where a part of
    /// the configured one is missing, and changes nothing where none is.
    pub fn use_consumer(&mut self, key: &str, secret: &str)
        ensures
            final(self).access == old(self).access,
            old(self).lacks_consumer() ==> final(self).consumer.key@ == key@,
            old(self).lacks_consumer() ==> final(self).consumer.secret@ == secret@,
            !old(self).lacks_consumer() ==> final(self).consumer == old(self).consumer,
    {
        if self.consumer.key.as_str().unicode_len() == 0 || self.consumer.secret.as_str().unicode_len()
            == 0 {
            self.consumer.key = String::from_str(key);
            self.consumer.secret = String::from_str(secret);
        }
    }
}

/// Gab's credentials.
#[derive(Debug)]
pub struct Gab {
    /// The access token of the application.
    pub access_token: String,
}

impl Default for Gab {
    fn default() -> (config: Self)
        ensures
            config.access_token@.len() == 0,
    {
        Gab { access_token: String::new() }
    }
}

/// Mastodon's host and credentials.
#[derive(Debug)]
pub struct Mastodon {
    /// The host to talk to.
    pub host: String,
    /// The access token of the application.
    pub access_token: String,
}

impl Default for Mastodon {
    fn default() -> (config: Self)
        ensures
            config.host@.len() == 0,
            config.access_token@.len() == 0,
    {
        Mastodon { host: String::new(), access_token: String::new() }
    }
}

/// Minds's credentials.
#[derive(Debug)]
pub struct Minds {
    /// The user's name.
    pub username: String,
    /// The user's password.
    pub password: String,
}

impl Default for Minds {
    fn default() -> (config: Self)
        ensures
            config.username@.len() == 0,
            config.password@.len() == 0,
    {
        Minds { username: String::new(), password: String::new() }
    }
}

/// The number of seconds a request may take where the settings name none.
pub fn default_timeout() -> (secs: u64)
    ensures
        secs == 5,
{
    5
}

/// Settings.
#[derive(Debug, Clone, Copy)]
pub struct Settings {
    /// The number of seconds to wait for a response.
    pub timeout: u64,
}

impl Default for Settings {
    fn default() -> (settings: Self)
        ensures
            settings.timeout == 5,
    {
        Settings { timeout: default_timeout() }
    }
}

/// The credentials of all networks.
#[derive(Debug)]
pub struct ApiConfig {
    /// Gab.
    pub gab: Gab,
    /// Twitter.
    pub twitter: Twitter,
    /// Mastodon.
    pub mastodon: Mastodon,
    /// Minds.
    pub minds: Minds,
}

/// The whole configuration.
#[derive(Debug)]
pub struct Config {
    /// Which networks are used.
    pub platforms: Platforms,
    /// The credentials.
    pub api: ApiConfig,
    /// The settings.
    pub settings: Settings,
}

} // verus!
