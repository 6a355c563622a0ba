//! The networks and the sending of a post to them.
pub mod gab;
pub mod http;
pub mod job;
pub mod mastodon;
pub mod messages;
pub mod minds;
pub mod plan;
pub mod request;
pub mod result;
pub mod send;
pub mod setup;
pub mod twitter;

use vstd::prelude::*;

use crate::api::gab::Gab;
use crate::api::http::Conf;
use crate::api::http::Delivery;
use crate::api::mastodon::is_uri;
use crate::api::mastodon::Mastodon;
use crate::api::mastodon::MastodonError;
use crate::api::minds::Minds;
use crate::api::minds::MindsError;
use crate::api::request::Request;
use crate::api::twitter::encode::encoded_text;
use crate::api::twitter::Twitter;
use crate::api::twitter::TwitterError;
use crate::config;

pub use result::ApiError;
pub use result::Backend;
pub use result::PostResult;

verus! {

/// The networks' clients: each is there once it was configured, and is not
/// changed afterwards.
pub struct API {
    /// How long requests may take.
    pub conf: Conf,
    /// Twitter's client.
    pub twitter: Option<Twitter>,
    /// Gab's client.
    pub gab: Option<Gab>,
    /// Mastodon's client.
    pub mastodon: Option<Mastodon>,
    /// Minds's client.
    pub minds: Option<Minds>,
}

impl API {
    /// Whether the client of `backend` is there.
    pub open spec fn has(self, backend: Backend) -> bool {
        match backend {
            Backend::Twitter => self.twitter is Some,
            Backend::Gab => self.gab is Some,
            Backend::Mastodon => self.mastodon is Some,
            Backend::Minds => self.minds is Some,
        }
    }

    /// Whether the client of `backend` is there.
    pub fn enabled(&self, backend: Backend) -> (r: bool)
        ensures
            r == self.has(backend),
    {
        match backend {
            Backend::Twitter => self.twitter.is_some(),
            Backend::Gab => self.gab.is_some(),
            Backend::Mastodon => self.mastodon.is_some(),
            Backend::Minds => self.minds.is_some(),
        }
    }

    /// Whether at least one client is there.
    pub fn any_enabled(&self) -> (r: bool)
        ensures
            r == exists|backend: Backend| self.has(backend),
    {
        let r = self.twitter.is_some() || self.gab.is_some() || self.mastodon.is_some()
            || self.minds.is_some();
        proof {
            if self.twitter is Some {
                assert(self.has(Backend::Twitter));
            }
            if self.gab is Some {
                assert(self.has(Backend::Gab));
            }
            if self.mastodon is Some {
                assert(self.has(Backend::Mastodon));
            }
            if self.minds is Some {
                assert(self.has(Backend::Minds));
            }
        }
        r
    }

    /// No clients, and the time that the settings give to requests.
    pub fn new(settings: config::Settings) -> (api: API)
        ensures
            api.conf.timeout == settings.timeout,
            forall|backend: Backend| !api.has(backend),
    {
        API { conf: Conf::new(&settings), twitter: None, gab: None, mastodon: None, minds: None }
    }

    /// What configuring Twitter does: nothing where its client is there
    /// already; else the client is made where the configuration is usable,
    /// and the error is given where it is not. No other client changes.
    pub open spec fn twitter_configured(
        self,
        config: config::Twitter,
        result: Result<(), ApiError>,
        after: API,
    ) -> bool {
        &&& after.conf == self.conf
        &&& after.gab == self.gab
        &&& after.mastodon == self.mastodon
        &&& after.minds == self.minds
        &&& if self.twitter is Some {
            result is Ok && after.twitter == self.twitter
        } else if Twitter::usable(config) {
            &&& result is Ok
            &&& after.twitter is Some
            &&& after.twitter->Some_0.oauth().consumer_key() == encoded_text(config.consumer.key@)
            &&& after.twitter->Some_0.oauth().token() == encoded_text(config.access.key@)
            &&& after.twitter->Some_0.oauth().signature_key() == encoded_text(
                config.consumer.secret@,
            ) + seq!['&'] + encoded_text(config.access.secret@)
        } else {
            result == Err::<(), ApiError>(ApiError::Twitter(TwitterError::InvalidAuthData))
                && after.twitter is None
        }
    }

    /// Configures Twitter, unless it is configured already.
    pub fn configure_twitter(&mut self, config: config::Twitter) -> (result: Result<(), ApiError>)
        ensures
            old(self).twitter_configured(config, result, *final(self)),
    {
        if self.twitter.is_some() {
            return Ok(());
        }
        match Twitter::new(config) {
            Ok(client) => {
                self.twitter = Some(client);
                Ok(())
            },
            Err(error) => Err(ApiError::Twitter(error)),
        }
    }

    /// Puts Twitter's client back, or takes it away.
    pub fn enable_twitter(&mut self, twitter: Option<Twitter>)
        ensures
            *final(self) == (API { twitter, ..*old(self) }),
    {
        self.twitter = twitter;
    }

    /// Takes Twitter's client away and hands it out.
    pub fn disable_twitter(&mut self) -> (twitter: Option<Twitter>)
        ensures
            twitter == old(self).twitter,
            *final(self) == (API { twitter: None, ..*old(self) }),
    {
        self.twitter.take()
    }

    /// What configuring Gab does: nothing where its client is there already,
    /// else the client is made. No other client changes.
    pub open spec fn gab_configured(self, config: config::Gab, result: Result<(), ApiError>, after: API)
        -> bool {
        &&& result is Ok
        &&& after.conf == self.conf
        &&& after.twitter == self.twitter
        &&& after.mastodon == self.mastodon
        &&& after.minds == self.minds
        &&& if self.gab is Some {
            after.gab == self.gab
        } else {
            after.gab is Some && after.gab->Some_0.token() == config.access_token@
        }
    }

    /// Configures Gab, unless it is configured already.
    pub fn configure_gab(&mut self, config: config::Gab) -> (result: Result<(), ApiError>)
        ensures
            old(self).gab_configured(config, result, *final(self)),
    {
        if self.gab.is_some() {
            return Ok(());
        }
        match Gab::new(config) {
            Ok(client) => {
                self.gab = Some(client);
                Ok(())
            },
            Err(error) => Err(ApiError::Gab(error)),
        }
    }

    /// Puts Gab's client back, or takes it away.
    pub fn enable_gab(&mut self, gab: Option<Gab>)
        ensures
            *final(self) == (API { gab, ..*old(self) }),
    {
        self.gab = gab;
    }

    /// Takes Gab's client away and hands it out.
    pub fn disable_gab(&mut self) -> (gab: Option<Gab>)
        ensures
            gab == old(self).gab,
            *final(self) == (API { gab: None, ..*old(self) }),
    {
        self.gab.take()
    }

    /// What configuring Mastodon does: nothing where its client is there
    /// already; else the client is made where the host reads as an address
    /// and the token is not empty, and the error says what is wrong where
    /// not, the host first. No other client changes.
    pub open spec fn mastodon_configured(
        self,
        config: config::Mastodon,
        result: Result<(), ApiError>,
        after: API,
    ) -> bool {
        &&& after.conf == self.conf
        &&& after.twitter == self.twitter
        &&& after.gab == self.gab
        &&& after.minds == self.minds
        &&& if self.mastodon is Some {
            result is Ok && after.mastodon == self.mastodon
        } else if !is_uri(config.host@) {
            result == Err::<(), ApiError>(ApiError::Mastodon(MastodonError::InvalidHostUri))
                && after.mastodon is None
        } else if config.access_token@.len() == 0 {
            result == Err::<(), ApiError>(ApiError::Mastodon(MastodonError::InvalidToken))
                && after.mastodon is None
        } else {
            result is Ok && after.mastodon is Some && after.mastodon->Some_0.host() == config.host@
                && after.mastodon->Some_0.token() == config.access_token@
        }
    }

    /// Configures Mastodon, unless it is configured already.
    pub fn configure_mastodon(&mut self, config: config::Mastodon) -> (result: Result<(), ApiError>)
        ensures
            old(self).mastodon_configured(config, result, *final(self)),
    {
        if self.mastodon.is_some() {
            return Ok(());
        }
        match Mastodon::new(config) {
            Ok(client) => {
                self.mastodon = Some(client);
                Ok(())
            },
            Err(error) => Err(ApiError::Mastodon(error)),
        }
    }

    /// Puts Mastodon's client back, or takes it away.
    pub fn enable_mastodon(&mut self, mastodon: Option<Mastodon>)
        ensures
            *final(self) == (API { mastodon, ..*old(self) }),
    {
        self.mastodon = mastodon;
    }

    /// Takes Mastodon's client away and hands it out.
    pub fn disable_mastodon(&mut self) -> (mastodon: Option<Mastodon>)
        ensures
            mastodon == old(self).mastodon,
            *final(self) == (API { mastodon: None, ..*old(self) }),
    {
        self.mastodon.take()
    }

    /// The request that signs in to Minds, where Minds is not configured
    /// yet: once it is, nobody is signed in again.
    pub fn minds_login(&self, config: &config::Minds) -> (request: Option<Request>)
        ensures
            request is Some <==> self.minds is None,
            request matches Some(request) ==> Minds::signs_in(
                request,
                config.username@,
                config.password@,
            ),
    {
        if self.minds.is_some() {
            None
        } else {
            Some(Minds::login(config))
        }
    }

    /// What configuring Minds does: nothing where its client is there
    /// already; else the client is made where signing in granted a token, and
    /// the error is given where it did not. No other client changes.
    pub open spec fn minds_configured(
        self,
        login: Delivery<minds::data::Oauth2>,
        result: Result<(), ApiError>,
        after: API,
    ) -> bool {
        &&& after.conf == self.conf
        &&& after.twitter == self.twitter
        &&& after.gab == self.gab
        &&& after.mastodon == self.mastodon
        &&& if self.minds is Some {
            result is Ok && after.minds == self.minds
        } else {
            match Minds::granted(login) {
                Some(token) => result is Ok && after.minds is Some && after.minds->Some_0.token()
                    == token@,
                None => result == Err::<(), ApiError>(ApiError::Minds(MindsError::LoginFailed))
                    && after.minds is None,
            }
        }
    }

    /// Configures Minds with the answer to signing in, unless it is
    /// configured already.
    pub fn configure_minds(&mut self, login: Delivery<minds::data::Oauth2>) -> (result: Result<
        (),
        ApiError,
    >)
        ensures
            old(self).minds_configured(login, result, *final(self)),
    {
        if self.minds.is_some() {
            return Ok(());
        }
        match Minds::new(login) {
            Ok(client) => {
                self.minds = Some(client);
                Ok(())
            },
            Err(error) => Err(ApiError::Minds(error)),
        }
    }

    /// Puts Minds's client back, or takes it away.
    pub fn enable_minds(&mut self, minds: Option<Minds>)
        ensures
            *final(self) == (API { minds, ..*old(self) }),
    {
        self.minds = minds;
    }

    /// Takes Minds's client away and hands it out.
    pub fn disable_minds(&mut self) -> (minds: Option<Minds>)
        ensures
            minds == old(self).minds,
            *final(self) == (API { minds: None, ..*old(self) }),
    {
        self.minds.take()
    }
}

/// Configuring Twitter a second time with the same configuration changes
/// nothing: the client that the first time made stays the one client, and
/// where the first time failed the second fails alike.
pub proof fn lemma_configure_twitter_twice(
    before: API,
    config: config::Twitter,
    first: Result<(), ApiError>,
    between: API,
    second: Result<(), ApiError>,
    after: API,
)
    requires
        before.twitter_configured(config, first, between),
        between.twitter_configured(config, second, after),
    ensures
        after == between,
        first is Ok ==> second is Ok && after.twitter is Some,
        first is Err ==> second == first,
{
}

/// Configuring Gab a second time with the same configuration changes nothing.
pub proof fn lemma_configure_gab_twice(
    before: API,
    config: config::Gab,
    first: Result<(), ApiError>,
    between: API,
    second: Result<(), ApiError>,
    after: API,
)
    requires
        before.gab_configured(config, first, between),
        between.gab_configured(config, second, after),
    ensures
        after == between,
        second is Ok,
        after.gab is Some,
{
}

/// Configuring Mastodon a second time with the same configuration changes
/// nothing.
pub proof fn lemma_configure_mastodon_twice(
    before: API,
    config: config::Mastodon,
    first: Result<(), ApiError>,
    between: API,
    second: Result<(), ApiError>,
    after: API,
)
    requires
        before.mastodon_configured(config, first, between),
        between.mastodon_configured(config, second, after),
    ensures
        after == between,
        first is Ok ==> second is Ok && after.mastodon is Some,
        first is Err ==> second == first,
{
}

/// Configuring Minds a second time, with the same answer to signing in or
/// any other, changes nothing once the first time made the client, and no
/// request to sign in is planned any more.
pub proof fn lemma_configure_minds_twice(
    before: API,
    login: Delivery<minds::data::Oauth2>,
    first: Result<(), ApiError>,
    between: API,
    again: Delivery<minds::data::Oauth2>,
    second: Result<(), ApiError>,
    after: API,
)
    requires
        before.minds_configured(login, first, between),
        between.minds_configured(again, second, after),
    ensures
        first is Ok ==> after == between && second is Ok && after.minds is Some,
        first is Err && again == login ==> after == between && second == first,
{
}

} // verus!
