//! Making the clients of a whole configuration.
use vstd::prelude::*;

use crate::api::http::Delivery;
use crate::api::mastodon::is_uri;
use crate::api::mastodon::MastodonError;
use crate::api::minds::data::Oauth2;
use crate::api::minds::Minds;
use crate::api::minds::MindsError;
use crate::api::result::ApiError;
use crate::api::result::Backend;
use crate::api::twitter::Twitter;
use crate::api::twitter::TwitterError;
use crate::api::API;
use crate::config::Config;

verus! {

/// What making the clients gave.
pub struct Setup {
    /// The clients, where at least one could be made.
    pub api: Option<API>,
    /// Why the others could not be made, in the order Gab, Twitter,
    /// Mastodon, Minds.
    pub warnings: Vec<ApiError>,
}

/// Why Twitter's client cannot be made, where it cannot.
pub open spec fn twitter_trouble(config: Config) -> Option<ApiError> {
    if config.platforms.twitter && !Twitter::usable(config.api.twitter) {
        Some(ApiError::Twitter(TwitterError::InvalidAuthData))
    } else {
        None
    }
}

/// Why Mastodon's client cannot be made, where it cannot.
pub open spec fn mastodon_trouble(config: Config) -> Option<ApiError> {
    if !config.platforms.mastodon {
        None
    } else if !is_uri(config.api.mastodon.host@) {
        Some(ApiError::Mastodon(MastodonError::InvalidHostUri))
    } else if config.api.mastodon.access_token@.len() == 0 {
        Some(ApiError::Mastodon(MastodonError::InvalidToken))
    } else {
        None
    }
}

/// What signing in to Minds gave; where nobody signed in, nothing came back.
pub open spec fn login_of(minds_login: Option<Delivery<Oauth2>>) -> Delivery<Oauth2> {
    match minds_login {
        Some(login) => login,
        None => Delivery::Lost,
    }
}

/// Why Minds's client cannot be made, where it cannot.
pub open spec fn minds_trouble(config: Config, minds_login: Option<Delivery<Oauth2>>) -> Option<
    ApiError,
> {
    if config.platforms.minds && Minds::granted(login_of(minds_login)) is None {
        Some(ApiError::Minds(MindsError::LoginFailed))
    } else {
        None
    }
}

/// A sequence with what is there appended.
pub open spec fn with(list: Seq<ApiError>, more: Option<ApiError>) -> Seq<ApiError> {
    match more {
        Some(error) => list.push(error),
        None => list,
    }
}

/// Whether the client of `backend` is made: where the network is to be used
/// and nothing is wrong with its configuration.
pub open spec fn made(config: Config, minds_login: Option<Delivery<Oauth2>>, backend: Backend)
    -> bool {
    match backend {
        Backend::Gab => config.platforms.gab,
        Backend::Twitter => config.platforms.twitter && twitter_trouble(config) is None,
        Backend::Mastodon => config.platforms.mastodon && mastodon_trouble(config) is None,
        Backend::Minds => config.platforms.minds && minds_trouble(config, minds_login) is None,
    }
}

/// Makes the clients of the networks that the configuration wants used, Minds
/// with the answer to signing in. A network whose client cannot be made is
/// left out with a warning; there are no clients at all where none could be
/// made.
pub fn create_api(config: Config, minds_login: Option<Delivery<Oauth2>>) -> (setup: Setup)
    ensures
        setup.warnings@ == with(
            with(with(Seq::empty(), twitter_trouble(config)), mastodon_trouble(config)),
            minds_trouble(config, minds_login),
        ),
        setup.api is Some <==> exists|backend: Backend| made(config, minds_login, backend),
        setup.api matches Some(api) ==> api.conf.timeout == config.settings.timeout
            && forall|backend: Backend| api.has(backend) == made(config, minds_login, backend),
{
    let mut api = API::new(config.settings);
    assert(!api.has(Backend::Twitter) && !api.has(Backend::Gab) && !api.has(Backend::Mastodon)
        && !api.has(Backend::Minds));
    let mut warnings: Vec<ApiError> = Vec::new();
    let platforms = config.platforms;
    let ghost wanted = config;
    if platforms.gab {
        match api.configure_gab(config.api.gab) {
            Ok(()) => {},
            Err(error) => {
                warnings.push(error);
            },
        }
    }
    if platforms.twitter {
        match api.configure_twitter(config.api.twitter) {
            Ok(()) => {},
            Err(error) => {
                warnings.push(error);
            },
        }
    }
    if platforms.mastodon {
        match api.configure_mastodon(config.api.mastodon) {
            Ok(()) => {},
            Err(error) => {
                warnings.push(error);
            },
        }
    }
    if platforms.minds {
        let login = match minds_login {
            Some(login) => login,
            None => Delivery::Lost,
        };
        match api.configure_minds(login) {
            Ok(()) => {},
            Err(error) => {
                warnings.push(error);
            },
        }
    }
    proof {
        assert(api.has(Backend::Gab) == made(wanted, minds_login, Backend::Gab));
        assert(api.has(Backend::Twitter) == made(wanted, minds_login, Backend::Twitter));
        assert(api.has(Backend::Mastodon) == made(wanted, minds_login, Backend::Mastodon));
        assert(api.has(Backend::Minds) == made(wanted, minds_login, Backend::Minds));
        assert forall|backend: Backend| api.has(backend) == made(
            wanted,
            minds_login,
            backend,
        ) by {
            match backend {
                Backend::Gab => {},
                Backend::Twitter => {},
                Backend::Mastodon => {},
                Backend::Minds => {},
            }
        }
    }
    if api.any_enabled() {
        Setup { api: Some(api), warnings }
    } else {
        Setup { api: None, warnings }
    }
}

} // verus!
