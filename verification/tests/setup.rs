use fie::api::gab::GabError;
use fie::api::http::Delivery;
use fie::api::mastodon::MastodonError;
use fie::api::minds::data::Oauth2;
use fie::api::minds::MindsError;
use fie::api::setup::create_api;
use fie::api::twitter::TwitterError;
use fie::api::ApiError;
use fie::api::Backend;
use fie::api::API;
use fie::config;
use fie::config::default_timeout;
use fie::config::ApiConfig;
use fie::config::Config;
use fie::config::Flags;
use fie::config::Platforms;
use fie::config::Settings;
use fie::data::PostFlags;

fn token(key: &str, secret: &str) -> config::Token {
    config::Token { key: key.to_string(), secret: secret.to_string() }
}

fn good_twitter() -> config::Twitter {
    config::Twitter { consumer: token("ck", "cs"), access: token("tk", "ts") }
}

fn good_mastodon() -> config::Mastodon {
    config::Mastodon { host: "example.social".to_string(), access_token: "mt".to_string() }
}

fn granted(token: &str) -> Delivery<Oauth2> {
    Delivery::Answered {
        status: 200,
        body: Some(Oauth2 {
            access_token: token.to_string(),
            expires_in: 1,
            status: "success".to_string(),
        }),
    }
}

fn whole(platforms: Platforms, twitter: config::Twitter, mastodon: config::Mastodon) -> Config {
    Config {
        platforms,
        api: ApiConfig {
            gab: config::Gab { access_token: "gt".to_string() },
            twitter,
            mastodon,
            minds: config::Minds { username: "me".to_string(), password: "pw".to_string() },
        },
        settings: Settings { timeout: 9 },
    }
}

#[test]
fn all_networks_are_used_by_default() {
    let platforms = Platforms::default();
    assert!(platforms.twitter && platforms.gab && platforms.mastodon && platforms.minds);
    assert!(platforms.any());
    let none = Platforms { twitter: false, gab: false, mastodon: false, minds: false };
    assert!(!none.any());
    let one = Platforms { twitter: false, gab: false, mastodon: true, minds: false };
    assert!(one.any());
}

#[test]
fn requests_get_five_seconds_by_default() {
    assert_eq!(default_timeout(), 5);
    assert_eq!(Settings::default().timeout, 5);
}

#[test]
fn configurations_are_empty_by_default() {
    assert_eq!(config::Token::default().key, "");
    assert_eq!(config::Token::default().secret, "");
    assert_eq!(config::Twitter::default().consumer.key, "");
    assert_eq!(config::Twitter::default().access.secret, "");
    assert_eq!(config::Gab::default().access_token, "");
    assert_eq!(config::Mastodon::default().host, "");
    assert_eq!(config::Mastodon::default().access_token, "");
    assert_eq!(config::Minds::default().username, "");
    assert_eq!(config::Minds::default().password, "");
    assert!(!PostFlags::default().nsfw);
}

#[test]
fn the_command_line_names_the_networks_or_leaves_them_to_the_configuration() {
    let configured = Platforms { twitter: true, gab: false, mastodon: true, minds: false };
    let silent = Flags { twitter: false, gab: false, mastodon: false, minds: false };
    let chosen = silent.choose_from(configured);
    assert_eq!(
        (chosen.twitter, chosen.gab, chosen.mastodon, chosen.minds),
        (true, false, true, false)
    );
    let named = Flags { twitter: false, gab: true, mastodon: false, minds: false };
    let chosen = named.choose_from(configured);
    assert_eq!(
        (chosen.twitter, chosen.gab, chosen.mastodon, chosen.minds),
        (false, true, false, false)
    );
    let all = Flags { twitter: true, gab: true, mastodon: true, minds: true };
    let chosen = all.choose_from(Platforms { twitter: false, gab: false, mastodon: false, minds: false });
    assert_eq!((chosen.twitter, chosen.gab, chosen.mastodon, chosen.minds), (true, true, true, true));
}

#[test]
fn a_missing_consumer_token_is_filled_in() {
    let mut twitter = config::Twitter { consumer: token("", "cs"), access: token("tk", "ts") };
    twitter.use_consumer("built-in", "secret");
    assert_eq!(twitter.consumer.key, "built-in");
    assert_eq!(twitter.consumer.secret, "secret");
    assert_eq!(twitter.access.key, "tk");
    let mut twitter = config::Twitter { consumer: token("ck", ""), access: token("tk", "ts") };
    twitter.use_consumer("built-in", "secret");
    assert_eq!((twitter.consumer.key.as_str(), twitter.consumer.secret.as_str()), ("built-in", "secret"));
    let mut twitter = good_twitter();
    twitter.use_consumer("built-in", "secret");
    assert_eq!((twitter.consumer.key.as_str(), twitter.consumer.secret.as_str()), ("ck", "cs"));
    assert_eq!((twitter.access.key.as_str(), twitter.access.secret.as_str()), ("tk", "ts"));
}

#[test]
fn a_new_registry_has_no_clients() {
    let api = API::new(Settings { timeout: 7 });
    assert_eq!(api.conf.get_timeout(), 7);
    assert!(!api.any_enabled());
    for backend in [Backend::Twitter, Backend::Gab, Backend::Mastodon, Backend::Minds] {
        assert!(!api.enabled(backend));
    }
}

#[test]
fn twitter_with_an_empty_secret_is_not_configured() {
    let mut api = API::new(Settings::default());
    let mut config = good_twitter();
    config.consumer.secret = String::new();
    let result = api.configure_twitter(config);
    assert!(matches!(result, Err(ApiError::Twitter(TwitterError::InvalidAuthData))));
    assert!(!api.enabled(Backend::Twitter));
    assert!(!api.any_enabled());
}

#[test]
fn configuring_twice_keeps_the_first_client() {
    let mut api = API::new(Settings::default());
    assert!(api.configure_twitter(good_twitter()).is_ok());
    assert!(api.enabled(Backend::Twitter));
    assert!(api.configure_twitter(config::Twitter::default()).is_ok());
    assert!(api.configure_twitter(good_twitter()).is_ok());
    assert!(api.enabled(Backend::Twitter));

    assert!(api.configure_gab(config::Gab { access_token: "one".to_string() }).is_ok());
    assert!(api.configure_gab(config::Gab { access_token: "two".to_string() }).is_ok());
    let gab = api.disable_gab().unwrap();
    assert_eq!(
        gab.post("x", &vec![], &PostFlags::default()).authorization.as_deref(),
        Some("Bearer one")
    );
    assert!(api.disable_gab().is_none());

    assert!(api.configure_mastodon(good_mastodon()).is_ok());
    assert!(api.configure_mastodon(config::Mastodon::default()).is_ok());
    let mastodon = api.disable_mastodon().unwrap();
    assert_eq!(
        mastodon.post("x", &vec![], &PostFlags::default()).url,
        "https://example.social/api/v1/statuses"
    );

    let minds_config = config::Minds { username: "me".to_string(), password: "pw".to_string() };
    assert!(api.minds_login(&minds_config).is_some());
    assert!(api.configure_minds(granted("first")).is_ok());
    assert!(api.minds_login(&minds_config).is_none());
    assert!(api.configure_minds(granted("second")).is_ok());
    assert!(api.configure_minds(Delivery::Lost).is_ok());
    let minds = api.disable_minds().unwrap();
    assert_eq!(
        minds.post("x", None, &PostFlags::default()).authorization.as_deref(),
        Some("Bearer first")
    );
    assert!(api.minds_login(&minds_config).is_some());
}

#[test]
fn a_failed_configuration_can_be_tried_again() {
    let mut api = API::new(Settings::default());
    assert!(matches!(
        api.configure_mastodon(config::Mastodon { host: "bad host".to_string(), access_token: "t".to_string() }),
        Err(ApiError::Mastodon(MastodonError::InvalidHostUri))
    ));
    assert!(matches!(
        api.configure_mastodon(config::Mastodon { host: "example.social".to_string(), access_token: String::new() }),
        Err(ApiError::Mastodon(MastodonError::InvalidToken))
    ));
    assert!(!api.enabled(Backend::Mastodon));
    assert!(api.configure_mastodon(good_mastodon()).is_ok());
    assert!(api.enabled(Backend::Mastodon));
    assert!(matches!(
        api.configure_minds(Delivery::Lost),
        Err(ApiError::Minds(MindsError::LoginFailed))
    ));
    assert!(!api.enabled(Backend::Minds));
    assert!(api.configure_minds(granted("t")).is_ok());
    assert!(api.enabled(Backend::Minds));
}

#[test]
fn clients_can_be_taken_away_and_put_back() {
    let mut api = API::new(Settings::default());
    assert!(api.configure_twitter(good_twitter()).is_ok());
    let twitter = api.disable_twitter();
    assert!(twitter.is_some());
    assert!(!api.enabled(Backend::Twitter));
    assert!(api.disable_twitter().is_none());
    api.enable_twitter(twitter);
    assert!(api.enabled(Backend::Twitter));
    api.enable_twitter(None);
    assert!(!api.enabled(Backend::Twitter));
    api.enable_mastodon(None);
    api.enable_minds(None);
    assert!(!api.any_enabled());
}

#[test]
fn the_clients_of_a_whole_configuration_are_made() {
    let setup = create_api(whole(Platforms::default(), good_twitter(), good_mastodon()), Some(granted("t")));
    assert!(setup.warnings.is_empty());
    let api = setup.api.unwrap();
    assert_eq!(api.conf.get_timeout(), 9);
    for backend in [Backend::Twitter, Backend::Gab, Backend::Mastodon, Backend::Minds] {
        assert!(api.enabled(backend));
    }
}

#[test]
fn networks_that_cannot_be_configured_are_left_out_with_a_warning() {
    let setup = create_api(
        whole(Platforms::default(), config::Twitter::default(), config::Mastodon::default()),
        None,
    );
    assert_eq!(setup.warnings.len(), 3);
    assert!(matches!(setup.warnings[0], ApiError::Twitter(TwitterError::InvalidAuthData)));
    assert!(matches!(setup.warnings[1], ApiError::Mastodon(MastodonError::InvalidHostUri)));
    assert!(matches!(setup.warnings[2], ApiError::Minds(MindsError::LoginFailed)));
    let api = setup.api.unwrap();
    assert!(api.enabled(Backend::Gab));
    assert!(!api.enabled(Backend::Twitter));
    assert!(!api.enabled(Backend::Mastodon));
    assert!(!api.enabled(Backend::Minds));
}

#[test]
fn networks_that_are_not_wanted_are_not_configured() {
    let only_mastodon = Platforms { twitter: false, gab: false, mastodon: true, minds: false };
    let setup = create_api(whole(only_mastodon, config::Twitter::default(), good_mastodon()), Some(granted("t")));
    assert!(setup.warnings.is_empty());
    let api = setup.api.unwrap();
    assert!(api.enabled(Backend::Mastodon));
    assert!(!api.enabled(Backend::Twitter));
    assert!(!api.enabled(Backend::Gab));
    assert!(!api.enabled(Backend::Minds));
}

#[test]
fn without_any_client_there_is_no_registry() {
    let nothing = Platforms { twitter: false, gab: false, mastodon: false, minds: false };
    let setup = create_api(whole(nothing, good_twitter(), good_mastodon()), Some(granted("t")));
    assert!(setup.api.is_none());
    assert!(setup.warnings.is_empty());
    let broken = Platforms { twitter: true, gab: false, mastodon: true, minds: true };
    let setup = create_api(
        whole(
            broken,
            config::Twitter::default(),
            config::Mastodon { host: "example.social".to_string(), access_token: String::new() },
        ),
        Some(Delivery::Answered { status: 403, body: None }),
    );
    assert!(setup.api.is_none());
    assert_eq!(setup.warnings.len(), 3);
    assert!(matches!(setup.warnings[1], ApiError::Mastodon(MastodonError::InvalidToken)));
    assert!(!matches!(setup.warnings[0], ApiError::Gab(GabError::LoginFailed)));
}
