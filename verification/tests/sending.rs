use fie::api::http::judge;
use fie::api::http::redirect;
use fie::api::http::success;
use fie::api::http::Attempt;
use fie::api::http::Conf;
use fie::api::http::Delivery;
use fie::api::http::Fault;
use fie::api::http::Phase;
use fie::api::http::Verdict;
use fie::api::job::images_needed;
use fie::api::job::Job;
use fie::api::job::Stage;
use fie::api::messages::ResultImage;
use fie::api::minds::data::Oauth2;
use fie::api::request::Body;
use fie::api::result::report;
use fie::api::request::Payload;
use fie::api::send::Action;
use fie::api::send::Sending;
use fie::api::gab::GabError;
use fie::api::mastodon::MastodonError;
use fie::api::minds::MindsError;
use fie::api::twitter::TwitterError;
use fie::api::ApiError;
use fie::api::Backend;
use fie::api::PostResult;
use fie::api::API;
use fie::config;
use fie::data::Image;
use fie::data::Post;
use fie::data::PostFlags;
use fie::data::PostId;
use fie::data::Unreadable;

const ALL: [Backend; 4] = [Backend::Twitter, Backend::Gab, Backend::Mastodon, Backend::Minds];

fn token(key: &str, secret: &str) -> config::Token {
    config::Token { key: key.to_string(), secret: secret.to_string() }
}

fn twitter_config() -> config::Twitter {
    config::Twitter { consumer: token("ck", "cs"), access: token("tk", "ts") }
}

fn mastodon_config() -> config::Mastodon {
    config::Mastodon { host: "example.social".to_string(), access_token: "mt".to_string() }
}

fn granted() -> Delivery<Oauth2> {
    Delivery::Answered {
        status: 200,
        body: Some(Oauth2 {
            access_token: "minds-token".to_string(),
            expires_in: 1,
            status: "success".to_string(),
        }),
    }
}

fn api(twitter: bool, gab: bool, mastodon: bool, minds: bool) -> API {
    let mut api = API::new(config::Settings { timeout: 5 });
    if twitter {
        assert!(api.configure_twitter(twitter_config()).is_ok());
    }
    if gab {
        assert!(api.configure_gab(config::Gab { access_token: "gt".to_string() }).is_ok());
    }
    if mastodon {
        assert!(api.configure_mastodon(mastodon_config()).is_ok());
    }
    if minds {
        assert!(api.configure_minds(granted()).is_ok());
    }
    api
}

fn post(message: &str, tags: &[&str]) -> Post {
    Post {
        message: message.to_string(),
        tags: tags.iter().map(|tag| tag.to_string()).collect(),
        images: vec![],
        flags: PostFlags::default(),
    }
}

fn image(name: &str) -> Image {
    Image { name: name.to_string(), mime: "image/png".to_string(), bytes: name.as_bytes().to_vec() }
}

fn answered<T>(status: u16, body: T) -> Delivery<T> {
    Delivery::Answered { status, body: Some(body) }
}

fn guid(text: &str) -> ResultImage {
    ResultImage::Guid(text.to_string())
}

fn text_id(text: &str) -> PostId {
    PostId::String(text.to_string())
}

#[test]
fn the_status_decides_success_and_redirection() {
    assert!(success(200) && success(204) && success(299));
    assert!(!success(199) && !success(300) && !success(404) && !success(500) && !success(0));
    assert!(redirect(300) && redirect(302) && redirect(399));
    assert!(!redirect(299) && !redirect(400) && !redirect(200));
}

#[test]
fn a_first_try_that_brings_nothing_back_is_made_again() {
    assert!(matches!(judge::<u8>(Attempt::First, Delivery::Lost), Verdict::Retry));
    assert!(matches!(judge::<u8>(Attempt::Second, Delivery::Lost), Verdict::Done(Err(Fault::Send))));
}

#[test]
fn an_answer_is_never_asked_for_again() {
    for attempt in [Attempt::First, Attempt::Second] {
        assert!(matches!(judge(attempt, answered(500, 1u8)), Verdict::Done(Err(Fault::Reject))));
        assert!(matches!(judge(attempt, answered(302, 1u8)), Verdict::Done(Err(Fault::Reject))));
        assert!(matches!(
            judge::<u8>(attempt, Delivery::Answered { status: 200, body: None }),
            Verdict::Done(Err(Fault::Invalid))
        ));
        assert!(matches!(
            judge::<u8>(attempt, Delivery::Answered { status: 404, body: None }),
            Verdict::Done(Err(Fault::Reject))
        ));
        assert!(matches!(judge(attempt, answered(201, 7u8)), Verdict::Done(Ok(7))));
    }
}

#[test]
fn a_second_try_has_twice_the_time() {
    let conf = Conf::new(&config::Settings { timeout: 5 });
    assert_eq!(conf.get_timeout(), 5);
    assert_eq!(conf.timeout_for(Attempt::First), 5);
    assert_eq!(conf.timeout_for(Attempt::Second), 10);
    let mut conf = conf;
    conf.set_timeout(&config::Settings { timeout: 0 });
    assert_eq!(conf.timeout_for(Attempt::Second), 0);
    conf.set_timeout(&config::Settings { timeout: u64::MAX / 2 });
    assert_eq!(conf.timeout_for(Attempt::Second), u64::MAX - 1);
    conf.set_timeout(&config::Settings { timeout: u64::MAX / 2 + 1 });
    assert_eq!(conf.timeout_for(Attempt::Second), u64::MAX);
    conf.set_timeout(&config::Settings { timeout: u64::MAX });
    assert_eq!(conf.timeout_for(Attempt::First), u64::MAX);
    assert_eq!(conf.timeout_for(Attempt::Second), u64::MAX);
}

#[test]
fn faults_become_the_errors_of_their_network_and_phase() {
    assert!(matches!(
        ApiError::from_fault(Backend::Twitter, Phase::Upload, Fault::Send),
        ApiError::Twitter(TwitterError::ImageUploadSendError)
    ));
    assert!(matches!(
        ApiError::from_fault(Backend::Gab, Phase::Upload, Fault::Reject),
        ApiError::Gab(GabError::ImageUploadServerReject)
    ));
    assert!(matches!(
        ApiError::from_fault(Backend::Mastodon, Phase::Upload, Fault::Invalid),
        ApiError::Mastodon(MastodonError::ImageUploadInvalidResponse)
    ));
    assert!(matches!(
        ApiError::from_fault(Backend::Minds, Phase::Publish, Fault::Send),
        ApiError::Minds(MindsError::PostUploadSendError)
    ));
    assert!(matches!(
        ApiError::from_fault(Backend::Twitter, Phase::Publish, Fault::Reject),
        ApiError::Twitter(TwitterError::PostUploadServerReject)
    ));
    assert!(matches!(
        ApiError::from_fault(Backend::Gab, Phase::Publish, Fault::Invalid),
        ApiError::Gab(GabError::PostUploadInvalidResponse)
    ));
    assert!(matches!(
        GabError::from_fault(Phase::Upload, Fault::Invalid),
        GabError::ImageUploadInvalidResponse
    ));
    assert!(matches!(
        MindsError::from_fault(Phase::Publish, Fault::Reject),
        MindsError::PostUploadServerReject
    ));
    assert!(matches!(
        MastodonError::from_fault(Phase::Publish, Fault::Send),
        MastodonError::PostUploadSendError
    ));
    assert!(matches!(
        TwitterError::from_fault(Phase::Upload, Fault::Reject),
        TwitterError::ImageUploadServerReject
    ));
}

#[test]
fn errors_are_told_with_their_network() {
    assert_eq!(
        ApiError::CannotLoadImage("cat.png".to_string(), "not found".to_string()).message(),
        "Error opening image 'cat.png'. Error: not found"
    );
    assert_eq!(
        ApiError::Twitter(TwitterError::PostUploadServerReject).message(),
        "Twitter API Error: Server rejected posting"
    );
    assert_eq!(ApiError::Gab(GabError::LoginFailed).message(), "Gab API Error: Login has failed");
    assert_eq!(
        ApiError::Mastodon(MastodonError::InvalidToken).message(),
        "Mastodon API Error: Token is not valid(empty)"
    );
    assert_eq!(
        ApiError::Minds(MindsError::LoginFailed).message(),
        "MindsError API Error: Login has failed"
    );
    assert!(matches!(ApiError::from(TwitterError::InvalidAuthData), ApiError::Twitter(TwitterError::InvalidAuthData)));
    assert!(matches!(ApiError::from(GabError::LoginFailed), ApiError::Gab(GabError::LoginFailed)));
    assert!(matches!(ApiError::from(MastodonError::InvalidToken), ApiError::Mastodon(MastodonError::InvalidToken)));
    assert!(matches!(ApiError::from(MindsError::LoginFailed), ApiError::Minds(MindsError::LoginFailed)));
}

#[test]
fn minds_takes_one_image_and_the_others_take_all() {
    for images in [0usize, 1, 2, 5] {
        assert_eq!(images_needed(Backend::Twitter, images), images);
        assert_eq!(images_needed(Backend::Gab, images), images);
        assert_eq!(images_needed(Backend::Mastodon, images), images);
    }
    assert_eq!(images_needed(Backend::Minds, 0), 0);
    assert_eq!(images_needed(Backend::Minds, 1), 1);
    assert_eq!(images_needed(Backend::Minds, 2), 1);
    assert_eq!(images_needed(Backend::Minds, 9), 1);
}

#[test]
fn work_without_images_begins_with_the_post() {
    let job = Job::begin(Backend::Gab, 0);
    assert!(matches!(job.stage, Stage::Posting));
    assert!(matches!(job.attempt, Attempt::First));
    assert!(!job.finished());
    let job = Job::begin(Backend::Gab, 2);
    assert!(matches!(job.stage, Stage::Uploading));
    assert_eq!(job.done(), 0);
}

#[test]
fn uploads_come_before_the_post() {
    let mut job = Job::begin(Backend::Gab, 2);
    job.posted(answered(200, text_id("too early")));
    assert!(matches!(job.stage, Stage::Uploading));
    job.uploaded(answered(200, guid("a")), 2);
    assert!(matches!(job.stage, Stage::Uploading));
    assert_eq!(job.done(), 1);
    job.uploaded(answered(200, guid("b")), 2);
    assert!(matches!(job.stage, Stage::Posting));
    assert_eq!(job.guids, vec!["a".to_string(), "b".to_string()]);
    job.uploaded(answered(200, guid("c")), 2);
    assert_eq!(job.done(), 2);
    job.posted(answered(200, text_id("p")));
    assert!(job.finished());
    assert!(matches!(job.into_result(), Ok(PostId::String(id)) if id == "p"));
}

#[test]
fn a_failed_upload_ends_the_work_without_a_post() {
    let mut job = Job::begin(Backend::Gab, 2);
    job.uploaded(answered(200, guid("a")), 2);
    job.uploaded(answered(500, guid("b")), 2);
    assert!(job.finished());
    job.posted(answered(200, text_id("p")));
    job.uploaded(answered(200, guid("c")), 2);
    assert!(matches!(job.into_result(), Err(ApiError::Gab(GabError::ImageUploadServerReject))));
}

#[test]
fn work_is_retried_once_when_nothing_comes_back() {
    let mut job = Job::begin(Backend::Mastodon, 1);
    job.uploaded(Delivery::Lost, 1);
    assert!(matches!(job.stage, Stage::Uploading));
    assert!(matches!(job.attempt, Attempt::Second));
    job.uploaded(answered(200, guid("a")), 1);
    assert!(matches!(job.stage, Stage::Posting));
    assert!(matches!(job.attempt, Attempt::First));
    job.posted(Delivery::Lost);
    assert!(matches!(job.attempt, Attempt::Second));
    job.posted(Delivery::Lost);
    assert!(matches!(job.into_result(), Err(ApiError::Mastodon(MastodonError::PostUploadSendError))));

    let mut job = Job::begin(Backend::Mastodon, 1);
    job.uploaded(Delivery::Lost, 1);
    job.uploaded(Delivery::Lost, 1);
    assert!(matches!(job.into_result(), Err(ApiError::Mastodon(MastodonError::ImageUploadSendError))));
}

#[test]
fn an_answer_that_cannot_be_read_is_invalid() {
    let mut job = Job::begin(Backend::Minds, 1);
    job.uploaded(Delivery::Answered { status: 200, body: None }, 1);
    assert!(matches!(job.into_result(), Err(ApiError::Minds(MindsError::ImageUploadInvalidResponse))));
    let mut job = Job::begin(Backend::Minds, 0);
    job.posted(Delivery::Answered { status: 200, body: None });
    assert!(matches!(job.into_result(), Err(ApiError::Minds(MindsError::PostUploadInvalidResponse))));
}

#[test]
fn a_name_of_the_wrong_kind_is_invalid() {
    let mut job = Job::begin(Backend::Twitter, 1);
    job.uploaded(answered(200, guid("g")), 1);
    assert!(matches!(job.into_result(), Err(ApiError::Twitter(TwitterError::ImageUploadInvalidResponse))));
    let mut job = Job::begin(Backend::Gab, 1);
    job.uploaded(answered(200, ResultImage::Id(1)), 1);
    assert!(matches!(job.into_result(), Err(ApiError::Gab(GabError::ImageUploadInvalidResponse))));
    let mut job = Job::begin(Backend::Twitter, 1);
    job.uploaded(answered(200, ResultImage::Id(7)), 1);
    assert_eq!(job.ids, vec![7]);
    assert!(matches!(job.stage, Stage::Posting));
}

#[test]
fn work_that_was_left_counts_as_not_sent() {
    assert!(matches!(
        Job::begin(Backend::Twitter, 1).into_result(),
        Err(ApiError::Twitter(TwitterError::ImageUploadSendError))
    ));
    assert!(matches!(
        Job::begin(Backend::Twitter, 0).into_result(),
        Err(ApiError::Twitter(TwitterError::PostUploadSendError))
    ));
}

#[test]
fn names_of_images_are_numbers_or_strings() {
    assert_eq!(ResultImage::Id(5).id(), 5);
    assert_eq!(ResultImage::Guid("g".to_string()).guid(), "g");
}

#[test]
fn an_unreadable_image_ends_the_sending_at_once() {
    let api = api(true, true, true, true);
    let unreadable = Unreadable { path: "gone.png".to_string(), reason: "No such file".to_string() };
    let sending = api.send(post("hello", &[]), Err(unreadable));
    assert!(matches!(
        sending,
        Err(ApiError::CannotLoadImage(path, reason)) if path == "gone.png" && reason == "No such file"
    ));
}

#[test]
fn each_network_in_use_has_its_result() {
    for mask in 0..16u8 {
        let used = [mask & 1 != 0, mask & 2 != 0, mask & 4 != 0, mask & 8 != 0];
        let api = api(used[0], used[1], used[2], used[3]);
        for fail in [false, true] {
            let mut sending = api.send(post("hello", &[]), Ok(vec![])).ok().unwrap();
            for backend in ALL {
                if fail {
                    sending.posted(backend, Delivery::Answered { status: 500, body: None });
                } else {
                    sending.posted(backend, answered(200, text_id("p")));
                }
                assert!(sending.settled(backend));
            }
            let (twitter, gab, mastodon, minds) = sending.finish().into_parts();
            assert_eq!(twitter.is_some(), used[0]);
            assert_eq!(gab.is_some(), used[1]);
            assert_eq!(mastodon.is_some(), used[2]);
            assert_eq!(minds.is_some(), used[3]);
            for slot in [twitter, gab, mastodon, minds] {
                if let Some(result) = slot {
                    assert_eq!(result.is_err(), fail);
                }
            }
        }
    }
}

#[test]
fn a_sending_that_was_left_still_has_a_result_for_each_network_in_use() {
    let api = api(true, false, true, false);
    let sending = api.send(post("hello", &[]), Ok(vec![image("a")])).ok().unwrap();
    assert!(!sending.settled(Backend::Twitter));
    assert!(sending.settled(Backend::Gab));
    let (twitter, gab, mastodon, minds) = sending.finish().into_parts();
    assert!(matches!(twitter, Some(Err(ApiError::Twitter(TwitterError::ImageUploadSendError)))));
    assert!(gab.is_none());
    assert!(matches!(mastodon, Some(Err(ApiError::Mastodon(MastodonError::ImageUploadSendError)))));
    assert!(minds.is_none());
}

#[test]
fn only_mastodon_posts_the_text_with_its_tags() {
    let api = api(false, false, true, false);
    let mut sending = api.send(post("hello", &["rust", "cli"]), Ok(vec![])).ok().unwrap();
    assert_eq!(sending.text, "hello\n#rust #cli");
    for backend in [Backend::Twitter, Backend::Gab, Backend::Minds] {
        assert!(matches!(api.action(&sending, backend), Action::Idle));
    }
    match api.action(&sending, Backend::Mastodon) {
        Action::Send { request, timeout, phase } => {
            assert_eq!(timeout, 5);
            assert_eq!(phase, Phase::Publish);
            assert_eq!(request.url, "https://example.social/api/v1/statuses");
            assert_eq!(request.authorization.as_deref(), Some("Bearer mt"));
            match request.body {
                Body::Json(Payload::MastodonStatus(status)) => {
                    assert_eq!(status.status, "hello\n#rust #cli");
                    assert!(status.media_ids.is_empty());
                    assert!(!status.sensitive);
                },
                _ => panic!("a post is JSON"),
            }
        },
        _ => panic!("the post is due"),
    }
    sending.posted(Backend::Mastodon, answered(200, text_id("m1")));
    assert!(matches!(api.action(&sending, Backend::Mastodon), Action::Done));
    let mut result = sending.finish();
    assert!(result.twitter().is_none());
    assert!(result.gab().is_none());
    assert!(result.minds().is_none());
    assert!(matches!(result.mastodon(), Some(Ok(PostId::String(id))) if id == "m1"));
}

#[test]
fn a_failure_of_gab_leaves_twitter_alone() {
    let api = api(true, true, false, false);
    let mut sending = api.send(post("hello", &[]), Ok(vec![image("cat.png")])).ok().unwrap();
    sending.uploaded(Backend::Gab, Delivery::Answered { status: 500, body: None });
    sending.uploaded(Backend::Twitter, answered(200, ResultImage::Id(11)));
    assert!(matches!(api.action(&sending, Backend::Gab), Action::Done));
    match api.action(&sending, Backend::Twitter) {
        Action::Send { request, phase, .. } => {
            assert_eq!(phase, Phase::Publish);
            match request.body {
                Body::Form(fields) => {
                    assert_eq!(fields[1], ("media_ids".to_string(), "11".to_string()));
                },
                _ => panic!("a tweet is a form"),
            }
        },
        _ => panic!("the tweet is due"),
    }
    sending.posted(Backend::Twitter, answered(200, PostId::Numeric(99)));
    let mut result = sending.finish();
    assert!(matches!(result.gab(), Some(Err(ApiError::Gab(GabError::ImageUploadServerReject)))));
    assert!(matches!(result.twitter(), Some(Ok(PostId::Numeric(99)))));
    assert!(result.mastodon().is_none());
    assert!(result.minds().is_none());
}

#[test]
fn the_order_of_events_of_different_networks_does_not_matter() {
    let api = api(true, true, true, true);
    let run = |gab_first: bool, gab_fails: bool| {
        let mut sending = api.send(post("hello", &[]), Ok(vec![])).ok().unwrap();
        let gab = |sending: &mut Sending| {
            if gab_fails {
                sending.posted(Backend::Gab, Delivery::Answered { status: 503, body: None });
            } else {
                sending.posted(Backend::Gab, answered(200, text_id("g")));
            }
        };
        if gab_first {
            gab(&mut sending);
        }
        sending.posted(Backend::Twitter, answered(200, PostId::Numeric(1)));
        sending.posted(Backend::Mastodon, Delivery::Lost);
        sending.posted(Backend::Minds, answered(404, text_id("x")));
        sending.posted(Backend::Mastodon, answered(200, text_id("m")));
        if !gab_first {
            gab(&mut sending);
        }
        sending.finish().into_parts()
    };
    for gab_first in [false, true] {
        for gab_fails in [false, true] {
            let (twitter, gab, mastodon, minds) = run(gab_first, gab_fails);
            assert!(matches!(twitter, Some(Ok(PostId::Numeric(1)))));
            assert!(matches!(mastodon, Some(Ok(PostId::String(id))) if id == "m"));
            assert!(matches!(minds, Some(Err(ApiError::Minds(MindsError::PostUploadServerReject)))));
            assert_eq!(gab.unwrap().is_err(), gab_fails);
        }
    }
}

#[test]
fn minds_attaches_the_first_of_several_images() {
    let api = api(false, false, false, true);
    let images = vec![image("first.png"), image("second.png"), image("third.png")];
    let mut sending = api.send(post("hello", &[]), Ok(images)).ok().unwrap();
    assert_eq!(sending.skipped(Backend::Minds), 2);
    assert_eq!(sending.skipped(Backend::Gab), 0);
    match api.action(&sending, Backend::Minds) {
        Action::Send { request, phase, .. } => {
            assert_eq!(phase, Phase::Upload);
            assert!(matches!(request.body, Body::File(part) if part.name == "first.png"));
        },
        _ => panic!("the upload is due"),
    }
    sending.uploaded(Backend::Minds, answered(200, guid("g1")));
    match api.action(&sending, Backend::Minds) {
        Action::Send { request, phase, .. } => {
            assert_eq!(phase, Phase::Publish);
            match request.body {
                Body::Json(Payload::MindsPost(post)) => {
                    assert_eq!(post.attachment_guid.as_deref(), Some("g1"));
                    assert_eq!(post.message, "hello");
                },
                _ => panic!("a post is JSON"),
            }
        },
        _ => panic!("the post is due"),
    }
    sending.posted(Backend::Minds, answered(200, text_id("done")));
    let mut result = sending.finish();
    assert!(matches!(result.minds(), Some(Ok(PostId::String(id))) if id == "done"));
}

#[test]
fn the_others_upload_every_image_in_order() {
    let api = api(false, true, false, false);
    let images = vec![image("first.png"), image("second.png")];
    let mut sending = api.send(post("hello", &[]), Ok(images)).ok().unwrap();
    assert_eq!(sending.skipped(Backend::Gab), 0);
    for (name, id) in [("first.png", "g1"), ("second.png", "g2")] {
        match api.action(&sending, Backend::Gab) {
            Action::Send { request, phase, timeout } => {
                assert_eq!(phase, Phase::Upload);
                assert_eq!(timeout, 5);
                assert_eq!(request.url, "https://gab.com/api/v1/media");
                assert!(matches!(request.body, Body::File(part) if part.name == name && part.data == name.as_bytes()));
            },
            _ => panic!("an upload is due"),
        }
        sending.uploaded(Backend::Gab, answered(200, guid(id)));
    }
    match api.action(&sending, Backend::Gab) {
        Action::Send { request, phase, .. } => {
            assert_eq!(phase, Phase::Publish);
            match request.body {
                Body::Json(Payload::GabStatus(post)) => {
                    assert_eq!(post.media_attachments, vec!["g1".to_string(), "g2".to_string()]);
                },
                _ => panic!("a post is JSON"),
            }
        },
        _ => panic!("the post is due"),
    }
}

#[test]
fn the_second_try_is_planned_with_twice_the_time() {
    let api = api(false, true, false, false);
    let mut sending = api.send(post("hello", &[]), Ok(vec![image("a")])).ok().unwrap();
    sending.uploaded(Backend::Gab, Delivery::Lost);
    match api.action_at(&sending, Backend::Gab, "n", 1) {
        Action::Send { timeout, phase, .. } => {
            assert_eq!(timeout, 10);
            assert_eq!(phase, Phase::Upload);
        },
        _ => panic!("the upload is due again"),
    }
    sending.uploaded(Backend::Gab, Delivery::Lost);
    assert!(matches!(api.action_at(&sending, Backend::Gab, "n", 1), Action::Done));
}

#[test]
fn work_whose_client_is_gone_cannot_send() {
    let mut api = api(false, true, false, false);
    let mut sending = api.send(post("hello", &[]), Ok(vec![])).ok().unwrap();
    let client = api.disable_gab();
    assert!(client.is_some());
    assert!(!api.enabled(Backend::Gab));
    assert!(matches!(
        api.action(&sending, Backend::Gab),
        Action::Unsendable(Phase::Publish)
    ));
    sending.posted(Backend::Gab, Delivery::Lost);
    sending.posted(Backend::Gab, Delivery::Lost);
    let mut result = sending.finish();
    assert!(matches!(result.gab(), Some(Err(ApiError::Gab(GabError::PostUploadSendError)))));
    api.enable_gab(client);
    assert!(api.enabled(Backend::Gab));
}

#[test]
fn a_job_can_be_driven_on_its_own() {
    let api = api(true, false, false, false);
    let images = vec![image("a")];
    let flags = PostFlags { nsfw: true };
    let mut job = Job::begin(Backend::Twitter, images.len());
    match api.job_action_at(&job, "hello", &flags, &images, "abc", 3) {
        Action::Send { request, phase, timeout } => {
            assert_eq!(phase, Phase::Upload);
            assert_eq!(timeout, 5);
            assert_eq!(request.url, "https://upload.twitter.com/1.1/media/upload.json");
            assert!(matches!(request.body, Body::Form(fields) if fields == vec![("media_data".to_string(), "YQ==".to_string())]));
        },
        _ => panic!("the upload is due"),
    }
    job.uploaded(answered(200, ResultImage::Id(4)), images.len());
    match api.job_action(&job, "hello", &flags, &images) {
        Action::Send { request, phase, .. } => {
            assert_eq!(phase, Phase::Publish);
            match request.body {
                Body::Form(fields) => assert_eq!(
                    fields,
                    vec![
                        ("status".to_string(), "hello".to_string()),
                        ("media_ids".to_string(), "4".to_string()),
                        ("possibly_sensitive".to_string(), "true".to_string()),
                    ]
                ),
                _ => panic!("a tweet is a form"),
            }
        },
        _ => panic!("the tweet is due"),
    }
}

#[test]
fn results_are_handed_out_once() {
    let mut result = PostResult::from_parts(
        Some(Ok(PostId::Numeric(1))),
        Some(Err(ApiError::Gab(GabError::PostUploadServerReject))),
        None,
        Some(Ok(PostId::String("m".to_string()))),
    );
    assert!(matches!(result.twitter(), Some(Ok(PostId::Numeric(1)))));
    assert!(result.twitter().is_none());
    assert!(matches!(result.gab(), Some(Err(ApiError::Gab(GabError::PostUploadServerReject)))));
    assert!(result.gab().is_none());
    assert!(result.mastodon().is_none());
    assert!(result.mastodon().is_none());
    let (twitter, gab, mastodon, minds) = result.into_parts();
    assert!(twitter.is_none() && gab.is_none() && mastodon.is_none());
    assert!(matches!(minds, Some(Ok(PostId::String(id))) if id == "m"));
}

#[test]
fn results_come_in_the_order_of_the_networks() {
    let result = PostResult::from_parts(
        Some(Ok(PostId::Numeric(1))),
        Some(Ok(PostId::Numeric(2))),
        Some(Ok(PostId::Numeric(3))),
        Some(Ok(PostId::Numeric(4))),
    );
    let (twitter, gab, mastodon, minds) = result.into_parts();
    assert!(matches!(twitter, Some(Ok(PostId::Numeric(1)))));
    assert!(matches!(gab, Some(Ok(PostId::Numeric(2)))));
    assert!(matches!(mastodon, Some(Ok(PostId::Numeric(3)))));
    assert!(matches!(minds, Some(Ok(PostId::Numeric(4)))));
}

#[test]
fn results_are_told_with_the_network_or_as_the_error() {
    let told = report(Backend::Twitter, &Ok(PostId::Numeric(12)));
    assert_eq!(told.line, "Twitter(Id=12)");
    assert!(!told.failed);
    let told = report(Backend::Mastodon, &Ok(PostId::String("abc".to_string())));
    assert_eq!(told.line, "Mastodon(Id=abc)");
    let told = report(Backend::Gab, &Err(ApiError::Gab(GabError::PostUploadServerReject)));
    assert_eq!(told.line, "Gab API Error: Server rejected posting");
    assert!(told.failed);
    let told = report(Backend::Minds, &Ok(PostId::Str("fixed")));
    assert_eq!(told.line, "Minds(Id=fixed)");
    assert_eq!(Backend::Gab.name(), "Gab");
}
