use fie::api::gab::data::PostData;
use fie::api::gab::data::PostResponse;
use fie::api::gab::login::Login;
use fie::api::gab::login::Page;
use fie::api::gab::Gab;
use fie::api::gab::GabError;
use fie::api::http::Delivery;
use fie::api::http::Method;
use fie::api::mastodon::data::EntityId;
use fie::api::mastodon::data::NewStatus;
use fie::api::mastodon::Mastodon;
use fie::api::mastodon::MastodonError;
use fie::api::messages::ResultImage;
use fie::api::minds::data::Auth;
use fie::api::minds::data::Oauth2;
use fie::api::minds::data::Post;
use fie::api::minds::data::UploadResponse;
use fie::api::minds::Minds;
use fie::api::minds::MindsError;
use fie::api::request::bearer_auth;
use fie::api::request::multipart_content_type;
use fie::api::request::Body;
use fie::api::request::FilePart;
use fie::api::request::Payload;
use fie::api::request::BOUNDARY;
use fie::config;
use fie::data::PostFlags;
use fie::data::PostId;

fn gab() -> Gab {
    Gab::new(config::Gab { access_token: "secret".to_string() }).ok().unwrap()
}

fn mastodon() -> Mastodon {
    Mastodon::new(config::Mastodon {
        host: "example.social".to_string(),
        access_token: "secret".to_string(),
    })
    .ok()
    .unwrap()
}

fn granted(token: &str) -> Delivery<Oauth2> {
    Delivery::Answered {
        status: 200,
        body: Some(Oauth2 {
            access_token: token.to_string(),
            expires_in: 3600,
            status: "success".to_string(),
        }),
    }
}

fn page(text: &str) -> Page {
    Page { cookies: vec!["session=1".to_string()], location: None, text: text.to_string() }
}

#[test]
fn a_bearer_presents_the_token() {
    assert_eq!(bearer_auth("abc"), "Bearer abc");
    assert_eq!(bearer_auth(""), "Bearer ");
}

#[test]
fn gab_uploads_a_file_with_its_token() {
    let request = gab().upload_image("cat.png", "image/png", &[1, 2, 3]);
    assert_eq!(request.method, Method::Post);
    assert_eq!(request.url, "https://gab.com/api/v1/media");
    assert_eq!(request.authorization.as_deref(), Some("Bearer secret"));
    assert!(request.cookies.is_empty());
    match request.body {
        Body::File(part) => {
            assert_eq!(part.field, "file");
            assert_eq!(part.name, "cat.png");
            assert_eq!(part.mime, "image/png");
            assert_eq!(part.data, vec![1, 2, 3]);
        },
        _ => panic!("an upload is a file"),
    }
}

#[test]
fn gab_posts_json_with_its_token() {
    let attachments = vec!["a1".to_string(), "b2".to_string()];
    let request = gab().post("hello", &attachments, &PostFlags { nsfw: true });
    assert_eq!(request.method, Method::Post);
    assert_eq!(request.url, "https://gab.com/api/v1/statuses");
    assert_eq!(request.authorization.as_deref(), Some("Bearer secret"));
    match request.body {
        Body::Json(Payload::GabStatus(post)) => {
            assert_eq!(post.body, "hello");
            assert_eq!(post.nsfw, 1);
            assert_eq!(post.media_attachments, attachments);
        },
        _ => panic!("a post is JSON"),
    }
}

#[test]
fn a_gab_post_has_fixed_fields() {
    let post = PostData::new("hello", &vec![], &PostFlags { nsfw: false });
    assert_eq!(post.body, "hello");
    assert_eq!(post.reply_to, "");
    assert_eq!(post.is_quote, 0);
    assert_eq!(post.is_html, 0);
    assert_eq!(post.nsfw, 0);
    assert_eq!(post.is_premium, 0);
    assert_eq!(post._method, "post");
    assert_eq!(post.gif, "");
    assert_eq!(post.category, None);
    assert_eq!(post.topic, None);
    assert!(!post.share_twitter);
    assert!(!post.share_facebook);
    assert!(post.media_attachments.is_empty());
}

#[test]
fn gab_answers_give_names_and_identifiers() {
    let upload = fie::api::gab::data::UploadResponse { id: "u1".to_string() };
    assert!(matches!(upload.image(), ResultImage::Guid(guid) if guid == "u1"));
    let answer = PostResponse { post: fie::api::gab::data::Post { id: "p1".to_string() } };
    assert!(matches!(answer.post_id(), PostId::String(id) if id == "p1"));
}

#[test]
fn the_token_of_a_page_stands_between_quotes_after_its_name() {
    let text = "<input type=\"hidden\" name=\"_token\" value=\"abc123\">";
    assert_eq!(Gab::extract_token(text).as_deref(), Some("abc123"));
    assert_eq!(Gab::extract_token("_token = \"x\"").as_deref(), Some("x"));
    assert_eq!(Gab::extract_token("_token:  \"\"").as_deref(), Some(""));
    assert_eq!(Gab::extract_token("_token1234\"tok\"").as_deref(), Some("tok"));
    assert_eq!(Gab::extract_token("a _token b \"first\" \"second\"").as_deref(), Some("first"));
}

#[test]
fn a_page_without_a_token_has_none() {
    assert_eq!(Gab::extract_token(""), None);
    assert_eq!(Gab::extract_token("no name here \"x\""), None);
    assert_eq!(Gab::extract_token("_token"), None);
    assert_eq!(Gab::extract_token("_token\"abc\""), None);
    assert_eq!(Gab::extract_token("_token value \"open"), None);
    assert_eq!(Gab::extract_token("\"before\" _token"), None);
}

#[test]
fn the_token_is_found_by_characters() {
    assert_eq!(Gab::extract_token("\u{e9}_token\u{e9}\u{e9}\"\u{2603}\"").as_deref(), Some("\u{2603}"));
}

#[test]
fn signing_in_to_gab_goes_through_its_stages() {
    let login = Login::start();
    let first = login.request("me", "pw").unwrap();
    assert_eq!(first.method, Method::Get);
    assert_eq!(first.url, "https://gab.com/auth/login");
    assert!(matches!(first.body, Body::Empty));

    let login = login.receive(Delivery::Answered {
        status: 200,
        body: Some(page("name=\"_token\" value=\"t1\"")),
    });
    assert!(matches!(&login, Login::SubmitCredentials { token, .. } if token == "t1"));
    let second = login.request("me", "pw").unwrap();
    assert_eq!(second.method, Method::Post);
    assert_eq!(second.url, "https://gab.com/auth/login");
    assert_eq!(second.cookies, vec!["session=1".to_string()]);
    match second.body {
        Body::Json(Payload::GabLogin(auth)) => {
            assert_eq!(auth.username, "me");
            assert_eq!(auth.password, "pw");
            assert_eq!(auth.remember, "on");
            assert_eq!(auth._token, "t1");
        },
        _ => panic!("name and password go as JSON"),
    }

    let login = login.receive(Delivery::Answered {
        status: 302,
        body: Some(Page {
            cookies: vec!["session=2".to_string()],
            location: Some("https://gab.com/home".to_string()),
            text: String::new(),
        }),
    });
    let third = login.request("me", "pw").unwrap();
    assert_eq!(third.method, Method::Get);
    assert_eq!(third.url, "https://gab.com/home");
    assert_eq!(third.cookies, vec!["session=2".to_string()]);

    let login = login.receive(Delivery::Answered {
        status: 200,
        body: Some(page("name=\"_token\" value=\"jwt\"")),
    });
    assert!(matches!(&login, Login::Done(Ok(token)) if token == "jwt"));
    assert!(login.request("me", "pw").is_none());
    let client = login.client().unwrap().ok().unwrap();
    assert_eq!(
        client.post("x", &vec![], &PostFlags::default()).authorization.as_deref(),
        Some("Bearer jwt")
    );
}

#[test]
fn signing_in_to_gab_fails_without_a_new_token() {
    let submit = || {
        Login::start()
            .receive(Delivery::Answered { status: 200, body: Some(page("_token = \"t1\"")) })
            .receive(Delivery::Answered {
                status: 301,
                body: Some(Page {
                    cookies: vec![],
                    location: Some("https://gab.com/home".to_string()),
                    text: String::new(),
                }),
            })
    };
    let same = submit().receive(Delivery::Answered { status: 200, body: Some(page("_token = \"t1\"")) });
    assert!(matches!(same, Login::Done(Err(GabError::LoginFailed))));
    let none = submit().receive(Delivery::Answered { status: 200, body: Some(page("nothing")) });
    assert!(matches!(none, Login::Done(Err(GabError::LoginFailed))));
    let refused = submit().receive(Delivery::Answered { status: 500, body: Some(page("_token = \"t2\"")) });
    assert!(matches!(refused, Login::Done(Err(GabError::LoginFailed))));
    let lost = submit().receive(Delivery::Lost);
    assert!(matches!(lost, Login::Done(Err(GabError::LoginFailed))));
}

#[test]
fn signing_in_to_gab_fails_at_each_stage() {
    assert!(matches!(Login::start().receive(Delivery::Lost), Login::Done(Err(GabError::LoginFailed))));
    assert!(matches!(
        Login::start().receive(Delivery::Answered { status: 404, body: Some(page("_token = \"t\"")) }),
        Login::Done(Err(GabError::LoginFailed))
    ));
    assert!(matches!(
        Login::start().receive(Delivery::Answered { status: 200, body: None }),
        Login::Done(Err(GabError::LoginFailed))
    ));
    assert!(matches!(
        Login::start().receive(Delivery::Answered { status: 200, body: Some(page("no name")) }),
        Login::Done(Err(GabError::LoginFailed))
    ));
    let asked = || Login::start().receive(Delivery::Answered { status: 200, body: Some(page("_token = \"t\"")) });
    assert!(matches!(
        asked().receive(Delivery::Answered { status: 200, body: Some(page("")) }),
        Login::Done(Err(GabError::LoginFailed))
    ));
    assert!(matches!(
        asked().receive(Delivery::Answered { status: 302, body: Some(page("")) }),
        Login::Done(Err(GabError::LoginFailed))
    ));
    assert!(asked().client().is_none());
    let over = Login::Done(Err(GabError::LoginFailed)).receive(Delivery::Answered {
        status: 200,
        body: Some(page("_token = \"t\"")),
    });
    assert!(matches!(over, Login::Done(Err(GabError::LoginFailed))));
    assert!(matches!(over.client(), Some(Err(GabError::LoginFailed))));
}

#[test]
fn mastodon_wants_a_host_and_a_token() {
    let client = Mastodon::new(config::Mastodon {
        host: "example.social".to_string(),
        access_token: "t".to_string(),
    });
    assert!(client.is_ok());
    let bad_host = Mastodon::new(config::Mastodon {
        host: "not a host".to_string(),
        access_token: "t".to_string(),
    });
    assert!(matches!(bad_host, Err(MastodonError::InvalidHostUri)));
    let no_host = Mastodon::new(config::Mastodon { host: String::new(), access_token: "t".to_string() });
    assert!(matches!(no_host, Err(MastodonError::InvalidHostUri)));
    let no_token = Mastodon::new(config::Mastodon {
        host: "example.social".to_string(),
        access_token: String::new(),
    });
    assert!(matches!(no_token, Err(MastodonError::InvalidToken)));
    let neither = Mastodon::new(config::Mastodon::default());
    assert!(matches!(neither, Err(MastodonError::InvalidHostUri)));
}

#[test]
fn mastodon_goes_by_what_it_is_told_of_the_host() {
    let config = || config::Mastodon { host: "whatever".to_string(), access_token: "t".to_string() };
    assert!(Mastodon::checked(config(), true).is_ok());
    assert!(matches!(Mastodon::checked(config(), false), Err(MastodonError::InvalidHostUri)));
    let empty = || config::Mastodon { host: "whatever".to_string(), access_token: String::new() };
    assert!(matches!(Mastodon::checked(empty(), true), Err(MastodonError::InvalidToken)));
    assert!(matches!(Mastodon::checked(empty(), false), Err(MastodonError::InvalidHostUri)));
}

#[test]
fn mastodon_talks_to_its_host() {
    let upload = mastodon().upload_image("cat.png", "image/png", &[9]);
    assert_eq!(upload.url, "https://example.social/api/v1/media");
    assert_eq!(upload.authorization.as_deref(), Some("Bearer secret"));
    assert!(matches!(upload.body, Body::File(part) if part.name == "cat.png" && part.data == vec![9]));
    let attachments = vec!["m1".to_string()];
    let post = mastodon().post("hello", &attachments, &PostFlags { nsfw: true });
    assert_eq!(post.method, Method::Post);
    assert_eq!(post.url, "https://example.social/api/v1/statuses");
    assert_eq!(post.authorization.as_deref(), Some("Bearer secret"));
    match post.body {
        Body::Json(Payload::MastodonStatus(status)) => {
            assert_eq!(status.status, "hello");
            assert_eq!(status.media_ids, attachments);
            assert!(status.sensitive);
        },
        _ => panic!("a post is JSON"),
    }
}

#[test]
fn a_mastodon_status_carries_text_attachments_and_flag() {
    let status = NewStatus::new("s", &vec!["a".to_string()], &PostFlags { nsfw: false });
    assert_eq!(status.status, "s");
    assert_eq!(status.media_ids, vec!["a".to_string()]);
    assert!(!status.sensitive);
    let id = EntityId { id: "e1".to_string() };
    assert!(matches!(id.image(), ResultImage::Guid(guid) if guid == "e1"));
    let id = EntityId { id: "e2".to_string() };
    assert!(matches!(id.post_id(), PostId::String(id) if id == "e2"));
}

#[test]
fn minds_signs_in_with_name_and_password() {
    let config = config::Minds { username: "me".to_string(), password: "pw".to_string() };
    let request = Minds::login(&config);
    assert_eq!(request.method, Method::Post);
    assert_eq!(request.url, "https://www.minds.com/api/v2/oauth/token");
    assert_eq!(request.authorization, None);
    match request.body {
        Body::Json(Payload::MindsLogin(auth)) => {
            assert_eq!(auth.grant_type, "password");
            assert_eq!(auth.client_id, "mobile");
            assert_eq!(auth.username, "me");
            assert_eq!(auth.password, "pw");
        },
        _ => panic!("name and password go as JSON"),
    }
    let auth = Auth::new("a", "b");
    assert_eq!(auth.username, "a");
    assert_eq!(auth.password, "b");
}

#[test]
fn minds_takes_the_granted_token() {
    let client = Minds::new(granted("tok")).ok().unwrap();
    let request = client.post("hello", None, &PostFlags::default());
    assert_eq!(request.authorization.as_deref(), Some("Bearer tok"));
}

#[test]
fn minds_fails_to_sign_in_without_a_token() {
    assert!(matches!(Minds::new(Delivery::Lost), Err(MindsError::LoginFailed)));
    assert!(matches!(
        Minds::new(Delivery::Answered { status: 200, body: None }),
        Err(MindsError::LoginFailed)
    ));
    let refused = match granted("tok") {
        Delivery::Answered { body, .. } => Delivery::Answered { status: 401, body },
        Delivery::Lost => Delivery::Lost,
    };
    assert!(matches!(Minds::new(refused), Err(MindsError::LoginFailed)));
    let redirected = match granted("tok") {
        Delivery::Answered { body, .. } => Delivery::Answered { status: 302, body },
        Delivery::Lost => Delivery::Lost,
    };
    assert!(matches!(Minds::new(redirected), Err(MindsError::LoginFailed)));
}

#[test]
fn minds_uploads_and_posts_with_its_token() {
    let client = Minds::new(granted("tok")).ok().unwrap();
    let upload = client.upload_image("cat.png", "image/png", &[7, 8]);
    assert_eq!(upload.url, "https://www.minds.com/api/v1/media");
    assert_eq!(upload.authorization.as_deref(), Some("Bearer tok"));
    assert!(matches!(upload.body, Body::File(part) if part.field == "file" && part.data == vec![7, 8]));
    let post = client.post("hello", Some("g1".to_string()), &PostFlags { nsfw: true });
    assert_eq!(post.url, "https://www.minds.com/api/v1/newsfeed");
    match post.body {
        Body::Json(Payload::MindsPost(post)) => {
            assert_eq!(post.message, "hello");
            assert_eq!(post.attachment_guid.as_deref(), Some("g1"));
            assert_eq!(post.mature, 1);
            assert_eq!(post.access_id, 2);
            assert_eq!(post.is_rich, 0);
            assert_eq!(post.wire_threshold, None);
            assert_eq!(post.title, None);
            assert_eq!(post.description, None);
            assert_eq!(post.thumbnail, None);
            assert_eq!(post.url, None);
        },
        _ => panic!("a post is JSON"),
    }
}

#[test]
fn a_minds_post_may_have_no_attachment() {
    let post = Post::new("m", &None, &PostFlags { nsfw: false });
    assert_eq!(post.message, "m");
    assert_eq!(post.attachment_guid, None);
    assert_eq!(post.mature, 0);
    let answer = UploadResponse { guid: "g".to_string() };
    assert!(matches!(answer.image(), ResultImage::Guid(guid) if guid == "g"));
    let answer = UploadResponse { guid: "h".to_string() };
    assert!(matches!(answer.post_id(), PostId::String(id) if id == "h"));
}

#[test]
fn a_file_is_framed_as_a_multipart_form() {
    let part = FilePart::new("cat.png", "image/png", &[0, 255, 10]);
    let mut expected = Vec::new();
    expected.extend_from_slice(b"\r\n---fie\r\n");
    expected.extend_from_slice(b"Content-Disposition: form-data; name=\"file\"; filename=\"cat.png\"\r\n");
    expected.extend_from_slice(b"Content-Type: image/png\r\n\r\n");
    expected.extend_from_slice(&[0, 255, 10]);
    expected.extend_from_slice(b"\r\n---fie--\r\n");
    assert_eq!(part.encode(BOUNDARY), expected);
    assert_eq!(multipart_content_type(BOUNDARY), "multipart/form-data; boundary=-fie");
}

#[test]
fn an_empty_file_is_framed_too() {
    let part = FilePart::new("", "", &[]);
    assert_eq!(
        part.encode("b"),
        b"\r\n--b\r\nContent-Disposition: form-data; name=\"file\"; filename=\"\"\r\nContent-Type: \r\n\r\n\r\n--b--\r\n"
            .to_vec()
    );
}

#[test]
fn the_errors_of_the_networks_in_words() {
    assert_eq!(GabError::LoginFailed.description(), "Login has failed");
    assert_eq!(MindsError::LoginFailed.description(), "Login has failed");
    assert_eq!(MastodonError::InvalidHostUri.description(), "Provided Host URI is not valid URI");
    assert_eq!(MastodonError::InvalidToken.description(), "Token is not valid(empty)");
    assert_eq!(GabError::ImageUploadSendError.description(), "Failed to send request to upload image");
    assert_eq!(MindsError::ImageUploadServerReject.description(), "Server rejected upload of image");
    assert_eq!(
        MastodonError::ImageUploadInvalidResponse.description(),
        "Server sent invalid response. Doesn't contain field id"
    );
    assert_eq!(GabError::PostUploadSendError.description(), "Failed to send request to perform text post");
    assert_eq!(MindsError::PostUploadServerReject.description(), "Server rejected posting");
    assert_eq!(
        MastodonError::PostUploadInvalidResponse.description(),
        "Server sent invalid response. Doesn't contain field id"
    );
}
