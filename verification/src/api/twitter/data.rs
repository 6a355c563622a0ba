//! Twitter's data: the keys that sign a request, and what is sent and received.
use vstd::prelude::*;
use vstd::string::StringExecFns;
use vstd::utf8::encode_utf8;

use crate::api::http::Method;
use crate::api::messages::ResultImage;
use crate::api::twitter::clock::unix_seconds;
use crate::api::twitter::encode::encoded_text;
use crate::api::twitter::encode::percent_encode;
use crate::api::twitter::encode::push_percent_encoded;
use crate::api::twitter::params::pairs_of;
use crate::api::twitter::params::lemma_put_sorted;
use crate::api::twitter::params::put;
use crate::api::twitter::params::sorted;
use crate::api::twitter::params::query;
use crate::api::twitter::params::Pair;
use crate::api::twitter::params::Params;
use crate::api::twitter::sign::base64;
use crate::api::twitter::sign::base64_max;
use crate::api::twitter::sign::encode_base64;
use crate::api::twitter::sign::hmac_sha1;
use crate::api::twitter::sign::is_nonce;
use crate::api::twitter::sign::random_alphanumeric;
use crate::api::twitter::sign::sign_hmac_sha1;
use crate::api::twitter::sign::SIGNED_MAX;
use crate::config;
use crate::data::PostId;
use crate::text::decimal;
use crate::text::decimal_string;
use crate::text::joined;
use crate::text::opt_text;
use crate::text::push_decimal;

verus! {

/// The number of characters of a nonce.
pub const NONCE_LEN: usize = 32;

/// A key and a value, both percent-encoded.
pub open spec fn encoded_pair(key: Seq<char>, value: Seq<char>) -> Pair {
    (encoded_text(key), encoded_text(value))
}

/// `base` with the pairs of `raw` put in one after another, each
/// percent-encoded; of two pairs with one key the later one stays.
pub open spec fn encoded_into(base: Seq<Pair>, raw: Seq<Pair>) -> Seq<Pair>
    decreases raw.len(),
{
    if raw.len() == 0 {
        base
    } else {
        put(encoded_into(base, raw.drop_last()), encoded_pair(raw.last().0, raw.last().1))
    }
}

/// Putting pairs into sorted pairs leaves them sorted.
pub proof fn lemma_encoded_into_sorted(base: Seq<Pair>, raw: Seq<Pair>)
    requires
        sorted(base),
    ensures
        sorted(encoded_into(base, raw)),
    decreases raw.len(),
{
    if raw.len() > 0 {
        lemma_encoded_into_sorted(base, raw.drop_last());
        lemma_put_sorted(
            encoded_into(base, raw.drop_last()),
            encoded_pair(raw.last().0, raw.last().1),
        );
    }
}

/// The text that is signed: method, address and parameters, each
/// percent-encoded, with `&` between them.
pub open spec fn base_text(method: Method, uri: Seq<char>, params: Seq<char>) -> Seq<char> {
    encoded_text(method.text()) + seq!['&'] + encoded_text(uri) + seq!['&'] + encoded_text(params)
}

/// Whether key and text are short enough to be signed.
pub open spec fn signable(key: Seq<char>, base: Seq<char>) -> bool {
    encode_utf8(key).len() <= SIGNED_MAX && encode_utf8(base).len() <= SIGNED_MAX
}

/// Puts `key` and `value` into `params`, both percent-encoded.
fn insert_encoded(params: &mut Params, key: &str, value: &str)
    ensures
        final(params)@ == put(old(params)@, encoded_pair(key@, value@)),
{
    params.insert(percent_encode(key), percent_encode(value));
}

/// The keys that sign requests to Twitter.
pub struct Oauth {
    /// The consumer's key, percent-encoded.
    consumer_key: String,
    /// The consumer's and the user's secret, percent-encoded, with `&`
    /// between them: the key of the signature.
    signature_key: String,
    /// The user's key, percent-encoded.
    oauth_token: String,
}

impl Oauth {
    /// The consumer's key as it is held.
    pub closed spec fn consumer_key(self) -> Seq<char> {
        self.consumer_key@
    }

    /// The key of the signature.
    pub closed spec fn signature_key(self) -> Seq<char> {
        self.signature_key@
    }

    /// The user's key as it is held.
    pub closed spec fn token(self) -> Seq<char> {
        self.oauth_token@
    }

    /// The keys of a configuration.
    pub fn new(config: config::Twitter) -> (oauth: Oauth)
        ensures
            oauth.consumer_key() == encoded_text(config.consumer.key@),
            oauth.token() == encoded_text(config.access.key@),
            oauth.signature_key() == encoded_text(config.consumer.secret@) + seq!['&']
                + encoded_text(config.access.secret@),
    {
        let consumer_key = percent_encode(config.consumer.key.as_str());
        let oauth_token = percent_encode(config.access.key.as_str());
        let mut signature_key = percent_encode(config.consumer.secret.as_str());
        signature_key.push('&');
        push_percent_encoded(&mut signature_key, config.access.secret.as_str());
        assert(signature_key@ =~= encoded_text(config.consumer.secret@) + seq!['&'] + encoded_text(
            config.access.secret@,
        ));
        Oauth { consumer_key, signature_key, oauth_token }
    }

    /// Takes `new_token`, which is percent-encoded already, as the user's key.
    pub fn set_oauth_token(&mut self, new_token: &str)
        ensures
            final(self).token() == new_token@,
            final(self).consumer_key() == old(self).consumer_key(),
            final(self).signature_key() == old(self).signature_key(),
    {
        self.oauth_token = String::from_str(new_token);
    }

    /// The parameters that are signed: those of the request and the six of
    /// the protocol, which take the place of request parameters of their
    /// names.
    pub open spec fn signed_pairs(self, raw: Seq<Pair>, nonce: Seq<char>, timestamp: u64) -> Seq<
        Pair,
    > {
        let own = encoded_into(Seq::empty(), raw);
        let a = put(own, encoded_pair("oauth_consumer_key"@, self.consumer_key()));
        let b = put(a, encoded_pair("oauth_nonce"@, nonce));
        let c = put(b, encoded_pair("oauth_signature_method"@, "HMAC-SHA1"@));
        let d = put(c, encoded_pair("oauth_timestamp"@, decimal(timestamp as nat)));
        let e = put(d, encoded_pair("oauth_version"@, "1.0"@));
        put(e, encoded_pair("oauth_token"@, self.token()))
    }

    /// The signature of a request, where it can be signed.
    pub open spec fn signature_text(self, method: Method, uri: Seq<char>, params: Seq<char>)
        -> Option<Seq<char>> {
        let base = base_text(method, uri, params);
        if signable(self.signature_key(), base) {
            Some(base64(hmac_sha1(encode_utf8(self.signature_key()), encode_utf8(base))))
        } else {
            None
        }
    }

    /// The value of the `Authorization` header for a nonce, a time and a
    /// signature.
    pub open spec fn header_text(self, nonce: Seq<char>, timestamp: u64, signature: Seq<char>)
        -> Seq<char> {
        "OAuth oauth_consumer_key=\""@ + self.consumer_key() + "\", oauth_nonce=\""@ + nonce
            + "\", oauth_signature=\""@ + encoded_text(signature)
            + "\", oauth_signature_method=\""@ + "HMAC-SHA1"@ + "\", oauth_timestamp=\""@
            + decimal(timestamp as nat) + "\", oauth_token=\""@ + self.token()
            + "\", oauth_version=\""@ + "1.0"@ + "\""@
    }

    /// The value of the `Authorization` header of a request, where the
    /// request can be signed.
    pub open spec fn authorization(
        self,
        method: Method,
        uri: Seq<char>,
        raw: Seq<Pair>,
        nonce: Seq<char>,
        timestamp: u64,
    ) -> Option<Seq<char>> {
        match self.signature_text(method, uri, query(self.signed_pairs(raw, nonce, timestamp))) {
            Some(signature) => Some(self.header_text(nonce, timestamp, signature)),
            None => None,
        }
    }

    /// Signs a request: the base64 text of the HMAC-SHA1 tag of method,
    /// address and parameters under the key of the signature. Gives nothing
    /// where the key or the text is too long to be signed.
    pub fn signature(&self, method: &Method, uri: &str, params: Option<String>) -> (signature:
        Option<String>)
        ensures
            opt_text(signature) == self.signature_text(
                *method,
                uri@,
                match params {
                    Some(params) => params@,
                    None => Seq::empty(),
                },
            ),
    {
        let params = match params {
            Some(params) => params,
            None => String::new(),
        };
        let mut base = percent_encode(method.as_str());
        base.push('&');
        push_percent_encoded(&mut base, uri);
        base.push('&');
        push_percent_encoded(&mut base, params.as_str());
        assert(base@ =~= base_text(*method, uri@, params@));
        let key = self.signature_key.as_str().as_bytes();
        let text = base.as_str().as_bytes();
        if key.len() as u64 > SIGNED_MAX || text.len() as u64 > SIGNED_MAX {
            return None;
        }
        let tag = sign_hmac_sha1(key, text);
        Some(encode_base64(tag.as_slice()))
    }

    /// The value of the `Authorization` header for a nonce, a time and a
    /// signature.
    pub fn header(&self, nonce: &str, timestamp: u64, signature: &str) -> (out: String)
        ensures
            out@ == self.header_text(nonce@, timestamp, signature@),
    {
        let mut out = String::from_str("OAuth oauth_consumer_key=\"");
        out.append(self.consumer_key.as_str());
        out.append("\", oauth_nonce=\"");
        out.append(nonce);
        out.append("\", oauth_signature=\"");
        push_percent_encoded(&mut out, signature);
        out.append("\", oauth_signature_method=\"");
        out.append("HMAC-SHA1");
        out.append("\", oauth_timestamp=\"");
        push_decimal(&mut out, timestamp);
        out.append("\", oauth_token=\"");
        out.append(self.oauth_token.as_str());
        out.append("\", oauth_version=\"");
        out.append("1.0");
        out.append("\"");
        out
    }

    /// The value of the `Authorization` header of a request that is made at
    /// `timestamp` with `nonce`.
    pub fn gen_auth_at(
        &self,
        method: &Method,
        uri: &str,
        params: &Vec<(String, String)>,
        nonce: &str,
        timestamp: u64,
    ) -> (header: Option<String>)
        ensures
            opt_text(header) == self.authorization(
                *method,
                uri@,
                pairs_of(params@),
                nonce@,
                timestamp,
            ),
    {
        let ghost raw = pairs_of(params@);
        let mut all = Params::new();
        let mut i: usize = 0;
        assert(raw.take(0) =~= Seq::<Pair>::empty());
        while i < params.len()
            invariant
                i <= params.len(),
                raw == pairs_of(params@),
                all@ == encoded_into(Seq::empty(), raw.take(i as int)),
            decreases params.len() - i,
        {
            proof {
                let next = raw.take(i + 1);
                assert(next.drop_last() =~= raw.take(i as int));
                assert(next.last() == (params@[i as int].0@, params@[i as int].1@));
            }
            insert_encoded(&mut all, params[i].0.as_str(), params[i].1.as_str());
            i += 1;
        }
        assert(raw.take(params.len() as int) =~= raw);
        let time = decimal_string(timestamp);
        insert_encoded(&mut all, "oauth_consumer_key", self.consumer_key.as_str());
        insert_encoded(&mut all, "oauth_nonce", nonce);
        insert_encoded(&mut all, "oauth_signature_method", "HMAC-SHA1");
        insert_encoded(&mut all, "oauth_timestamp", time.as_str());
        insert_encoded(&mut all, "oauth_version", "1.0");
        insert_encoded(&mut all, "oauth_token", self.oauth_token.as_str());
        assert(all@ == self.signed_pairs(raw, nonce@, timestamp));
        match self.signature(method, uri, Some(all.render())) {
            Some(signature) => Some(self.header(nonce, timestamp, signature.as_str())),
            None => None,
        }
    }

    /// The value of the `Authorization` header of a request that is made now,
    /// with a fresh nonce of letters and digits.
    pub fn gen_auth(&self, method: &Method, uri: &str, params: &Vec<(String, String)>) -> (header:
        Option<String>)
        ensures
            exists|nonce: Seq<char>, timestamp: u64|
                is_nonce(nonce, NONCE_LEN as nat) && opt_text(header) == #[trigger] self.authorization(
                    *method,
                    uri@,
                    pairs_of(params@),
                    nonce,
                    timestamp,
                ),
    {
        let nonce = Self::nonce();
        let timestamp = unix_seconds();
        self.gen_auth_at(method, uri, params, nonce.as_str(), timestamp)
    }

    /// A fresh nonce: thirty-two letters and digits.
    pub fn nonce() -> (nonce: String)
        ensures
            is_nonce(nonce@, NONCE_LEN as nat),
    {
        random_alphanumeric(NONCE_LEN)
    }
}

/// The parameters that are signed stand in the rising order of their encoded
/// keys, every key once, whatever the order of the request's parameters.
pub proof fn lemma_signed_pairs_sorted(oauth: Oauth, raw: Seq<Pair>, nonce: Seq<char>, timestamp: u64)
    ensures
        sorted(oauth.signed_pairs(raw, nonce, timestamp)),
{
    let own = encoded_into(Seq::empty(), raw);
    lemma_encoded_into_sorted(Seq::empty(), raw);
    let a = put(own, encoded_pair("oauth_consumer_key"@, oauth.consumer_key()));
    lemma_put_sorted(own, encoded_pair("oauth_consumer_key"@, oauth.consumer_key()));
    let b = put(a, encoded_pair("oauth_nonce"@, nonce));
    lemma_put_sorted(a, encoded_pair("oauth_nonce"@, nonce));
    let c = put(b, encoded_pair("oauth_signature_method"@, "HMAC-SHA1"@));
    lemma_put_sorted(b, encoded_pair("oauth_signature_method"@, "HMAC-SHA1"@));
    let d = put(c, encoded_pair("oauth_timestamp"@, decimal(timestamp as nat)));
    lemma_put_sorted(c, encoded_pair("oauth_timestamp"@, decimal(timestamp as nat)));
    let e = put(d, encoded_pair("oauth_version"@, "1.0"@));
    lemma_put_sorted(d, encoded_pair("oauth_version"@, "1.0"@));
    lemma_put_sorted(e, encoded_pair("oauth_token"@, oauth.token()));
}

/// An image as it is uploaded.
#[derive(Debug)]
pub struct Media {
    /// The content in base64.
    pub media_data: String,
}

impl Media {
    /// The base64 text of a file's content.
    pub fn from_bytes(bytes: &[u8]) -> (media: Media)
        requires
            bytes@.len() <= base64_max(),
        ensures
            media.media_data@ == base64(bytes@),
    {
        Media { media_data: encode_base64(bytes) }
    }

    /// The base64 text of a file's content, or nothing where the content is
    /// too long to be encoded.
    pub fn checked_from_bytes(bytes: &[u8]) -> (media: Option<Media>)
        ensures
            match media {
                Some(media) => bytes@.len() <= base64_max() && media.media_data@ == base64(bytes@),
                None => bytes@.len() > base64_max(),
            },
    {
        if bytes.len() <= usize::MAX / 512 {
            Some(Media::from_bytes(bytes))
        } else {
            None
        }
    }

    /// The fields of the form that uploads the image.
    pub fn fields(&self) -> (fields: Vec<(String, String)>)
        ensures
            pairs_of(fields@) == seq![("media_data"@, self.media_data@)],
    {
        let mut fields: Vec<(String, String)> = Vec::new();
        fields.push((String::from_str("media_data"), self.media_data.clone()));
        assert(pairs_of(fields@) =~= seq![("media_data"@, self.media_data@)]);
        fields
    }
}

/// The answer to an upload.
#[derive(Debug, Clone, Copy)]
pub struct MediaResponse {
    /// The identifier of what was uploaded.
    pub media_id: u64,
}

impl MediaResponse {
    /// The name of the uploaded image.
    pub fn image(self) -> (image: ResultImage)
        ensures
            image == ResultImage::Id(self.media_id),
    {
        ResultImage::Id(self.media_id)
    }
}

/// The identifiers in decimal with `,` between each two neighbours.
pub open spec fn ids_text(ids: Seq<u64>) -> Seq<char> {
    joined(ids.map_values(|id: u64| decimal(id as nat)), seq![','])
}

/// A tweet.
#[derive(Debug)]
pub struct Tweet {
    /// The text.
    pub status: String,
    /// The identifiers of the attachments with `,` between them.
    pub media_ids: Option<String>,
    /// Whether the content is not safe for work.
    pub possibly_sensitive: bool,
}

impl Tweet {
    /// A tweet without attachments that is safe for work.
    pub fn new(status: String) -> (tweet: Tweet)
        ensures
            tweet.status == status,
            tweet.media_ids is None,
            !tweet.possibly_sensitive,
    {
        Tweet { status, media_ids: None, possibly_sensitive: false }
    }

    /// Says whether the tweet is not safe for work.
    pub fn nsfw(self, value: bool) -> (tweet: Tweet)
        ensures
            tweet.status == self.status,
            tweet.media_ids == self.media_ids,
            tweet.possibly_sensitive == value,
    {
        let mut tweet = self;
        tweet.possibly_sensitive = value;
        tweet
    }

    /// Attaches what the identifiers name; without identifiers nothing
    /// changes.
    pub fn media_ids(self, ids: &[u64]) -> (tweet: Tweet)
        ensures
            tweet.status == self.status,
            tweet.possibly_sensitive == self.possibly_sensitive,
            ids@.len() == 0 ==> tweet.media_ids == self.media_ids,
            ids@.len() > 0 ==> opt_text(tweet.media_ids) == Some(ids_text(ids@)),
    {
        let mut tweet = self;
        if ids.len() > 0 {
            let ghost all = ids@.map_values(|id: u64| decimal(id as nat));
            let mut text = String::new();
            let mut i: usize = 0;
            while i < ids.len()
                invariant
                    i <= ids.len(),
                    all == ids@.map_values(|id: u64| decimal(id as nat)),
                    text@ == joined(all.take(i as int), seq![',']),
                decreases ids.len() - i,
            {
                let ghost start = text@;
                let ghost next = all.take(i + 1);
                assert(next.drop_last() =~= all.take(i as int));
                assert(next.last() == decimal(ids@[i as int] as nat));
                if i > 0 {
                    text.push(',');
                    assert(text@ =~= start + seq![',']);
                }
                let ghost mid = text@;
                push_decimal(&mut text, ids[i]);
                if i == 0 {
                    assert(text@ =~= decimal(ids@[0] as nat));
                }
                i += 1;
            }
            assert(all.take(ids.len() as int) =~= all);
            tweet.media_ids = Some(text);
        }
        tweet
    }

    /// The fields of the form that posts the tweet, which are also the
    /// parameters that are signed: the text, the attachments where there are
    /// any, and whether the tweet is not safe for work.
    pub open spec fn field_pairs(self) -> Seq<Pair> {
        let sensitive = if self.possibly_sensitive {
            "true"@
        } else {
            "false"@
        };
        match self.media_ids {
            Some(ids) => seq![
                ("status"@, self.status@),
                ("media_ids"@, ids@),
                ("possibly_sensitive"@, sensitive),
            ],
            None => seq![("status"@, self.status@), ("possibly_sensitive"@, sensitive)],
        }
    }

    /// The fields of the form that posts the tweet.
    pub fn fields(&self) -> (fields: Vec<(String, String)>)
        ensures
            pairs_of(fields@) == self.field_pairs(),
    {
        let mut fields: Vec<(String, String)> = Vec::new();
        fields.push((String::from_str("status"), self.status.clone()));
        match &self.media_ids {
            Some(ids) => {
                fields.push((String::from_str("media_ids"), ids.clone()));
            },
            None => {},
        }
        let sensitive = if self.possibly_sensitive {
            "true"
        } else {
            "false"
        };
        fields.push((String::from_str("possibly_sensitive"), String::from_str(sensitive)));
        assert(pairs_of(fields@) =~= self.field_pairs());
        fields
    }
}

/// The answer to a post.
#[derive(Debug, Clone, Copy)]
pub struct TweetResponse {
    /// The identifier of the tweet.
    pub id: u64,
}

impl TweetResponse {
    /// The identifier of the published tweet.
    pub fn post_id(self) -> (id: PostId)
        ensures
            id == PostId::Numeric(self.id),
    {
        PostId::Numeric(self.id)
    }
}

} // verus!
