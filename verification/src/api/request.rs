//! A request as the networks' clients describe it, for the caller to make.
use vstd::prelude::*;
use vstd::string::StringExecFns;
use vstd::string::StringSliceAdditionalSpecFns;
use vstd::utf8::encode_utf8;

use crate::api::gab;
use crate::api::http::Method;
use crate::api::mastodon;
use crate::api::minds;
use crate::text::copy_bytes;
use crate::text::push_bytes;

verus! {

/// What a request sends as JSON.
#[derive(Debug)]
pub enum Payload {
    /// A post for Gab.
    GabStatus(gab::data::PostData),
    /// Name and password for Gab.
    GabLogin(gab::data::Auth),
    /// A post for Mastodon.
    MastodonStatus(mastodon::data::NewStatus),
    /// A post for Minds.
    MindsPost(minds::data::Post),
    /// Name and password for Minds.
    MindsLogin(minds::data::Auth),
}

/// A file that a request sends as the one part of a multipart form.
#[derive(Debug)]
pub struct FilePart {
    /// The name of the form's field.
    pub field: String,
    /// The file's name.
    pub name: String,
    /// The file's media type.
    pub mime: String,
    /// The file's content.
    pub data: Vec<u8>,
}

impl FilePart {
    /// Whether this is the file of the given name, type and content, in the
    /// field `file`.
    pub open spec fn carries(self, name: Seq<char>, mime: Seq<char>, data: Seq<u8>) -> bool {
        &&& self.field@ == "file"@
        &&& self.name@ == name
        &&& self.mime@ == mime
        &&& self.data@ == data
    }

    /// The file of the given name, type and content, in the field `file`.
    pub fn new(name: &str, mime: &str, data: &[u8]) -> (part: FilePart)
        ensures
            part.carries(name@, mime@, data@),
    {
        FilePart {
            field: String::from_str("file"),
            name: String::from_str(name),
            mime: String::from_str(mime),
            data: copy_bytes(data),
        }
    }
}

/// The boundary that this library puts between the parts of a form.
pub const BOUNDARY: &'static str = "-fie";

/// The first lines of a multipart form's one part: the boundary, the field
/// and the file's name, the file's type, and an empty line.
pub open spec fn part_head(
    boundary: Seq<char>,
    field: Seq<char>,
    name: Seq<char>,
    mime: Seq<char>,
) -> Seq<char> {
    "\r\n--"@ + boundary + "\r\nContent-Disposition: form-data; name=\""@ + field
        + "\"; filename=\""@ + name + "\"\r\nContent-Type: "@ + mime + "\r\n\r\n"@
}

/// The last line of a multipart form: the boundary that closes it.
pub open spec fn part_tail(boundary: Seq<char>) -> Seq<char> {
    "\r\n--"@ + boundary + "--\r\n"@
}

/// The bytes of a multipart form with one file: the first lines, the file's
/// content as it is, and the closing boundary.
pub open spec fn multipart(
    boundary: Seq<char>,
    field: Seq<char>,
    name: Seq<char>,
    mime: Seq<char>,
    data: Seq<u8>,
) -> Seq<u8> {
    encode_utf8(part_head(boundary, field, name, mime)) + data + encode_utf8(part_tail(boundary))
}

/// The content type of a multipart form with the given boundary.
pub open spec fn multipart_type(boundary: Seq<char>) -> Seq<char> {
    "multipart/form-data; boundary="@ + boundary
}

/// The content type of a multipart form with the given boundary.
pub fn multipart_content_type(boundary: &str) -> (value: String)
    ensures
        value@ == multipart_type(boundary@),
{
    let mut value = String::from_str("multipart/form-data; boundary=");
    value.append(boundary);
    value
}

impl FilePart {
    /// The bytes of the multipart form that holds this file, with the given
    /// boundary.
    pub fn encode(&self, boundary: &str) -> (body: Vec<u8>)
        ensures
            body@ == multipart(boundary@, self.field@, self.name@, self.mime@, self.data@),
    {
        let mut head = String::from_str("\r\n--");
        head.append(boundary);
        head.append("\r\nContent-Disposition: form-data; name=\"");
        head.append(self.field.as_str());
        head.append("\"; filename=\"");
        head.append(self.name.as_str());
        head.append("\"\r\nContent-Type: ");
        head.append(self.mime.as_str());
        head.append("\r\n\r\n");
        let mut tail = String::from_str("\r\n--");
        tail.append(boundary);
        tail.append("--\r\n");
        let mut body: Vec<u8> = Vec::new();
        push_bytes(&mut body, head.as_str().as_bytes());
        push_bytes(&mut body, self.data.as_slice());
        push_bytes(&mut body, tail.as_str().as_bytes());
        assert(body@ =~= multipart(boundary@, self.field@, self.name@, self.mime@, self.data@));
        body
    }
}

/// What a request sends.
#[derive(Debug)]
pub enum Body {
    /// Nothing.
    Empty,
    /// The fields of a form, in their order.
    Form(Vec<(String, String)>),
    /// One file, as a multipart form.
    File(FilePart),
    /// JSON.
    Json(Payload),
}

/// A request.
#[derive(Debug)]
pub struct Request {
    /// The method.
    pub method: Method,
    /// The address.
    pub url: String,
    /// The value of the `Authorization` header, where there is one.
    pub authorization: Option<String>,
    /// The cookies to send along.
    pub cookies: Vec<String>,
    /// What is sent.
    pub body: Body,
}

/// The value of the `Authorization` header that presents a token.
pub open spec fn bearer(token: Seq<char>) -> Seq<char> {
    "Bearer "@ + token
}

/// The value of the `Authorization` header that presents `token`.
pub fn bearer_auth(token: &str) -> (value: String)
    ensures
        value@ == bearer(token@),
{
    let mut value = String::from_str("Bearer ");
    value.append(token);
    value
}

} // verus!
