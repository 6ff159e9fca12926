//! The signed `PUT` request that stores a logo in the object store, and the
//! confirmation reported once it has been stored.

use vstd::prelude::*;
use crate::form::Submission;
use crate::signer::{sign, signature};

verus! {

/// The object store's access key, secret key and bucket; fixed per deployment.
#[derive(Debug)]
pub struct Credentials {
    pub access_key: String,
    pub secret_key: String,
    pub bucket: String,
}

/// A fully built upload: one `PUT` of `body` to `url`, with its headers.
#[derive(Debug)]
pub struct UploadRequest {
    pub url: String,
    pub host: String,
    pub path: String,
    pub content_length: usize,
    pub content_type: String,
    pub date: String,
    pub authorization: String,
    pub body: Vec<u8>,
}

/// The media type registered for a file name's extension, or
/// `application/octet-stream` when there is none.
pub uninterp spec fn mime_of(file_name: Seq<char>) -> Seq<char>;

/// Relies on mime_guess::from_path and MimeGuess::first_or_octet_stream: the first
/// media type known for the extension, else `application/octet-stream`, as text.
#[verifier::external_body]
fn media_type_for(file_name: &str) -> (r: String)
    ensures
        r@ == mime_of(file_name@),
{
    mime_guess::from_path(file_name).first_or_octet_stream().to_string()
}

/// Relies on chrono::Utc::now and DateTime::format: the current UTC time as
/// `Wed, 01 Jan 2020 00:00:00 GMT`. Nothing is promised of its value.
#[verifier::external_body]
fn current_http_date() -> (r: String) {
    chrono::Utc::now().format("%a, %d %b %Y %H:%M:%S GMT").to_string()
}

/// The host of a bucket in the object store.
pub open spec fn host_of(bucket: Seq<char>) -> Seq<char> {
    bucket + ".s3.amazonaws.com"@
}

/// The canonical resource of an object: `/<bucket>/<object_key>`.
pub open spec fn resource_of(bucket: Seq<char>, object_key: Seq<char>) -> Seq<char> {
    "/"@ + bucket + "/"@ + object_key
}

/// The string to sign: the verb, an empty content-hash line, the content type,
/// the date and the canonical resource, one per line.
pub open spec fn string_to_sign_of(
    content_type: Seq<char>,
    date: Seq<char>,
    bucket: Seq<char>,
    object_key: Seq<char>,
) -> Seq<char> {
    "PUT\n\n"@ + content_type + "\n"@ + date + "\n"@ + resource_of(bucket, object_key)
}

/// `r` is the upload of `payload` under `object_key`, with this content type
/// and date, signed with the credentials.
pub open spec fn is_upload(
    r: UploadRequest,
    creds: Credentials,
    object_key: Seq<char>,
    payload: Seq<u8>,
    content_type: Seq<char>,
    date: Seq<char>,
) -> bool {
    &&& r.host@ == host_of(creds.bucket@)
    &&& r.path@ == "/"@ + object_key
    &&& r.url@ == "https://"@ + host_of(creds.bucket@) + "/"@ + object_key
    &&& r.content_length == payload.len()
    &&& r.content_type@ == content_type
    &&& r.date@ == date
    &&& r.authorization@ == "AWS "@ + creds.access_key@ + ":"@ + signature(
        creds.secret_key@,
        date,
        string_to_sign_of(content_type, date, creds.bucket@, object_key),
    )
    &&& r.body@ == payload
}

/// Builds the string to sign for an upload.
pub fn string_to_sign(content_type: &str, date: &str, bucket: &str, object_key: &str) -> (r: String)
    ensures
        r@ == string_to_sign_of(content_type@, date@, bucket@, object_key@),
{
    let mut r = String::from_str("PUT\n\n");
    r.append(content_type);
    r.append("\n");
    r.append(date);
    r.append("\n");
    r.append("/");
    r.append(bucket);
    r.append("/");
    r.append(object_key);
    r
}

/// Builds the signed upload of `payload` under `object_key`, with the given
/// content type and date. The object key is the client's filename taken
/// verbatim: it is neither normalised nor stripped of path separators, so a
/// name such as `a/b.png` is stored under that full key.
pub fn build_request_with(
    creds: &Credentials,
    object_key: &str,
    payload: Vec<u8>,
    content_type: &str,
    date: &str,
) -> (r: UploadRequest)
    ensures
        is_upload(r, *creds, object_key@, payload@, content_type@, date@),
{
    let mut host = creds.bucket.clone();
    host.append(".s3.amazonaws.com");
    let mut path = String::from_str("/");
    path.append(object_key);
    let mut url = String::from_str("https://");
    url.append(host.as_str());
    url.append(path.as_str());
    let to_sign = string_to_sign(content_type, date, creds.bucket.as_str(), object_key);
    let sig = sign(creds.secret_key.as_str(), date, to_sign.as_str());
    let mut authorization = String::from_str("AWS ");
    authorization.append(creds.access_key.as_str());
    authorization.append(":");
    authorization.append(sig.as_str());
    assert(url@ =~= "https://"@ + host_of(creds.bucket@) + "/"@ + object_key@);
    UploadRequest {
        url,
        host,
        path,
        content_length: payload.len(),
        content_type: String::from_str(content_type),
        date: String::from_str(date),
        authorization,
        body: payload,
    }
}

/// Builds the signed upload of `payload` under `object_key` at the given date,
/// with the content type that the key's extension gives.
pub fn build_upload_request(creds: &Credentials, object_key: &str, payload: Vec<u8>, date: &str) -> (r:
    UploadRequest)
    ensures
        is_upload(r, *creds, object_key@, payload@, mime_of(object_key@), date@),
{
    let content_type = media_type_for(object_key);
    build_request_with(creds, object_key, payload, content_type.as_str(), date)
}

/// Builds the signed upload of a submission's logo, dated now. Only a validated
/// `Submission` leads here, so nothing is sent for a refused form.
pub fn prepare_upload(creds: &Credentials, submission: &Submission) -> (r: UploadRequest)
    ensures
        is_upload(
            r,
            *creds,
            submission.logo_filename@,
            submission.logo_bytes@,
            mime_of(submission.logo_filename@),
            r.date@,
        ),
{
    let date = current_http_date();
    let payload = submission.logo_bytes.clone();
    assert(payload@ =~= submission.logo_bytes@);
    build_upload_request(creds, submission.logo_filename.as_str(), payload, date.as_str())
}

/// The plain-text confirmation of a stored submission.
pub open spec fn confirmation_of(s: Submission) -> Seq<char> {
    "Created company "@ + s.name@ + " with description "@ + s.description@ + " and website "@
        + s.website@ + " and logo "@ + s.logo_filename@
}

/// The confirmation reported to the caller once the logo is stored.
pub fn confirmation(s: &Submission) -> (r: String)
    ensures
        r@ == confirmation_of(*s),
{
    let mut r = String::from_str("Created company ");
    r.append(s.name.as_str());
    r.append(" with description ");
    r.append(s.description.as_str());
    r.append(" and website ");
    r.append(s.website.as_str());
    r.append(" and logo ");
    r.append(s.logo_filename.as_str());
    r
}

/// An upload of no bytes declares a content length of zero and sends an empty body.
pub proof fn empty_payload_has_zero_length(
    r: UploadRequest,
    creds: Credentials,
    object_key: Seq<char>,
    payload: Seq<u8>,
    content_type: Seq<char>,
    date: Seq<char>,
)
    requires
        is_upload(r, creds, object_key, payload, content_type, date),
        payload.len() == 0,
    ensures
        r.content_length == 0,
        r.body@.len() == 0,
{
}

} // verus!
