use job_board::signer::sign;
use job_board::upload::{
    build_request_with, build_upload_request, confirmation, string_to_sign, Credentials,
};
use job_board::form::Submission;

const DATE: &str = "Wed, 01 Jan 2020 00:00:00 GMT";
const TO_SIGN: &str = "PUT\n\ntext/plain\nWed, 01 Jan 2020 00:00:00 GMT\n/mybucket/logo.png";

fn creds() -> Credentials {
    Credentials {
        access_key: "AKID".to_string(),
        secret_key: "secret".to_string(),
        bucket: "mybucket".to_string(),
    }
}

#[test]
fn signature_fixture_is_reproduced() {
    assert_eq!(sign("secret", DATE, TO_SIGN), "43xXLe0/rWpJB1T+dlBfy6jioCk=");
}

#[test]
fn signature_is_the_same_on_every_call() {
    let first = sign("secret", DATE, TO_SIGN);
    for _ in 0..10 {
        assert_eq!(sign("secret", DATE, TO_SIGN), first);
    }
}

#[test]
fn one_character_of_the_string_to_sign_changes_the_signature() {
    let changed = "PUT\n\ntext/plain\nWed, 01 Jan 2020 00:00:00 GMT\n/mybucket/logo.pnh";
    let sig = sign("secret", DATE, changed);
    assert_eq!(sig, "WwEUsSbqpIbu/e1YITplpaeY07M=");
    assert_ne!(sig, sign("secret", DATE, TO_SIGN));
}

#[test]
fn one_character_of_the_date_changes_the_signature() {
    let sig = sign("secret", "Thu, 01 Jan 2020 00:00:00 GMT", TO_SIGN);
    assert_eq!(sig, "mllans3emnqZ8vQJRZahWy6mnSY=");
    assert_ne!(sig, sign("secret", DATE, TO_SIGN));
}

#[test]
fn signature_is_base64_of_twenty_bytes() {
    let sig = sign("", "", "");
    assert_eq!(sig.len(), 28);
    assert!(sig.ends_with('='));
}

#[test]
fn string_to_sign_has_the_fixed_layout() {
    assert_eq!(string_to_sign("text/plain", DATE, "mybucket", "logo.png"), TO_SIGN);
}

#[test]
fn request_carries_signed_headers_and_body() {
    let r = build_request_with(&creds(), "logo.png", vec![1, 2, 3], "text/plain", DATE);
    assert_eq!(r.url, "https://mybucket.s3.amazonaws.com/logo.png");
    assert_eq!(r.host, "mybucket.s3.amazonaws.com");
    assert_eq!(r.path, "/logo.png");
    assert_eq!(r.content_length, 3);
    assert_eq!(r.content_type, "text/plain");
    assert_eq!(r.date, DATE);
    assert_eq!(r.authorization, "AWS AKID:43xXLe0/rWpJB1T+dlBfy6jioCk=");
    assert_eq!(r.body, vec![1, 2, 3]);
}

#[test]
fn content_type_comes_from_the_extension() {
    let r = build_upload_request(&creds(), "logo.png", vec![9], DATE);
    assert_eq!(r.content_type, "image/png");
    assert_eq!(r.authorization, "AWS AKID:i/0v0LtV2AcvaciutwJzxYVOpPg=");
}

#[test]
fn unknown_extension_is_octet_stream() {
    let r = build_upload_request(&creds(), "logo.zzqx", vec![], DATE);
    assert_eq!(r.content_type, "application/octet-stream");
    let r = build_upload_request(&creds(), "logo", vec![], DATE);
    assert_eq!(r.content_type, "application/octet-stream");
}

#[test]
fn zero_byte_upload_has_zero_content_length() {
    let r = build_upload_request(&creds(), "empty.png", Vec::new(), DATE);
    assert_eq!(r.content_length, 0);
    assert!(r.body.is_empty());
}

#[test]
fn object_key_is_used_verbatim() {
    let r = build_request_with(&creds(), "dir/../a b.png", vec![], "image/png", DATE);
    assert_eq!(r.path, "/dir/../a b.png");
    assert_eq!(r.url, "https://mybucket.s3.amazonaws.com/dir/../a b.png");
}

#[test]
fn confirmation_lists_the_submission() {
    let s = Submission {
        name: "Acme".to_string(),
        description: "Rockets".to_string(),
        website: "https://acme.test".to_string(),
        logo_filename: "acme.png".to_string(),
        logo_bytes: vec![1],
    };
    assert_eq!(
        confirmation(&s),
        "Created company Acme with description Rockets and website https://acme.test and logo acme.png"
    );
}
