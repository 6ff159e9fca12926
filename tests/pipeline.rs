use job_board::form::{Disposition, FormField, Part, UploadError};
use job_board::pipeline::{advance, Action, Event, Stage};
use job_board::upload::Credentials;

fn creds() -> Credentials {
    Credentials {
        access_key: "AKID".to_string(),
        secret_key: "secret".to_string(),
        bucket: "mybucket".to_string(),
    }
}

fn text_part(header: &str, value: &str) -> Part {
    Part {
        disposition: Disposition::Header(header.to_string()),
        chunks: vec![value.as_bytes().to_vec()],
    }
}

fn run(parts: Vec<Part>) -> (Stage, Vec<Action>) {
    let c = creds();
    let mut stage = Stage::start();
    let mut actions = Vec::new();
    for p in parts {
        let (s, a) = advance(stage, Event::PartReceived(p), &c);
        stage = s;
        actions.push(a);
    }
    let (s, a) = advance(stage, Event::StreamEnded, &c);
    actions.push(a);
    (s, actions)
}

fn sends(actions: &[Action]) -> usize {
    actions.iter().filter(|a| matches!(a, Action::Send(_))).count()
}

#[test]
fn complete_upload_is_sent_then_confirmed() {
    let parts = vec![
        text_part("form-data; name=\"name\"", "Acme"),
        text_part("form-data; name=\"description\"", "Rockets"),
        text_part("form-data; name=\"website\"", "https://acme.test"),
        Part {
            disposition: Disposition::Header(
                "form-data; name=\"logo\"; filename=\"acme.png\"".to_string(),
            ),
            chunks: vec![],
        },
    ];
    let (stage, actions) = run(parts);
    assert_eq!(sends(&actions), 1);
    match actions.last() {
        Some(Action::Send(r)) => {
            assert_eq!(r.content_length, 0);
            assert_eq!(r.path, "/acme.png");
            assert_eq!(r.content_type, "image/png");
            assert!(r.authorization.starts_with("AWS AKID:"));
        }
        other => panic!("expected a send, got {:?}", other),
    }
    let (stage, action) = advance(stage, Event::UploadFinished(true), &creds());
    assert!(matches!(stage, Stage::Succeeded));
    match action {
        Action::Respond(m) => assert_eq!(
            m,
            "Created company Acme with description Rockets and website https://acme.test and logo acme.png"
        ),
        other => panic!("expected a response, got {:?}", other),
    }
}

#[test]
fn missing_website_never_reaches_the_store() {
    let parts = vec![
        text_part("form-data; name=\"name\"", "Acme"),
        text_part("form-data; name=\"description\"", "Rockets"),
        Part {
            disposition: Disposition::Header("form-data; filename=\"acme.png\"".to_string()),
            chunks: vec![vec![1]],
        },
    ];
    let (stage, actions) = run(parts);
    assert_eq!(sends(&actions), 0);
    let missing = UploadError::MissingField(FormField::Website);
    assert!(matches!(stage, Stage::Failed(e) if e == missing));
    assert!(matches!(actions.last(), Some(Action::Fail(e)) if *e == missing));
}

#[test]
fn failed_store_reports_transport_error() {
    let parts = vec![
        text_part("form-data; name=\"name\"", "Acme"),
        text_part("form-data; name=\"description\"", "Rockets"),
        text_part("form-data; name=\"website\"", "https://acme.test"),
        Part {
            disposition: Disposition::Header("form-data; filename=\"a.png\"".to_string()),
            chunks: vec![vec![1]],
        },
    ];
    let (stage, _) = run(parts);
    let (stage, action) = advance(stage, Event::UploadFinished(false), &creds());
    assert!(matches!(stage, Stage::Failed(UploadError::TransportError)));
    assert!(matches!(action, Action::Fail(UploadError::TransportError)));
}

#[test]
fn failure_is_terminal() {
    let c = creds();
    let (stage, action) = advance(Stage::start(), Event::StreamBroken, &c);
    assert!(matches!(action, Action::Fail(UploadError::MalformedPart)));
    let (stage, action) = advance(stage, Event::PartReceived(text_part("form-data; name=\"name\"", "x")), &c);
    assert!(matches!(action, Action::Ignore));
    let (stage, action) = advance(stage, Event::StreamEnded, &c);
    assert!(matches!(action, Action::Ignore));
    assert!(matches!(stage, Stage::Failed(UploadError::MalformedPart)));
}

#[test]
fn bad_part_fails_the_upload() {
    let (stage, actions) = run(vec![Part { disposition: Disposition::Unreadable, chunks: vec![] }]);
    assert!(matches!(actions[0], Action::Fail(UploadError::MalformedPart)));
    assert!(matches!(stage, Stage::Failed(UploadError::MalformedPart)));
}
