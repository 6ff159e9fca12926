use job_board::form::{
    assemble_form, classify, concat_chunks, dispatch_part, extract_filename, ingest_parts,
    validate_form, Disposition, FieldHandler, FormField, Part, PendingForm, TextField,
    UploadError,
};

fn text_part(header: &str, value: &str) -> Part {
    Part {
        disposition: Disposition::Header(header.to_string()),
        chunks: vec![value.as_bytes().to_vec()],
    }
}

fn file_part(header: &str, chunks: Vec<Vec<u8>>) -> Part {
    Part { disposition: Disposition::Header(header.to_string()), chunks }
}

fn complete_payload() -> Vec<Part> {
    vec![
        text_part("form-data; name=\"name\"", "Acme"),
        text_part("form-data; name=\"description\"", "Rockets and more"),
        text_part("form-data; name=\"website\"", "https://acme.test/"),
        file_part("form-data; name=\"logo\"; filename=\"acme.png\"", vec![vec![1, 2], vec![3]]),
    ]
}

fn chars(s: &str) -> Vec<char> {
    s.chars().collect()
}

#[test]
fn complete_payload_fills_the_form_exactly() {
    let form = ingest_parts(&complete_payload()).unwrap();
    assert_eq!(form.name.as_deref(), Some("Acme"));
    assert_eq!(form.description.as_deref(), Some("Rockets and more"));
    assert_eq!(form.website.as_deref(), Some("https://acme.test/"));
    assert_eq!(form.logo_filename.as_deref(), Some("acme.png"));
    assert_eq!(form.logo_bytes, Some(vec![1, 2, 3]));
    let s = assemble_form(form).unwrap();
    assert_eq!(s.name, "Acme");
    assert_eq!(s.logo_bytes, vec![1, 2, 3]);
}

#[test]
fn missing_website_is_reported() {
    let mut parts = complete_payload();
    parts.remove(2);
    let form = ingest_parts(&parts).unwrap();
    assert_eq!(
        assemble_form(form).unwrap_err(),
        UploadError::MissingField(FormField::Website)
    );
}

#[test]
fn missing_fields_are_reported_in_order() {
    assert_eq!(
        assemble_form(PendingForm::new()).unwrap_err(),
        UploadError::MissingField(FormField::Name)
    );
    let parts = vec![
        text_part("form-data; name=\"name\"", "Acme"),
        text_part("form-data; name=\"description\"", "d"),
        text_part("form-data; name=\"website\"", "https://acme.test/"),
    ];
    let form = ingest_parts(&parts).unwrap();
    assert_eq!(
        assemble_form(form).unwrap_err(),
        UploadError::MissingField(FormField::LogoFilename)
    );
}

#[test]
fn unmatched_part_is_dropped() {
    let mut parts = complete_payload();
    parts.insert(1, text_part("form-data; name=\"nickname\"", "Roadrunner"));
    let form = ingest_parts(&parts).unwrap();
    assert_eq!(form.name.as_deref(), Some("Acme"));
    assert_eq!(form.description.as_deref(), Some("Rockets and more"));
    assert_eq!(form.website.as_deref(), Some("https://acme.test/"));
    assert_eq!(form.logo_filename.as_deref(), Some("acme.png"));
    assert_eq!(form.logo_bytes, Some(vec![1, 2, 3]));
}

#[test]
fn part_without_disposition_is_skipped() {
    let mut parts = complete_payload();
    parts.push(Part { disposition: Disposition::Absent, chunks: vec![vec![0xff]] });
    assert!(ingest_parts(&parts).is_ok());
}

#[test]
fn unreadable_disposition_is_malformed() {
    let mut parts = complete_payload();
    parts.insert(0, Part { disposition: Disposition::Unreadable, chunks: vec![] });
    assert_eq!(ingest_parts(&parts).unwrap_err(), UploadError::MalformedPart);
}

#[test]
fn invalid_utf8_text_is_rejected() {
    let p = Part {
        disposition: Disposition::Header("form-data; name=\"name\"".to_string()),
        chunks: vec![vec![0x41, 0xc3]],
    };
    assert_eq!(dispatch_part(PendingForm::new(), &p).unwrap_err(), UploadError::InvalidEncoding);
}

#[test]
fn invalid_website_is_rejected() {
    let mut parts = complete_payload();
    parts[2] = text_part("form-data; name=\"website\"", "not a url");
    let form = ingest_parts(&parts).unwrap();
    assert_eq!(assemble_form(form).unwrap_err(), UploadError::InvalidUri);
}

#[test]
fn validation_follows_the_url_verdict() {
    let form = ingest_parts(&complete_payload()).unwrap();
    assert_eq!(validate_form(form, false).unwrap_err(), UploadError::InvalidUri);
    let form = ingest_parts(&complete_payload()).unwrap();
    assert_eq!(validate_form(form, true).unwrap().website, "https://acme.test/");
}

#[test]
fn zero_byte_file_is_accepted() {
    let p = file_part("form-data; name=\"logo\"; filename=\"empty.png\"", vec![]);
    let form = dispatch_part(PendingForm::new(), &p).unwrap();
    assert_eq!(form.logo_bytes, Some(vec![]));
    assert_eq!(form.logo_filename.as_deref(), Some("empty.png"));
}

#[test]
fn later_value_overwrites_earlier() {
    let mut parts = complete_payload();
    parts.push(text_part("form-data; name=\"name\"", "Acme Corp"));
    let form = ingest_parts(&parts).unwrap();
    assert_eq!(form.name.as_deref(), Some("Acme Corp"));
}

#[test]
fn name_is_matched_as_a_whole_token() {
    assert_eq!(classify(&chars("form-data; nickname=\"name\"")), None);
    assert_eq!(classify(&chars("form-data; name=\"names\"")), None);
    assert_eq!(
        classify(&chars("form-data; filename=\"name\"")),
        Some(FieldHandler::FileField)
    );
    assert_eq!(
        classify(&chars("name=\"name\"")),
        Some(FieldHandler::TextField(TextField::Name))
    );
}

#[test]
fn text_handlers_come_before_the_file_handler() {
    assert_eq!(
        classify(&chars("form-data; name=\"website\"; filename=\"w.txt\"")),
        Some(FieldHandler::TextField(TextField::Website))
    );
    assert_eq!(
        classify(&chars("form-data; name=\"description\"")),
        Some(FieldHandler::TextField(TextField::Description))
    );
}

#[test]
fn filename_is_extracted() {
    assert_eq!(extract_filename("form-data; name=\"logo\"; filename=\"a b.png\""), "a b.png");
    assert_eq!(extract_filename("form-data; filename=x.gif; size=3"), "x.gif");
    assert_eq!(extract_filename("form-data; filename=\"a;b.png\"; x=1"), "a;b.png");
    assert_eq!(extract_filename("filename="), "");
}

#[test]
fn chunks_are_joined_in_order() {
    assert_eq!(concat_chunks(&vec![vec![1], vec![], vec![2, 3], vec![4]]), vec![1, 2, 3, 4]);
    assert_eq!(concat_chunks(&vec![]), Vec::<u8>::new());
}

#[test]
fn errors_map_to_status_codes() {
    assert_eq!(UploadError::MalformedPart.status(), 400);
    assert_eq!(UploadError::InvalidEncoding.status(), 400);
    assert_eq!(UploadError::MissingField(FormField::Website).status(), 400);
    assert_eq!(UploadError::InvalidUri.status(), 400);
    assert_eq!(UploadError::TransportError.status(), 500);
}

#[test]
fn field_labels() {
    assert_eq!(FormField::Website.label().into_iter().collect::<String>(), "website");
    assert_eq!(FormField::LogoFilename.label().into_iter().collect::<String>(), "logo_filename");
}
