//! Multipart field dispatch and form assembly.
//!
//! Each part of an upload is classified by a fixed, ordered list of field
//! handlers (first match wins) and folded into a `PendingForm`, which is
//! returned anew after every part. Once the stream ends the form is validated
//! into a `Submission`.

use vstd::prelude::*;
use vstd::utf8::{decode_utf8, valid_utf8};
use crate::text::{
    before_char, chars_of, cut_before, find_first, first_occurrence, matches_at, occurs_at,
    token_start,
};

verus! {

/// A field of the company form.
#[derive(Clone, Copy, Debug, PartialEq, Eq, Structural)]
pub enum FormField {
    Name,
    Description,
    Website,
    LogoFilename,
    LogoBytes,
}

/// The field's name as written in the form and in error reports.
pub open spec fn field_label(f: FormField) -> Seq<char> {
    match f {
        FormField::Name => seq!['n', 'a', 'm', 'e'],
        FormField::Description => seq!['d', 'e', 's', 'c', 'r', 'i', 'p', 't', 'i', 'o', 'n'],
        FormField::Website => seq!['w', 'e', 'b', 's', 'i', 't', 'e'],
        FormField::LogoFilename => seq![
            'l', 'o', 'g', 'o', '_', 'f', 'i', 'l', 'e', 'n', 'a', 'm', 'e'
        ],
        FormField::LogoBytes => seq!['l', 'o', 'g', 'o', '_', 'b', 'y', 't', 'e', 's'],
    }
}

impl FormField {
    /// The field's name, as in `field_label`.
    pub fn label(&self) -> (r: Vec<char>)
        ensures
            r@ == field_label(*self),
    {
        match self {
            FormField::Name => vec!['n', 'a', 'm', 'e'],
            FormField::Description => vec!['d', 'e', 's', 'c', 'r', 'i', 'p', 't', 'i', 'o', 'n'],
            FormField::Website => vec!['w', 'e', 'b', 's', 'i', 't', 'e'],
            FormField::LogoFilename => vec![
                'l', 'o', 'g', 'o', '_', 'f', 'i', 'l', 'e', 'n', 'a', 'm', 'e'
            ],
            FormField::LogoBytes => vec!['l', 'o', 'g', 'o', '_', 'b', 'y', 't', 'e', 's'],
        }
    }
}

/// Why an upload was refused or failed.
#[derive(Clone, Copy, Debug, PartialEq, Eq, Structural)]
pub enum UploadError {
    /// A part's content-disposition header could not be read, or its bytes broke off.
    MalformedPart,
    /// A text field's bytes are not UTF-8.
    InvalidEncoding,
    /// A required field never arrived.
    MissingField(FormField),
    /// The website is not a URL.
    InvalidUri,
    /// The object store could not be reached or refused the upload.
    TransportError,
}

/// The HTTP status reported for an error: client errors are 400, transport errors 500.
pub open spec fn status_of(e: UploadError) -> u16 {
    match e {
        UploadError::TransportError => 500,
        _ => 400,
    }
}

impl UploadError {
    /// The HTTP status reported for this error.
    pub fn status(&self) -> (r: u16)
        ensures
            r == status_of(*self),
    {
        match self {
            UploadError::TransportError => 500,
            _ => 400,
        }
    }
}

/// The content-disposition header of a part, as the transport delivered it.
#[derive(Debug)]
pub enum Disposition {
    /// The part has no content-disposition header.
    Absent,
    /// The header is there but is not readable text.
    Unreadable,
    /// The header's text.
    Header(String),
}

/// One section of a multipart body: its disposition and its chunks in arrival order.
#[derive(Debug)]
pub struct Part {
    pub disposition: Disposition,
    pub chunks: Vec<Vec<u8>>,
}

/// The chunks laid end to end, in order.
pub open spec fn joined(chunks: Seq<Seq<u8>>) -> Seq<u8>
    decreases chunks.len(),
{
    if chunks.len() == 0 {
        Seq::empty()
    } else {
        joined(chunks.drop_last()) + chunks.last()
    }
}

/// The byte views of a list of chunks.
pub open spec fn chunk_views(chunks: Seq<Vec<u8>>) -> Seq<Seq<u8>> {
    chunks.map_values(|c: Vec<u8>| c@)
}

/// The whole content of a part.
pub open spec fn part_bytes(p: Part) -> Seq<u8> {
    joined(chunk_views(p.chunks@))
}

/// Concatenates a part's chunks into one buffer, in arrival order.
pub fn concat_chunks(chunks: &Vec<Vec<u8>>) -> (r: Vec<u8>)
    ensures
        r@ == joined(chunk_views(chunks@)),
{
    let mut r: Vec<u8> = Vec::new();
    let mut i: usize = 0;
    while i < chunks.len()
        invariant
            i <= chunks@.len(),
            r@ == joined(chunk_views(chunks@).take(i as int)),
        decreases chunks@.len() - i,
    {
        let c = &chunks[i];
        let mut j: usize = 0;
        let ghost before = r@;
        while j < c.len()
            invariant
                j <= c@.len(),
                r@ == before + c@.take(j as int),
            decreases c@.len() - j,
        {
            r.push(c[j]);
            j = j + 1;
            assert(r@ =~= before + c@.take(j as int));
        }
        assert(chunk_views(chunks@).take(i + 1).drop_last() =~= chunk_views(chunks@).take(
            i as int,
        ));
        assert(c@.take(c@.len() as int) =~= c@);
        i = i + 1;
    }
    assert(chunk_views(chunks@).take(i as int) =~= chunk_views(chunks@));
    r
}

/// A text field that a handler captures.
#[derive(Clone, Copy, Debug, PartialEq, Eq, Structural)]
pub enum TextField {
    Name,
    Description,
    Website,
}

/// The form field that a text field fills.
pub open spec fn text_target(t: TextField) -> FormField {
    match t {
        TextField::Name => FormField::Name,
        TextField::Description => FormField::Description,
        TextField::Website => FormField::Website,
    }
}

/// The closed set of field handlers.
#[derive(Clone, Copy, Debug, PartialEq, Eq, Structural)]
pub enum FieldHandler {
    /// Captures the part whose disposition names this field.
    TextField(TextField),
    /// Captures a part whose disposition carries a filename.
    FileField,
}

/// `name="<field>"`, the parameter that names a field.
pub open spec fn name_param(field: Seq<char>) -> Seq<char> {
    seq!['n', 'a', 'm', 'e', '=', '"'] + field + seq!['"']
}

/// The `filename=` attribute key.
pub open spec fn filename_key() -> Seq<char> {
    seq!['f', 'i', 'l', 'e', 'n', 'a', 'm', 'e', '=']
}

/// The disposition names `field` as a whole quoted token: `name="name"` does not
/// match inside `nickname="name"` or `filename="name"`.
pub open spec fn names_field(d: Seq<char>, field: Seq<char>) -> bool {
    exists|i: int| token_start(d, i) && occurs_at(d, name_param(field), i)
}

/// The disposition carries a filename attribute.
pub open spec fn has_filename(d: Seq<char>) -> bool {
    exists|i: int| occurs_at(d, filename_key(), i)
}

/// The handler that captures a part with disposition `d`: the first of
/// `name`, `description`, `website` and the file handler that matches.
pub open spec fn classified(d: Seq<char>) -> Option<FieldHandler> {
    if names_field(d, field_label(FormField::Name)) {
        Some(FieldHandler::TextField(TextField::Name))
    } else if names_field(d, field_label(FormField::Description)) {
        Some(FieldHandler::TextField(TextField::Description))
    } else if names_field(d, field_label(FormField::Website)) {
        Some(FieldHandler::TextField(TextField::Website))
    } else if has_filename(d) {
        Some(FieldHandler::FileField)
    } else {
        None
    }
}

/// The filename given after the first `filename=`: up to the closing quote when
/// the value is quoted, else up to the next `;` or the end.
pub open spec fn filename_in(d: Seq<char>) -> Seq<char> {
    let rest = d.skip(first_occurrence(d, filename_key())->Some_0 + filename_key().len());
    if rest.len() > 0 && rest[0] == '"' {
        before_char(rest.skip(1), '"')
    } else {
        before_char(rest, ';')
    }
}

fn name_pattern(field: FormField) -> (r: Vec<char>)
    ensures
        r@ == name_param(field_label(field)),
{
    let mut r = vec!['n', 'a', 'm', 'e', '=', '"'];
    let label = field.label();
    let mut i: usize = 0;
    while i < label.len()
        invariant
            i <= label@.len(),
            label@ == field_label(field),
            r@ == seq!['n', 'a', 'm', 'e', '=', '"'] + label@.take(i as int),
        decreases label@.len() - i,
    {
        r.push(label[i]);
        i = i + 1;
        assert(r@ =~= seq!['n', 'a', 'm', 'e', '=', '"'] + label@.take(i as int));
    }
    r.push('"');
    assert(label@.take(i as int) =~= label@);
    assert(r@ =~= name_param(field_label(field)));
    r
}

/// Whether the disposition names `field` as a whole quoted token.
pub fn disposition_names(d: &Vec<char>, field: FormField) -> (r: bool)
    ensures
        r == names_field(d@, field_label(field)),
{
    let pat = name_pattern(field);
    let mut i: usize = 0;
    while i < d.len()
        invariant
            pat@ == name_param(field_label(field)),
            forall|j: int|
                0 <= j < i ==> !(token_start(d@, j) && occurs_at(d@, pat@, j)),
        decreases d@.len() - i,
    {
        let start = i == 0 || d[i - 1] == ' ' || d[i - 1] == ';' || d[i - 1] == '\t';
        if start && matches_at(d, &pat, i) {
            assert(token_start(d@, i as int) && occurs_at(d@, pat@, i as int));
            return true;
        }
        i = i + 1;
    }
    assert forall|j: int| !(token_start(d@, j) && occurs_at(d@, pat@, j)) by {
        if j >= d@.len() {
            assert(!occurs_at(d@, pat@, j));
        }
    }
    false
}

fn filename_pattern() -> (r: Vec<char>)
    ensures
        r@ == filename_key(),
{
    let r = vec!['f', 'i', 'l', 'e', 'n', 'a', 'm', 'e', '='];
    assert(r@ =~= filename_key());
    r
}

/// The handler that captures a part with this disposition, if any.
pub fn classify(d: &Vec<char>) -> (r: Option<FieldHandler>)
    ensures
        r == classified(d@),
{
    if disposition_names(d, FormField::Name) {
        Some(FieldHandler::TextField(TextField::Name))
    } else if disposition_names(d, FormField::Description) {
        Some(FieldHandler::TextField(TextField::Description))
    } else if disposition_names(d, FormField::Website) {
        Some(FieldHandler::TextField(TextField::Website))
    } else {
        let key = filename_pattern();
        match find_first(d, &key) {
            Some(_) => Some(FieldHandler::FileField),
            None => {
                assert(!has_filename(d@));
                None
            },
        }
    }
}

/// The filename of a disposition that carries one.
pub fn extract_filename(header: &str) -> (r: String)
    requires
        has_filename(header@),
    ensures
        r@ == filename_in(header@),
{
    let d = chars_of(header);
    let key = filename_pattern();
    let at = find_first(&d, &key);
    match at {
        Some(i) => {
            let n = d.len();
            assert(filename_key().len() == 9);
            assert(i + 9 <= n);
            let start = i + 9;
            let ghost rest = d@.skip(start as int);
            assert(rest == d@.skip(first_occurrence(d@, filename_key())->Some_0 + filename_key().len()));
            if start < n && d[start] == '"' {
                let end = cut_before(&d, start + 1, '"');
                assert(rest.skip(1) =~= d@.skip(start + 1));
                assert(rest.len() > 0 && rest[0] == '"');
                String::from_str(header.substring_char(start + 1, end))
            } else {
                let end = cut_before(&d, start, ';');
                assert(!(rest.len() > 0 && rest[0] == '"'));
                String::from_str(header.substring_char(start, end))
            }
        },
        None => {
            assert(false);
            String::new()
        },
    }
}

/// The form as it fills up, one part at a time.
#[derive(Debug)]
pub struct PendingForm {
    pub name: Option<String>,
    pub description: Option<String>,
    pub website: Option<String>,
    pub logo_filename: Option<String>,
    pub logo_bytes: Option<Vec<u8>>,
}

/// What a `PendingForm` holds.
pub struct FormModel {
    pub name: Option<Seq<char>>,
    pub description: Option<Seq<char>>,
    pub website: Option<Seq<char>>,
    pub logo_filename: Option<Seq<char>>,
    pub logo_bytes: Option<Seq<u8>>,
}

pub open spec fn opt_chars(o: Option<String>) -> Option<Seq<char>> {
    match o {
        Some(s) => Some(s@),
        None => None,
    }
}

pub open spec fn opt_bytes(o: Option<Vec<u8>>) -> Option<Seq<u8>> {
    match o {
        Some(b) => Some(b@),
        None => None,
    }
}

impl View for PendingForm {
    type V = FormModel;

    open spec fn view(&self) -> FormModel {
        FormModel {
            name: opt_chars(self.name),
            description: opt_chars(self.description),
            website: opt_chars(self.website),
            logo_filename: opt_chars(self.logo_filename),
            logo_bytes: opt_bytes(self.logo_bytes),
        }
    }
}

/// The form before any part arrived.
pub open spec fn empty_form() -> FormModel {
    FormModel {
        name: None,
        description: None,
        website: None,
        logo_filename: None,
        logo_bytes: None,
    }
}

/// The form with text field `t` set to `value`.
pub open spec fn with_text(f: FormModel, t: TextField, value: Seq<char>) -> FormModel {
    match t {
        TextField::Name => FormModel { name: Some(value), ..f },
        TextField::Description => FormModel { description: Some(value), ..f },
        TextField::Website => FormModel { website: Some(value), ..f },
    }
}

/// The text of a part's disposition header, when it has a readable one.
pub open spec fn header_text(p: Part) -> Option<Seq<char>> {
    match p.disposition {
        Disposition::Header(h) => Some(h@),
        _ => None,
    }
}

/// The form after part `p`: a part without disposition, or one that no handler
/// captures, leaves it as it is; a text field is decoded as UTF-8 and replaces the
/// field's value; a file replaces the logo's filename and bytes.
pub open spec fn dispatched(f: FormModel, p: Part) -> Result<FormModel, UploadError> {
    match p.disposition {
        Disposition::Absent => Ok(f),
        Disposition::Unreadable => Err(UploadError::MalformedPart),
        Disposition::Header(h) => match classified(h@) {
            None => Ok(f),
            Some(FieldHandler::TextField(t)) => if valid_utf8(part_bytes(p)) {
                Ok(with_text(f, t, decode_utf8(part_bytes(p))))
            } else {
                Err(UploadError::InvalidEncoding)
            },
            Some(FieldHandler::FileField) => Ok(
                FormModel {
                    logo_filename: Some(filename_in(h@)),
                    logo_bytes: Some(part_bytes(p)),
                    ..f
                },
            ),
        },
    }
}

/// Relies on String::from_utf8: it succeeds exactly on valid UTF-8 and then holds
/// the decoded characters.
#[verifier::external_body]
fn utf8_text(bytes: Vec<u8>) -> (r: Option<String>)
    ensures
        r is Some <==> valid_utf8(bytes@),
        r matches Some(s) ==> s@ == decode_utf8(bytes@),
{
    String::from_utf8(bytes).ok()
}

impl PendingForm {
    /// A form with no field filled.
    pub fn new() -> (r: PendingForm)
        ensures
            r@ == empty_form(),
    {
        PendingForm {
            name: None,
            description: None,
            website: None,
            logo_filename: None,
            logo_bytes: None,
        }
    }
}

/// Takes one part into the form; the form is handed back, updated, or the error
/// that ends the upload.
pub fn dispatch_part(form: PendingForm, part: &Part) -> (r: Result<PendingForm, UploadError>)
    ensures
        match dispatched(form@, *part) {
            Ok(v) => r is Ok && r->Ok_0@ == v,
            Err(e) => r is Err && r->Err_0 == e,
        },
{
    match &part.disposition {
        Disposition::Absent => Ok(form),
        Disposition::Unreadable => Err(UploadError::MalformedPart),
        Disposition::Header(h) => {
            let d = chars_of(h.as_str());
            match classify(&d) {
                None => Ok(form),
                Some(FieldHandler::TextField(t)) => {
                    let bytes = concat_chunks(&part.chunks);
                    match utf8_text(bytes) {
                        None => Err(UploadError::InvalidEncoding),
                        Some(s) => {
                            let mut f = form;
                            match t {
                                TextField::Name => f.name = Some(s),
                                TextField::Description => f.description = Some(s),
                                TextField::Website => f.website = Some(s),
                            }
                            Ok(f)
                        },
                    }
                },
                Some(FieldHandler::FileField) => {
                    let filename = extract_filename(h.as_str());
                    let bytes = concat_chunks(&part.chunks);
                    let mut f = form;
                    f.logo_filename = Some(filename);
                    f.logo_bytes = Some(bytes);
                    Ok(f)
                },
            }
        },
    }
}

/// The outcome of taking the parts in order into an empty form; the first error
/// ends it.
pub open spec fn ingested(parts: Seq<Part>) -> Result<FormModel, UploadError>
    decreases parts.len(),
{
    if parts.len() == 0 {
        Ok(empty_form())
    } else {
        match ingested(parts.drop_last()) {
            Ok(f) => dispatched(f, parts.last()),
            Err(e) => Err(e),
        }
    }
}

proof fn lemma_error_ends_ingestion(parts: Seq<Part>, i: int, e: UploadError)
    requires
        0 <= i <= parts.len(),
        ingested(parts.take(i)) == Err::<FormModel, UploadError>(e),
    ensures
        ingested(parts) == Err::<FormModel, UploadError>(e),
    decreases parts.len() - i,
{
    if i < parts.len() {
        assert(parts.take(i + 1).drop_last() =~= parts.take(i));
        lemma_error_ends_ingestion(parts, i + 1, e);
    } else {
        assert(parts.take(i) =~= parts);
    }
}

/// Takes every part, in arrival order, into a fresh form.
pub fn ingest_parts(parts: &Vec<Part>) -> (r: Result<PendingForm, UploadError>)
    ensures
        match ingested(parts@) {
            Ok(v) => r is Ok && r->Ok_0@ == v,
            Err(e) => r is Err && r->Err_0 == e,
        },
{
    let mut form = PendingForm::new();
    let mut i: usize = 0;
    assert(parts@.take(0) =~= Seq::<Part>::empty());
    while i < parts.len()
        invariant
            i <= parts@.len(),
            ingested(parts@.take(i as int)) == Ok::<FormModel, UploadError>(form@),
        decreases parts@.len() - i,
    {
        assert(parts@.take(i + 1).drop_last() =~= parts@.take(i as int));
        match dispatch_part(form, &parts[i]) {
            Ok(f) => {
                form = f;
            },
            Err(e) => {
                proof {
                    lemma_error_ends_ingestion(parts@, i + 1, e);
                }
                return Err(e);
            },
        }
        i = i + 1;
    }
    assert(parts@.take(i as int) =~= parts@);
    Ok(form)
}

/// A complete, validated form, ready for upload.
#[derive(Debug)]
pub struct Submission {
    pub name: String,
    pub description: String,
    pub website: String,
    pub logo_filename: String,
    pub logo_bytes: Vec<u8>,
}

/// The error that refuses a form, if any: the first missing field, in the order
/// name, description, website, logo filename, logo bytes; then a website that
/// is not a URL.
pub open spec fn form_error(f: FormModel, website_ok: bool) -> Option<UploadError> {
    if f.name is None {
        Some(UploadError::MissingField(FormField::Name))
    } else if f.description is None {
        Some(UploadError::MissingField(FormField::Description))
    } else if f.website is None {
        Some(UploadError::MissingField(FormField::Website))
    } else if f.logo_filename is None {
        Some(UploadError::MissingField(FormField::LogoFilename))
    } else if f.logo_bytes is None {
        Some(UploadError::MissingField(FormField::LogoBytes))
    } else if !website_ok {
        Some(UploadError::InvalidUri)
    } else {
        None
    }
}

/// The submission carries exactly the values of the form.
pub open spec fn submits(s: Submission, f: FormModel) -> bool {
    &&& f.name == Some(s.name@)
    &&& f.description == Some(s.description@)
    &&& f.website == Some(s.website@)
    &&& f.logo_filename == Some(s.logo_filename@)
    &&& f.logo_bytes == Some(s.logo_bytes@)
}

/// Validates a finished form, given whether its website parses as a URL.
pub fn validate_form(form: PendingForm, website_parses: bool) -> (r: Result<Submission, UploadError>)
    ensures
        match form_error(form@, website_parses) {
            Some(e) => r is Err && r->Err_0 == e,
            None => r is Ok && submits(r->Ok_0, form@),
        },
{
    let name = match form.name {
        Some(v) => v,
        None => return Err(UploadError::MissingField(FormField::Name)),
    };
    let description = match form.description {
        Some(v) => v,
        None => return Err(UploadError::MissingField(FormField::Description)),
    };
    let website = match form.website {
        Some(v) => v,
        None => return Err(UploadError::MissingField(FormField::Website)),
    };
    let logo_filename = match form.logo_filename {
        Some(v) => v,
        None => return Err(UploadError::MissingField(FormField::LogoFilename)),
    };
    let logo_bytes = match form.logo_bytes {
        Some(v) => v,
        None => return Err(UploadError::MissingField(FormField::LogoBytes)),
    };
    if !website_parses {
        return Err(UploadError::InvalidUri);
    }
    Ok(Submission { name, description, website, logo_filename, logo_bytes })
}

/// `s` parses as an absolute URL.
pub uninterp spec fn url_accepts(s: Seq<char>) -> bool;

/// Relies on url::Url::parse: whether the text parses as an absolute URL.
#[verifier::external_body]
fn parses_as_url(s: &str) -> (r: bool)
    ensures
        r == url_accepts(s@),
{
    url::Url::parse(s).is_ok()
}

/// Whether the form's website, if it has one, parses as a URL.
pub open spec fn website_accepted(f: FormModel) -> bool {
    match f.website {
        Some(w) => url_accepts(w),
        None => false,
    }
}

/// Validates a finished form, parsing its website as a URL.
pub fn assemble_form(form: PendingForm) -> (r: Result<Submission, UploadError>)
    ensures
        match form_error(form@, website_accepted(form@)) {
            Some(e) => r is Err && r->Err_0 == e,
            None => r is Ok && submits(r->Ok_0, form@),
        },
{
    let ok = match &form.website {
        Some(w) => parses_as_url(w.as_str()),
        None => false,
    };
    validate_form(form, ok)
}

/// A payload missing its website is refused with `MissingField(Website)` once
/// name and description have arrived, whatever the rest holds, so no upload
/// request is ever built from it.
pub proof fn missing_website_is_refused(f: FormModel, website_ok: bool)
    requires
        f.name is Some,
        f.description is Some,
        f.website is None,
    ensures
        form_error(f, website_ok) == Some(UploadError::MissingField(FormField::Website)),
{
}

/// A part whose disposition names no known field and carries no filename is
/// dropped: the form after it is the form before it.
pub proof fn unmatched_part_is_dropped(f: FormModel, p: Part)
    requires
        header_text(p) matches Some(d) && classified(d) is None,
    ensures
        dispatched(f, p) == Ok::<FormModel, UploadError>(f),
{
}

/// Dropping a part that no handler captures anywhere in a payload leaves the
/// outcome of the whole payload as it would be without that part.
pub proof fn unmatched_part_leaves_payload_unchanged(before: Seq<Part>, p: Part, after: Seq<Part>)
    requires
        header_text(p) matches Some(d) && classified(d) is None,
    ensures
        ingested(before + seq![p] + after) == ingested(before + after),
    decreases after.len(),
{
    if after.len() == 0 {
        assert((before + seq![p] + after).drop_last() =~= before);
        assert(before + after =~= before);
    } else {
        unmatched_part_leaves_payload_unchanged(before, p, after.drop_last());
        assert((before + seq![p] + after).drop_last() =~= before + seq![p] + after.drop_last());
        assert((before + after).drop_last() =~= before + after.drop_last());
    }
}

/// The text a text part carries.
pub open spec fn text_of(p: Part) -> Seq<char> {
    decode_utf8(part_bytes(p))
}

/// A payload of a name, a description, a website and a file part fills the form
/// with exactly the submitted values, and that form has every field validation
/// asks for.
pub proof fn complete_payload_fills_form(parts: Seq<Part>)
    requires
        parts.len() == 4,
        header_text(parts[0]) matches Some(d) && classified(d) == Some(
            FieldHandler::TextField(TextField::Name),
        ),
        header_text(parts[1]) matches Some(d) && classified(d) == Some(
            FieldHandler::TextField(TextField::Description),
        ),
        header_text(parts[2]) matches Some(d) && classified(d) == Some(
            FieldHandler::TextField(TextField::Website),
        ),
        header_text(parts[3]) matches Some(d) && classified(d) == Some(FieldHandler::FileField),
        valid_utf8(part_bytes(parts[0])),
        valid_utf8(part_bytes(parts[1])),
        valid_utf8(part_bytes(parts[2])),
    ensures
        ingested(parts) == Ok::<FormModel, UploadError>(
            FormModel {
                name: Some(text_of(parts[0])),
                description: Some(text_of(parts[1])),
                website: Some(text_of(parts[2])),
                logo_filename: Some(filename_in(header_text(parts[3])->Some_0)),
                logo_bytes: Some(part_bytes(parts[3])),
            },
        ),
        form_error(ingested(parts)->Ok_0, true) is None,
{
    let p1 = parts.take(1);
    let p2 = parts.take(2);
    let p3 = parts.take(3);
    assert(p1.drop_last() =~= Seq::<Part>::empty());
    assert(p2.drop_last() =~= p1);
    assert(p3.drop_last() =~= p2);
    assert(parts.drop_last() =~= p3);
    assert(p1.last() == parts[0]);
    assert(p2.last() == parts[1]);
    assert(p3.last() == parts[2]);
    let f1 = with_text(empty_form(), TextField::Name, text_of(parts[0]));
    let f2 = with_text(f1, TextField::Description, text_of(parts[1]));
    let f3 = with_text(f2, TextField::Website, text_of(parts[2]));
    assert(ingested(Seq::<Part>::empty()) == Ok::<FormModel, UploadError>(empty_form()));
    assert(ingested(p1) == Ok::<FormModel, UploadError>(f1));
    assert(ingested(p2) == Ok::<FormModel, UploadError>(f2));
    assert(ingested(p3) == Ok::<FormModel, UploadError>(f3));
}

/// A file part with no bytes is accepted: the form then holds an empty logo.
pub proof fn empty_file_is_accepted(f: FormModel, p: Part)
    requires
        header_text(p) matches Some(d) && classified(d) == Some(FieldHandler::FileField),
        part_bytes(p).len() == 0,
    ensures
        dispatched(f, p) is Ok,
        dispatched(f, p)->Ok_0.logo_bytes == Some(Seq::<u8>::empty()),
{
    assert(part_bytes(p) =~= Seq::<u8>::empty());
}

} // verus!
