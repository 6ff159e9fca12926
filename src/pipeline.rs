//! The upload pipeline as a state machine: the transport reports events, the
//! machine decides the next stage and the one action to perform. A failure at
//! any stage is terminal; nothing is retried.

use vstd::prelude::*;
use crate::form::{
    assemble_form, dispatch_part, dispatched, form_error, submits, website_accepted, Part,
    PendingForm, Submission, UploadError,
};
use crate::upload::{confirmation, confirmation_of, is_upload, mime_of, prepare_upload, Credentials, UploadRequest};

verus! {

/// Where an upload stands.
#[derive(Debug)]
pub enum Stage {
    /// Parts are arriving and being taken into the form.
    Receiving(PendingForm),
    /// The form was valid and its logo is being sent.
    Uploading(Submission),
    /// The logo is stored.
    Succeeded,
    /// The upload ended with this error.
    Failed(UploadError),
}

/// What the transport reports.
#[derive(Debug)]
pub enum Event {
    /// The next part of the body, whole.
    PartReceived(Part),
    /// The body could not be read on.
    StreamBroken,
    /// The body ended.
    StreamEnded,
    /// The object store answered: whether it stored the logo.
    UploadFinished(bool),
}

/// What the transport is to do next.
#[derive(Debug)]
pub enum Action {
    /// Read the next part.
    AwaitPart,
    /// Send this request to the object store.
    Send(UploadRequest),
    /// Answer the client with this confirmation.
    Respond(String),
    /// Answer the client with this error.
    Fail(UploadError),
    /// The event does not apply to this stage; do nothing.
    Ignore,
}

impl Stage {
    /// The stage before any part arrived.
    pub fn start() -> (r: Stage)
        ensures
            r matches Stage::Receiving(f) && f@ == crate::form::empty_form(),
    {
        Stage::Receiving(PendingForm::new())
    }
}

/// One step of the pipeline.
pub fn advance(stage: Stage, event: Event, creds: &Credentials) -> (r: (Stage, Action))
    ensures
        match (stage, event) {
            (Stage::Receiving(f), Event::PartReceived(p)) => match dispatched(f@, p) {
                Ok(v) => r.0 matches Stage::Receiving(g) && g@ == v && r.1 is AwaitPart,
                Err(e) => r.0 == Stage::Failed(e) && r.1 == Action::Fail(e),
            },
            (Stage::Receiving(_), Event::StreamBroken) => r.0 == Stage::Failed(
                UploadError::MalformedPart,
            ) && r.1 == Action::Fail(UploadError::MalformedPart),
            (Stage::Receiving(f), Event::StreamEnded) => match form_error(
                f@,
                website_accepted(f@),
            ) {
                Some(e) => r.0 == Stage::Failed(e) && r.1 == Action::Fail(e),
                None => {
                    &&& r.0 is Uploading
                    &&& submits(r.0->Uploading_0, f@)
                    &&& r.1 is Send
                    &&& is_upload(
                        r.1->Send_0,
                        *creds,
                        r.0->Uploading_0.logo_filename@,
                        r.0->Uploading_0.logo_bytes@,
                        mime_of(r.0->Uploading_0.logo_filename@),
                        r.1->Send_0.date@,
                    )
                },
            },
            (Stage::Uploading(s), Event::UploadFinished(stored)) => if stored {
                &&& r.0 is Succeeded
                &&& r.1 is Respond
                &&& r.1->Respond_0@ == confirmation_of(s)
            } else {
                r.0 == Stage::Failed(UploadError::TransportError) && r.1 == Action::Fail(
                    UploadError::TransportError,
                )
            },
            (other, _) => r.0 == other && r.1 is Ignore,
        },
{
    match stage {
        Stage::Receiving(f) => match event {
            Event::PartReceived(p) => match dispatch_part(f, &p) {
                Ok(g) => (Stage::Receiving(g), Action::AwaitPart),
                Err(e) => (Stage::Failed(e), Action::Fail(e)),
            },
            Event::StreamBroken => (
                Stage::Failed(UploadError::MalformedPart),
                Action::Fail(UploadError::MalformedPart),
            ),
            Event::StreamEnded => match assemble_form(f) {
                Ok(s) => {
                    let q = prepare_upload(creds, &s);
                    (Stage::Uploading(s), Action::Send(q))
                },
                Err(e) => (Stage::Failed(e), Action::Fail(e)),
            },
            Event::UploadFinished(_) => (Stage::Receiving(f), Action::Ignore),
        },
        Stage::Uploading(s) => match event {
            Event::UploadFinished(stored) => if stored {
                let m = confirmation(&s);
                (Stage::Succeeded, Action::Respond(m))
            } else {
                (
                    Stage::Failed(UploadError::TransportError),
                    Action::Fail(UploadError::TransportError),
                )
            },
            _ => (Stage::Uploading(s), Action::Ignore),
        },
        other => (other, Action::Ignore),
    }
}

} // verus!
