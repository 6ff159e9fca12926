//! Company-logo ingestion: multipart field dispatch, form validation and the
//! signed object-store upload request.

pub mod signer;
pub mod text;
pub mod form;
pub mod upload;
pub mod pipeline;
pub mod models;
