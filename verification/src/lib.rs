//! Transfer pipeline that copies the files of one Google Drive folder into an
//! S3 bucket: the decisions of the pipeline, stated and proved, with the
//! network calls left to the caller.

pub mod text;
pub mod errors;
pub mod credentials;
pub mod file;
pub mod mime;
pub mod checksum;
pub mod destination;
pub mod drive;
pub mod fetch;
pub mod transfer;
pub mod engine_model;
pub mod engine;
