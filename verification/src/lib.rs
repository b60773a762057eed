//! Verified decisions behind two tools of a private payments project: the schema
//! migrations of the bootnode's Postgres storage, and the browser end-to-end
//! harness that drives the web client with a stub wallet signer.

pub mod encoding;
pub mod environment;
pub mod environment_laws;
pub mod migration_laws;
pub mod migration_model;
pub mod migrations;
pub mod progress_model;
pub mod report;
pub mod response;
pub mod response_laws;
pub mod run_laws;
pub mod scenario;
pub mod scenario_laws;
pub mod script_laws;
pub mod scripts;
pub mod signer;
pub mod signer_laws;
pub mod signing;
pub mod signing_laws;
pub mod step_laws;
pub mod storage;
pub mod storage_laws;
pub mod tables;
pub mod text;
pub mod text_laws;
