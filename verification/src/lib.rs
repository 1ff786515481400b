//! Decision core of CLAIRE, an incident-response tool for EC2 instances.
//!
//! The AWS calls themselves are made by the command-line program around this
//! library; everything that is decided between those calls (which resources
//! are untagged or deleted, in which order, which request documents are sent,
//! when an investigation is found, when polling stops) is computed here and
//! verified against its contract.
pub mod access;
pub mod confirm;
pub mod error;
pub mod execute;
pub mod instance;
pub mod investigation;
pub mod manual;
pub mod purge;
pub mod tag;
pub mod text;
