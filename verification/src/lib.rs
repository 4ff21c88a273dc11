//! Device and job orchestration for a pool of simulated document scanners.
//!
//! The crate keeps a registry of scanners and a store of scan jobs, and drives
//! each job through its lifecycle: pending, scanning in timed progress steps,
//! and one of the terminal states completed, failed or cancelled. Every
//! operation is a plain state transition whose contract is stated over a
//! mathematical model of the service, so that a caller holding the service
//! behind a lock gets one indivisible step per call.
//!
//! The service owns its registry and its store, and every operation keeps
//! what must hold of them at every moment: no scanner is kept busy by two
//! jobs, no job is left waiting for a scanner that nobody can find, the
//! progress of a job never falls, and a terminal state is never left.
//!
//! - `entities`, `errors`: the records and the reasons for refusal.
//! - `keyed`, `registry`, `job_store`: the two collections and what they keep.
//! - `model`: the service as a value, and its steps as functions.
//! - `scanner_service`, `lifecycle`: the operations, proved to make those steps.
//! - `guarantees`: what follows for every caller.
//! - `scan_generator`, `text_content`, `pdf_layout`, `text`: names and contents
//!   of the files that scans leave behind.
//! - `clock`, `ident`, `random`: the calls on the calendar, on fresh
//!   identifiers and on chance, which are believed and not proved.

pub mod clock;
pub mod entities;
pub mod errors;
pub mod guarantees;
pub mod ident;
pub mod job_store;
pub mod keyed;
pub mod lifecycle;
pub mod model;
pub mod pdf_layout;
pub mod random;
pub mod registry;
pub mod scan_generator;
pub mod scanner_service;
pub mod text;
pub mod text_content;
