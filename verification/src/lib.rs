//! Orchestration of media-history imports: request validation and adapter
//! dispatch, the job lifecycle as a state machine, the report model, the
//! identifier resolution chain and the timezone normalisation utility.

pub mod job;
pub mod media;
pub mod report;
pub mod request;
pub mod resolve;
pub mod service;
pub mod time;
pub mod utils;
