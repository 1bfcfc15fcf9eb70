//! Client-side core of a remote test-farm service: run submission planning,
//! completion polling decisions, and artifact selection and placement.

pub mod android;
pub mod artifact;
pub mod client;
pub mod env;
pub mod errors;
pub mod form;
pub mod glob;
pub mod interactor;
pub mod ios;
pub mod platform;
pub mod progress;
pub mod responses;
pub mod retry;
pub mod run;
pub mod text;
pub mod urls;
