//! The records exchanged with the host, each with its view.

pub mod deployment;
pub mod environment;
pub mod pull_request;
pub mod repository;
pub mod team;
pub mod workflow;
