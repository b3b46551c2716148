//! The state behind a dashboard that shows a team's repositories, pull
//! requests, deployments and workflow runs, as a host such as GitHub reports
//! them.
//!
//! The library holds what the dashboard knows and decides what it shows. It
//! sends nothing and draws nothing: a program around it asks the host for the
//! addresses that the library names, hands the answers over, and draws what
//! the library lists.
//!
//! - [`model`] holds the records of the host, each with its view.
//! - [`latest`] and [`runs`] hold the rules that keep the latest of each
//!   kind: the latest deployment of each environment, the latest status of a
//!   deployment, the newest run of each workflow, and what the switches of
//!   the table hide. The laws that these rules obey are proved beside them.
//! - [`panel_repository`], [`panel_pull_request`], [`panel_deployment`] and
//!   [`panel_workflows`] hold the four stores, [`panel`] the panels together.
//! - [`github`] builds addresses and requests and remembers the rate limit.
//! - [`name_map`], [`text`], [`order`] and [`table`] serve the others.

pub mod github;
pub mod latest;
pub mod model;
pub mod name_map;
pub mod order;
pub mod panel;
pub mod panel_deployment;
pub mod panel_pull_request;
pub mod panel_repository;
pub mod panel_workflows;
pub mod runs;
pub mod table;
pub mod text;
