//! Inventory and update checks for EKS clusters, node groups, add-ons and
//! IAM access keys across several AWS accounts.
//!
//! The library holds the decisions: which checks a configuration asks for,
//! what each check does with the answers of the cloud probes, how results and
//! failures are gathered, and what each report table holds. The probes
//! themselves, the threads that run them and the terminal rendering live in
//! the application around it.

pub mod aggregate;
pub mod autoscaling;
pub mod aws;
pub mod cli;
pub mod config;
pub mod eks;
pub mod errors;
pub mod grafana;
pub mod iam;
pub mod report;
pub mod session;
pub mod task;
pub mod version;
