//! The configuration a run is given: the application's identity and, per AWS
//! account, which EKS clusters and which IAM regions to check.
use vstd::prelude::*;

verus! {

/// The whole configuration.
#[derive(Debug, Clone)]
pub struct AppConfig {
    pub app: App,
    pub aws: Vec<AwsConfig>,
}

/// The application's name and version.
#[derive(Debug, Clone)]
pub struct App {
    pub name: String,
    pub version: String,
}

/// One AWS account: its id, the role to assume in it, if any, and the
/// resources to check there.
#[derive(Debug, Clone)]
pub struct AwsConfig {
    pub account_id: String,
    pub role_arn: Option<String>,
    pub eks: Option<Vec<EksConfig>>,
    pub iam: Option<Vec<IamConfig>>,
}

/// An EKS cluster to check.
#[derive(Debug, Clone)]
pub struct EksConfig {
    pub cluster_name: String,
    pub region: String,
}

/// A Grafana instance to check.
#[derive(Debug, Clone)]
pub struct GrafanaConfig {
    pub name: String,
    pub url: String,
}

/// A region whose IAM users are audited.
#[derive(Debug, Clone)]
pub struct IamConfig {
    pub region: String,
}

} // verus!
