use amanami::cli::SubCommands;
use amanami::config::GrafanaConfig;
use amanami::eks::recommended_ami_parameter;
use amanami::grafana::{grafana_version, latest_grafana_version, Grafana};
use amanami::session::Config;
use amanami::task::{CheckKind, CheckTask, EksCluster};

#[test]
fn grafana_health_urls() {
    let g = Grafana::new(vec![
        GrafanaConfig { name: "main".to_string(), url: "https://grafana.example.com".to_string() },
        GrafanaConfig { name: "ops".to_string(), url: "http://10.0.0.1:3000".to_string() },
    ]);
    assert_eq!(g.instances.len(), 2);
    assert_eq!(g.instances[1].name, "ops");
    assert_eq!(
        g.get_grafana_update(),
        vec!["https://grafana.example.com/api/health".to_string(), "http://10.0.0.1:3000/api/health".to_string()]
    );
}

#[test]
fn grafana_version_from_health_report() {
    let body = r#"{"commit":"abc","database":"ok","version":"10.2.3"}"#;
    assert_eq!(grafana_version(body), Some("\"10.2.3\"".to_string()));
    assert_eq!(grafana_version(r#"{"database":"ok"}"#), None);
    assert_eq!(grafana_version("<html>"), None);
}

#[test]
fn grafana_release_heading() {
    assert_eq!(latest_grafana_version("10.2.3"), Some("10.2.3".to_string()));
    assert_eq!(latest_grafana_version("11.0.0-beta.1"), Some("11.0.0-beta.1".to_string()));
    assert_eq!(latest_grafana_version("Unreleased"), Some("Unreleased".to_string()));
    assert_eq!(latest_grafana_version("# Changelog\n10.2.3\n"), None);
}

#[test]
fn session_config() {
    let c = Config::default();
    assert_eq!(c.region, "us-east-1");
    assert!(!c.assumes_role());
    let c = Config::new("eu-west-1".to_string(), Some("arn:aws:iam::111:role/audit".to_string()));
    assert!(c.assumes_role());
    let t = CheckTask::ClusterVersion(EksCluster {
        account_id: "111".to_string(),
        cluster_name: "prod".to_string(),
        region: "ap-southeast-1".to_string(),
        role_arn: Some("arn:aws:iam::111:role/audit".to_string()),
    });
    let c = t.client_config();
    assert_eq!(c.region, "ap-southeast-1");
    assert_eq!(c.role_arn.as_deref(), Some("arn:aws:iam::111:role/audit"));
    assert_eq!(t.kind(), CheckKind::ClusterVersion);
}

#[test]
fn subcommand_kinds() {
    assert_eq!(
        SubCommands::Eks.check_kinds(),
        vec![CheckKind::ClusterVersion, CheckKind::NodeGroupAmi, CheckKind::Addon]
    );
    assert_eq!(SubCommands::Iam.check_kinds(), vec![CheckKind::IamAccessKey]);
}

#[test]
fn recommended_ami_parameter_name() {
    assert_eq!(
        recommended_ami_parameter(&"1.28".to_string()),
        "/aws/service/eks/optimized-ami/1.28/amazon-linux-2/recommended/image_id"
    );
}
