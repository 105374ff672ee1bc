use std::collections::VecDeque;

use amanami::aggregate::{Aggregator, Outcome};
use amanami::autoscaling::Response;
use amanami::aws::Aws;
use amanami::config::{AwsConfig, EksConfig, IamConfig};
use amanami::errors::{uplifted_errors, EksServiceError, ErrorKind, SdkFailure};
use amanami::iam::{AccessKey, Timestamp};
use amanami::report::{report, CellValue, Highlight};
use amanami::task::{CheckKind, CheckTask, ProbeCall, ProbeReply, ResultRow, TaskStep};

/// 2024-06-01T00:00:00Z.
const NOW: Timestamp = Timestamp { seconds: 1_717_200_000, nanos: 0 };

fn s(x: &str) -> String {
    x.to_string()
}

fn list(v: &[&str]) -> ProbeReply {
    ProbeReply::List(v.iter().map(|x| x.to_string()).collect())
}

fn account(id: &str, clusters: &[(&str, &str)], iam: &[&str]) -> AwsConfig {
    AwsConfig {
        account_id: s(id),
        role_arn: None,
        eks: Some(clusters.iter().map(|(c, r)| EksConfig { cluster_name: s(c), region: s(r) }).collect()),
        iam: Some(iam.iter().map(|r| IamConfig { region: s(r) }).collect()),
    }
}

/// Runs tasks to completion against a stub probe; `lifo` picks the most
/// recent task first, which changes the order of arrival.
fn run(tasks: Vec<CheckTask>, probe: &dyn Fn(&CheckTask, &ProbeCall) -> ProbeReply, lifo: bool) -> Vec<Outcome> {
    let mut queue: VecDeque<CheckTask> = tasks.into_iter().collect();
    let mut out = Vec::new();
    while let Some(task) = if lifo { queue.pop_back() } else { queue.pop_front() } {
        let mut answers = Vec::new();
        loop {
            match task.step(&answers, NOW) {
                TaskStep::Call(c) => answers.push(probe(&task, &c)),
                TaskStep::Row(r) => {
                    out.push(Ok(r));
                    break;
                }
                TaskStep::Fail(f) => {
                    out.push(Err(f));
                    break;
                }
                TaskStep::Expand(more) => {
                    queue.extend(more);
                    break;
                }
            }
        }
    }
    out
}

fn cluster_probe(_: &CheckTask, call: &ProbeCall) -> ProbeReply {
    match call {
        ProbeCall::ClusterVersion { cluster } if cluster == "fail" => ProbeReply::Failed(uplifted_errors(
            SdkFailure::ServiceError(EksServiceError::AccessDeniedException, s("denied")),
        )),
        ProbeCall::ClusterVersion { cluster } if cluster == "old" => ProbeReply::Text(s("1.27")),
        ProbeCall::ClusterVersion { .. } => ProbeReply::Text(s("1.28")),
        ProbeCall::CompatibleClusterVersions => list(&["1.27", "1.28", "1.28", "1.29", "1.26"]),
        other => panic!("unexpected call {:?}", other),
    }
}

fn row_texts(rows: &[ResultRow]) -> Vec<String> {
    let mut v: Vec<String> = rows.iter().map(|r| format!("{:?}", r)).collect();
    v.sort();
    v
}

#[test]
fn one_task_per_cluster() {
    let aws = Aws::new(vec![
        account("111", &[("a", "us-east-1"), ("b", "eu-west-1")], &[]),
        account("222", &[], &["us-east-1"]),
        account("333", &[("c", "ap-southeast-1")], &[]),
    ]);
    assert!(aws.aws_account[1].eks.is_none());
    assert!(aws.aws_account[0].iam.is_none());
    let tasks = aws.expand(CheckKind::ClusterVersion);
    assert_eq!(tasks.len(), 3);
    let names: Vec<(String, String)> = tasks
        .iter()
        .map(|t| match t {
            CheckTask::ClusterVersion(c) => (c.account_id.clone(), c.cluster_name.clone()),
            other => panic!("unexpected task {:?}", other),
        })
        .collect();
    assert_eq!(names, vec![(s("111"), s("a")), (s("111"), s("b")), (s("333"), s("c"))]);
    assert!(aws.expand(CheckKind::NodeGroupAmi).iter().all(|t| matches!(t, CheckTask::NodeGroupListing(_))));
    assert!(aws.expand(CheckKind::Addon).iter().all(|t| matches!(t, CheckTask::AddonCluster(_))));
    let iam = aws.expand(CheckKind::IamAccessKey);
    assert_eq!(iam.len(), 1);
    assert!(matches!(&iam[0], CheckTask::IamAccount(a) if a.account_id == "222" && a.region == "us-east-1"));
}

#[test]
fn no_accounts_no_tasks() {
    let aws = Aws::new(Vec::new());
    assert!(aws.expand(CheckKind::ClusterVersion).is_empty());
    assert!(aws.expand(CheckKind::IamAccessKey).is_empty());
}

#[test]
fn cluster_with_newer_version_available() {
    let aws = Aws::new(vec![account("111", &[("prod", "us-east-1")], &[])]);
    let outcomes = run(aws.expand(CheckKind::ClusterVersion), &cluster_probe, false);
    let agg = Aggregator::collect(outcomes);
    assert_eq!(agg.rows.len(), 1);
    assert!(agg.failures.is_empty());
    match &agg.rows[0] {
        ResultRow::Cluster(row) => {
            assert_eq!(row.account_id, "111");
            assert_eq!(row.cluster_name, "prod");
            assert_eq!(row.data.cluster_version, "1.28");
            assert_eq!(row.data.latest_cluster_version, "1.29");
            assert!(row.data.upgrade_available);
        }
        other => panic!("unexpected row {:?}", other),
    }
}

#[test]
fn upgrade_flag_follows_versions() {
    let probe = |_: &CheckTask, call: &ProbeCall| match call {
        ProbeCall::ClusterVersion { .. } => ProbeReply::Text(s("1.29")),
        _ => list(&["1.28", "1.29"]),
    };
    let aws = Aws::new(vec![account("111", &[("prod", "us-east-1")], &[])]);
    let agg = Aggregator::collect(run(aws.expand(CheckKind::ClusterVersion), &probe, false));
    match &agg.rows[0] {
        ResultRow::Cluster(row) => {
            assert_eq!(row.data.latest_cluster_version, "1.29");
            assert!(!row.data.upgrade_available);
        }
        other => panic!("unexpected row {:?}", other),
    }
}

#[test]
fn one_failure_leaves_other_rows() {
    let aws = Aws::new(vec![
        account("111", &[("a", "us-east-1"), ("fail", "us-east-1")], &[]),
        account("222", &[("old", "eu-west-1")], &[]),
    ]);
    let agg = Aggregator::collect(run(aws.expand(CheckKind::ClusterVersion), &cluster_probe, false));
    assert_eq!(agg.rows.len(), 2);
    assert_eq!(agg.failures.len(), 1);
    let f = &agg.failures[0];
    assert_eq!(f.cause(), ErrorKind::ServiceRequestError);
    assert_eq!(f.kind, CheckKind::ClusterVersion);
    assert_eq!(f.account_id, "111");
    assert_eq!(f.resource_name, "fail");
    assert_eq!(f.step, ProbeCall::ClusterVersion { cluster: s("fail") });
}

#[test]
fn arrival_order_does_not_change_rows() {
    let aws = Aws::new(vec![
        account("111", &[("a", "us-east-1"), ("fail", "us-east-1")], &[]),
        account("222", &[("old", "eu-west-1"), ("b", "eu-west-1")], &[]),
    ]);
    let first = Aggregator::collect(run(aws.expand(CheckKind::ClusterVersion), &cluster_probe, false));
    let second = Aggregator::collect(run(aws.expand(CheckKind::ClusterVersion), &cluster_probe, true));
    assert_ne!(format!("{:?}", first.rows), format!("{:?}", second.rows));
    assert_eq!(row_texts(&first.rows), row_texts(&second.rows));
    assert_eq!(first.failures.len(), second.failures.len());
}

#[test]
fn aggregator_keeps_rows_and_failures_apart() {
    let mut agg = Aggregator::new();
    let aws = Aws::new(vec![account("111", &[("fail", "us-east-1"), ("a", "us-east-1")], &[])]);
    for o in run(aws.expand(CheckKind::ClusterVersion), &cluster_probe, false) {
        agg.receive(o);
    }
    assert_eq!(agg.rows.len(), 1);
    assert_eq!(agg.failures.len(), 1);
}

#[test]
fn empty_batch_is_not_reported() {
    let aws = Aws::new(vec![account("111", &[("fail", "us-east-1")], &[])]);
    let agg = Aggregator::collect(run(aws.expand(CheckKind::ClusterVersion), &cluster_probe, false));
    assert!(agg.rows.is_empty());
    assert!(report(CheckKind::ClusterVersion, &agg.rows).is_none());
    let aws = Aws::new(vec![account("111", &[("a", "us-east-1")], &[])]);
    let agg = Aggregator::collect(run(aws.expand(CheckKind::ClusterVersion), &cluster_probe, false));
    assert!(report(CheckKind::Addon, &agg.rows).is_none());
    assert!(report(CheckKind::ClusterVersion, &agg.rows).is_some());
}

#[test]
fn cluster_table_contents() {
    let aws = Aws::new(vec![account("111", &[("prod", "us-east-1")], &[])]);
    let agg = Aggregator::collect(run(aws.expand(CheckKind::ClusterVersion), &cluster_probe, false));
    let batch = report(CheckKind::ClusterVersion, &agg.rows).unwrap();
    assert_eq!(batch.title, "EKS Cluster Details: ");
    assert_eq!(
        batch.header,
        vec![
            "AWS Account ID",
            "EKS Cluster Name",
            "Region",
            "EKS Cluster Version",
            "Latest Version Available",
            "Upgrade Available"
        ]
    );
    assert_eq!(batch.rows.len(), 1);
    let cells = &batch.rows[0];
    assert_eq!(cells.len(), 6);
    assert!(matches!(&cells[3].value, CellValue::Text(t) if t == "1.28"));
    assert_eq!(cells[2].highlight, Highlight::Centered);
    assert!(matches!(&cells[5].value, CellValue::Text(t) if t == "Available"));
    assert_eq!(cells[5].highlight, Highlight::Available);
}

fn node_probe(_: &CheckTask, call: &ProbeCall) -> ProbeReply {
    match call {
        ProbeCall::ListNodegroups { cluster } => {
            assert_eq!(cluster, "prod");
            list(&["ng-1"])
        }
        ProbeCall::ClusterVersion { .. } => ProbeReply::Text(s("1.28")),
        ProbeCall::NodegroupAutoScalingGroup { cluster, node_group } => {
            assert_eq!((cluster.as_str(), node_group.as_str()), ("prod", "ng-1"));
            ProbeReply::Text(s("asg-1"))
        }
        ProbeCall::LaunchTemplate { group } => {
            assert_eq!(group, "asg-1");
            ProbeReply::Template(Response { id: s("lt-1"), version: s("3") })
        }
        ProbeCall::LaunchTemplateAmi { id, version } => {
            assert_eq!((id.as_str(), version.as_str()), ("lt-1", "3"));
            ProbeReply::Text(s("ami-old"))
        }
        ProbeCall::AmiName { ami_id } if ami_id == "ami-old" => ProbeReply::Text(s("amazon-eks-node-1.28-v20240101")),
        ProbeCall::RecommendedAmi { kubernetes_version } => {
            assert_eq!(kubernetes_version, "1.28");
            ProbeReply::Text(s("ami-new"))
        }
        ProbeCall::AmiName { ami_id } if ami_id == "ami-new" => ProbeReply::Text(s("amazon-eks-node-1.28-v20240301")),
        other => panic!("unexpected call {:?}", other),
    }
}

#[test]
fn node_group_ami_check() {
    let aws = Aws::new(vec![account("111", &[("prod", "us-east-1")], &[])]);
    let agg = Aggregator::collect(run(aws.expand(CheckKind::NodeGroupAmi), &node_probe, false));
    assert!(agg.failures.is_empty());
    assert_eq!(agg.rows.len(), 1);
    match &agg.rows[0] {
        ResultRow::NodeGroup(row) => {
            assert_eq!(row.cluster_name, "prod");
            assert_eq!(row.data.node_name, "ng-1");
            assert_eq!(row.data.ami_name, "amazon-eks-node-1.28-v20240101");
            assert_eq!(row.data.latest_ami_name, "amazon-eks-node-1.28-v20240301");
            assert!(row.data.upgrade_available);
        }
        other => panic!("unexpected row {:?}", other),
    }
    let batch = report(CheckKind::NodeGroupAmi, &agg.rows).unwrap();
    assert_eq!(batch.title, "Nodegroup Details: ");
    assert_eq!(batch.rows[0].len(), 7);
}

#[test]
fn node_group_listing_failure_stops_that_cluster_only() {
    let probe = |t: &CheckTask, call: &ProbeCall| match (t, call) {
        (_, ProbeCall::ListNodegroups { cluster }) if cluster == "broken" => {
            ProbeReply::Failed(uplifted_errors(SdkFailure::TimeoutError(s("slow"))))
        }
        _ => node_probe(t, call),
    };
    let aws = Aws::new(vec![account("111", &[("broken", "us-east-1"), ("prod", "us-east-1")], &[])]);
    let agg = Aggregator::collect(run(aws.expand(CheckKind::NodeGroupAmi), &probe, false));
    assert_eq!(agg.rows.len(), 1);
    assert_eq!(agg.failures.len(), 1);
    assert_eq!(agg.failures[0].cause(), ErrorKind::TimeoutError);
    assert_eq!(agg.failures[0].resource_name, "broken");
}

#[test]
fn addon_checks_fan_out() {
    let probe = |_: &CheckTask, call: &ProbeCall| match call {
        ProbeCall::ClusterVersion { .. } => ProbeReply::Text(s("1.28")),
        ProbeCall::ListAddons { .. } => list(&["kube-proxy", "coredns"]),
        ProbeCall::AddonVersion { addon, .. } if addon == "kube-proxy" => ProbeReply::Text(s("v1.28.1-eksbuild.1")),
        ProbeCall::AddonVersion { .. } => ProbeReply::Text(s("v1.10.1-eksbuild.7")),
        ProbeCall::AddonVersions { addon, kubernetes_version } => {
            assert_eq!(kubernetes_version, "1.28");
            if addon == "kube-proxy" {
                list(&["v1.28.1-eksbuild.1", "v1.28.4-eksbuild.4", "v1.28.2-eksbuild.2"])
            } else {
                list(&["v1.10.1-eksbuild.7", "v1.10.1-eksbuild.6"])
            }
        }
        other => panic!("unexpected call {:?}", other),
    };
    let aws = Aws::new(vec![account("111", &[("prod", "us-east-1")], &[])]);
    let agg = Aggregator::collect(run(aws.expand(CheckKind::Addon), &probe, false));
    assert_eq!(agg.rows.len(), 2);
    let mut seen = 0;
    for r in &agg.rows {
        match r {
            ResultRow::Addon(a) if a.addon_name == "kube-proxy" => {
                assert_eq!(a.latest_version, "v1.28.4-eksbuild.4");
                assert!(a.upgrade_available);
                seen += 1;
            }
            ResultRow::Addon(a) => {
                assert_eq!(a.latest_version, "v1.10.1-eksbuild.7");
                assert!(!a.upgrade_available);
                seen += 1;
            }
            other => panic!("unexpected row {:?}", other),
        }
    }
    assert_eq!(seen, 2);
}

#[test]
fn addon_without_versions_fails_with_response_error() {
    let probe = |_: &CheckTask, call: &ProbeCall| match call {
        ProbeCall::ClusterVersion { .. } => ProbeReply::Text(s("1.28")),
        ProbeCall::ListAddons { .. } => list(&["vpc-cni"]),
        ProbeCall::AddonVersion { .. } => ProbeReply::Text(s("v1.0")),
        _ => list(&[]),
    };
    let aws = Aws::new(vec![account("111", &[("prod", "us-east-1")], &[])]);
    let agg = Aggregator::collect(run(aws.expand(CheckKind::Addon), &probe, false));
    assert!(agg.rows.is_empty());
    assert_eq!(agg.failures.len(), 1);
    assert_eq!(agg.failures[0].cause(), ErrorKind::ResponseError);
    assert_eq!(agg.failures[0].resource_name, "vpc-cni");
}

#[test]
fn reply_of_wrong_shape_is_a_response_error() {
    let probe = |_: &CheckTask, _: &ProbeCall| list(&["1.28"]);
    let aws = Aws::new(vec![account("111", &[("prod", "us-east-1")], &[])]);
    let agg = Aggregator::collect(run(aws.expand(CheckKind::ClusterVersion), &probe, false));
    assert!(agg.rows.is_empty());
    assert_eq!(agg.failures[0].cause(), ErrorKind::ResponseError);
}

#[test]
fn empty_compatibility_list_is_a_response_error() {
    let probe = |_: &CheckTask, call: &ProbeCall| match call {
        ProbeCall::ClusterVersion { .. } => ProbeReply::Text(s("1.28")),
        _ => list(&[]),
    };
    let aws = Aws::new(vec![account("111", &[("prod", "us-east-1")], &[])]);
    let agg = Aggregator::collect(run(aws.expand(CheckKind::ClusterVersion), &probe, false));
    assert_eq!(agg.failures.len(), 1);
    assert_eq!(agg.failures[0].step, ProbeCall::CompatibleClusterVersions);
    assert_eq!(agg.failures[0].cause(), ErrorKind::ResponseError);
}

#[test]
fn iam_audit_of_users_and_keys() {
    let probe = |_: &CheckTask, call: &ProbeCall| match call {
        ProbeCall::ListUsers => list(&["alice", "bob"]),
        ProbeCall::ListAccessKeys { user } if user == "alice" => ProbeReply::Keys(vec![AccessKey {
            key_id: s("AKIA1"),
            create_date: s("2024-01-01T00:00:00Z"),
            status: s("Active"),
        }]),
        ProbeCall::ListAccessKeys { .. } => ProbeReply::Keys(Vec::new()),
        ProbeCall::AccessKeyLastUsed { key_id } => {
            assert_eq!(key_id, "AKIA1");
            ProbeReply::Text(s("1970-01-01T00:00:00Z"))
        }
        other => panic!("unexpected call {:?}", other),
    };
    let aws = Aws::new(vec![account("111", &[], &["us-east-1"])]);
    let agg = Aggregator::collect(run(aws.expand(CheckKind::IamAccessKey), &probe, false));
    assert!(agg.failures.is_empty());
    assert_eq!(agg.rows.len(), 1);
    match &agg.rows[0] {
        ResultRow::AccessKey(k) => {
            assert_eq!(k.user_name, "alice");
            assert_eq!(k.key_id, "AKIA1");
            assert_eq!(k.last_used_days, 0);
            assert!(!k.eligible_for_deletion);
            assert_eq!(k.age_days, 152);
            assert!(k.needs_rotation);
        }
        other => panic!("unexpected row {:?}", other),
    }
    let batch = report(CheckKind::IamAccessKey, &agg.rows).unwrap();
    assert_eq!(batch.title, "IAM User Access Keys Details: ");
    assert_eq!(batch.header.len(), 9);
    assert!(matches!(batch.rows[0][6].value, CellValue::Days(0)));
    assert!(matches!(&batch.rows[0][7].value, CellValue::Text(t) if t == "Yes"));
    assert_eq!(batch.rows[0][7].highlight, Highlight::NeedsAction);
    assert!(matches!(&batch.rows[0][8].value, CellValue::Text(t) if t == "No"));
}

#[test]
fn listing_users_failure_is_one_failure() {
    let probe = |_: &CheckTask, _: &ProbeCall| {
        ProbeReply::Failed(uplifted_errors(SdkFailure::DispatchFailure(s("offline"))))
    };
    let aws = Aws::new(vec![account("111", &[], &["us-east-1", "eu-west-1"])]);
    let agg = Aggregator::collect(run(aws.expand(CheckKind::IamAccessKey), &probe, false));
    assert!(agg.rows.is_empty());
    assert_eq!(agg.failures.len(), 2);
    assert!(agg.failures.iter().all(|f| f.cause() == ErrorKind::DispatchError && f.step == ProbeCall::ListUsers));
}
