//! The EKS checks: whether a cluster, its node groups and its add-ons run the
//! latest version available to them.
use vstd::prelude::*;
use crate::errors::{ApplicationErrors, ErrorKind, kind_of};
use crate::task::{
    AddonTask, CheckKind, CheckTask, EksCluster, EksNodeGroup, ProbeCall, ProbeReply, ResultRow,
    TaskStep, Failure, copy_string_option, fail_at, follows_plan, lemma_plan_calls,
    lemma_plan_done, lemma_plan_fails_at,
};
use crate::iam::Timestamp;
use crate::version::{is_greatest, latest_version, views};

verus! {

/// The add-on whose compatibility records tell which cluster versions exist:
/// its versions follow the cluster versions one for one.
pub const REFERENCE_ADDON: &'static str = "kube-proxy";

/// The parameter path under which the recommended AMI of a Kubernetes
/// version is published: this prefix, the version, then the suffix.
pub const RECOMMENDED_AMI_PREFIX: &'static str = "/aws/service/eks/optimized-ami/";

pub const RECOMMENDED_AMI_SUFFIX: &'static str = "/amazon-linux-2/recommended/image_id";

/// The name of the parameter holding the recommended AMI id for a
/// Kubernetes version.
pub fn recommended_ami_parameter(kubernetes_version: &String) -> (r: String)
    ensures
        r@ == RECOMMENDED_AMI_PREFIX@ + kubernetes_version@ + RECOMMENDED_AMI_SUFFIX@,
{
    let mut name = String::from_str(RECOMMENDED_AMI_PREFIX);
    name.append(kubernetes_version.as_str());
    name.append(RECOMMENDED_AMI_SUFFIX);
    name
}

/// A cluster's version against the latest one available.
#[derive(Debug, Clone)]
pub struct ClusterResponse {
    pub cluster_version: String,
    pub latest_cluster_version: String,
    pub upgrade_available: bool,
}

/// A node group's AMI against the one recommended for its cluster's version.
#[derive(Debug, Clone)]
pub struct NodegroupResponse {
    pub node_name: String,
    pub ami_name: String,
    pub latest_ami_name: String,
    pub upgrade_available: bool,
}

/// A row of the cluster table.
#[derive(Debug, Clone)]
pub struct ClusterRow {
    pub account_id: String,
    pub cluster_name: String,
    pub region: String,
    pub data: ClusterResponse,
}

/// A row of the node group table.
#[derive(Debug, Clone)]
pub struct NodeGroupRow {
    pub account_id: String,
    pub cluster_name: String,
    pub region: String,
    pub data: NodegroupResponse,
}

/// A row of the add-on table.
#[derive(Debug, Clone)]
pub struct AddonRow {
    pub account_id: String,
    pub cluster_name: String,
    pub region: String,
    pub addon_name: String,
    pub current_version: String,
    pub latest_version: String,
    pub upgrade_available: bool,
}

pub open spec fn text(a: Seq<ProbeReply>, k: int) -> String {
    a[k]->Text_0
}

pub open spec fn list(a: Seq<ProbeReply>, k: int) -> Seq<String> {
    a[k]->List_0@
}

/// `f` is a response error of check `kind` at `call`.
pub open spec fn response_failure(
    f: Failure,
    kind: CheckKind,
    account_id: String,
    resource: String,
    call: ProbeCall,
) -> bool {
    &&& f.kind == kind
    &&& f.account_id == account_id
    &&& f.resource_name == resource
    &&& f.step == call
    &&& kind_of(f.error) == ErrorKind::ResponseError
}

// ---- cluster version -------------------------------------------------------

pub open spec fn cluster_ok(a: Seq<ProbeReply>, k: int) -> bool {
    if k == 0 {
        a[0] is Text
    } else {
        a[1] is List
    }
}

pub open spec fn cluster_call(t: EksCluster, k: int) -> ProbeCall {
    if k == 0 {
        ProbeCall::ClusterVersion { cluster: t.cluster_name }
    } else {
        ProbeCall::CompatibleClusterVersions
    }
}

/// The end of a cluster check: the latest version is the greatest cluster
/// version that any record of the reference add-on is compatible with, and an
/// upgrade is available exactly when the cluster runs another version.
pub open spec fn cluster_done(t: EksCluster, a: Seq<ProbeReply>, s: TaskStep) -> bool {
    let current = text(a, 0);
    let compatible = list(a, 1);
    if compatible.len() == 0 {
        s matches TaskStep::Fail(f) && response_failure(
            f,
            CheckKind::ClusterVersion,
            t.account_id,
            t.cluster_name,
            ProbeCall::CompatibleClusterVersions,
        )
    } else {
        s matches TaskStep::Row(ResultRow::Cluster(row)) && {
            &&& row.account_id == t.account_id
            &&& row.cluster_name == t.cluster_name
            &&& row.region == t.region
            &&& row.data.cluster_version == current
            &&& is_greatest(views(compatible), row.data.latest_cluster_version@)
            &&& row.data.upgrade_available == (current@ != row.data.latest_cluster_version@)
        }
    }
}

/// The next step of a cluster version check: the cluster's version, then the
/// reference add-on's compatible cluster versions, then the row.
pub fn cluster_version_step(task: &EksCluster, answers: &Vec<ProbeReply>) -> (r: TaskStep)
    ensures
        follows_plan(
            r,
            answers@,
            2,
            |k: int| cluster_ok(answers@, k),
            |k: int| cluster_call(*task, k),
            CheckKind::ClusterVersion,
            task.account_id,
            task.cluster_name,
            |s: TaskStep| cluster_done(*task, answers@, s),
        ),
{
    let kind = CheckKind::ClusterVersion;
    let ghost a = answers@;
    let ghost ok = |k: int| cluster_ok(a, k);
    let ghost call = |k: int| cluster_call(*task, k);
    let ghost done = |s: TaskStep| cluster_done(*task, a, s);
    if answers.len() == 0 {
        let r = TaskStep::Call(ProbeCall::ClusterVersion { cluster: task.cluster_name.clone() });
        proof {
            lemma_plan_calls(r, a, 2, ok, call, kind, task.account_id, task.cluster_name, done);
        }
        return r;
    }
    let current = match &answers[0] {
        ProbeReply::Text(v) => v,
        other => {
            let c = ProbeCall::ClusterVersion { cluster: task.cluster_name.clone() };
            let r = fail_at(kind, &task.account_id, &task.cluster_name, c, other);
            proof {
                lemma_plan_fails_at(r, a, 2, ok, call, kind, task.account_id, task.cluster_name, done, 0);
            }
            return r;
        },
    };
    if answers.len() == 1 {
        let r = TaskStep::Call(ProbeCall::CompatibleClusterVersions);
        proof {
            assert(ok(0));
            lemma_plan_calls(r, a, 2, ok, call, kind, task.account_id, task.cluster_name, done);
        }
        return r;
    }
    let compatible = match &answers[1] {
        ProbeReply::List(v) => v,
        other => {
            let c = ProbeCall::CompatibleClusterVersions;
            let r = fail_at(kind, &task.account_id, &task.cluster_name, c, other);
            proof {
                assert(ok(0));
                lemma_plan_fails_at(r, a, 2, ok, call, kind, task.account_id, task.cluster_name, done, 1);
            }
            return r;
        },
    };
    let r = match latest_version(compatible) {
        None => TaskStep::Fail(
            Failure {
                kind,
                account_id: task.account_id.clone(),
                resource_name: task.cluster_name.clone(),
                step: ProbeCall::CompatibleClusterVersions,
                error: ApplicationErrors::malformed_response("no compatible cluster version was reported"),
            },
        ),
        Some(latest) => {
            let upgrade_available = !current.eq(&latest);
            TaskStep::Row(
                ResultRow::Cluster(
                    ClusterRow {
                        account_id: task.account_id.clone(),
                        cluster_name: task.cluster_name.clone(),
                        region: task.region.clone(),
                        data: ClusterResponse {
                            cluster_version: current.clone(),
                            latest_cluster_version: latest,
                            upgrade_available,
                        },
                    },
                ),
            )
        },
    };
    proof {
        assert(ok(0) && ok(1));
        lemma_plan_done(r, a, 2, ok, call, kind, task.account_id, task.cluster_name, done);
    }
    r
}

// ---- node group AMI --------------------------------------------------------

pub open spec fn node_group_ok(a: Seq<ProbeReply>, k: int) -> bool {
    if k == 2 {
        a[2] is Template
    } else {
        a[k] is Text
    }
}

pub open spec fn node_group_call(t: EksNodeGroup, a: Seq<ProbeReply>, k: int) -> ProbeCall {
    if k == 0 {
        ProbeCall::ClusterVersion { cluster: t.cluster_name }
    } else if k == 1 {
        ProbeCall::NodegroupAutoScalingGroup { cluster: t.cluster_name, node_group: t.node_name }
    } else if k == 2 {
        ProbeCall::LaunchTemplate { group: text(a, 1) }
    } else if k == 3 {
        ProbeCall::LaunchTemplateAmi { id: a[2]->Template_0.id, version: a[2]->Template_0.version }
    } else if k == 4 {
        ProbeCall::AmiName { ami_id: text(a, 3) }
    } else if k == 5 {
        ProbeCall::RecommendedAmi { kubernetes_version: text(a, 0) }
    } else {
        ProbeCall::AmiName { ami_id: text(a, 5) }
    }
}

/// The end of a node group check: the name of the AMI in use against the name
/// of the AMI recommended for the cluster's version; an upgrade is available
/// exactly when they differ.
pub open spec fn node_group_done(t: EksNodeGroup, a: Seq<ProbeReply>, s: TaskStep) -> bool {
    s matches TaskStep::Row(ResultRow::NodeGroup(row)) && {
        &&& row.account_id == t.account_id
        &&& row.cluster_name == t.cluster_name
        &&& row.region == t.region
        &&& row.data.node_name == t.node_name
        &&& row.data.ami_name == text(a, 4)
        &&& row.data.latest_ami_name == text(a, 6)
        &&& row.data.upgrade_available == (text(a, 4)@ != text(a, 6)@)
    }
}

/// The next step of a node group check: the cluster's version, the node
/// group's auto-scaling group, its launch template, the AMI in that template,
/// that AMI's name, the AMI recommended for the cluster's version, its name,
/// then the row.
pub fn node_group_step(task: &EksNodeGroup, answers: &Vec<ProbeReply>) -> (r: TaskStep)
    ensures
        follows_plan(
            r,
            answers@,
            7,
            |k: int| node_group_ok(answers@, k),
            |k: int| node_group_call(*task, answers@, k),
            CheckKind::NodeGroupAmi,
            task.account_id,
            task.node_name,
            |s: TaskStep| node_group_done(*task, answers@, s),
        ),
{
    let kind = CheckKind::NodeGroupAmi;
    let ghost a = answers@;
    let ghost ok = |k: int| node_group_ok(a, k);
    let ghost call = |k: int| node_group_call(*task, a, k);
    let ghost done = |s: TaskStep| node_group_done(*task, a, s);
    let n = answers.len();
    // the cluster's Kubernetes version
    let c0 = ProbeCall::ClusterVersion { cluster: task.cluster_name.clone() };
    if n == 0 {
        let r = TaskStep::Call(c0);
        proof { lemma_plan_calls(r, a, 7, ok, call, kind, task.account_id, task.node_name, done); }
        return r;
    }
    let version = match &answers[0] {
        ProbeReply::Text(v) => v,
        other => {
            let r = fail_at(kind, &task.account_id, &task.node_name, c0, other);
            proof { lemma_plan_fails_at(r, a, 7, ok, call, kind, task.account_id, task.node_name, done, 0); }
            return r;
        },
    };
    // the auto-scaling group behind the node group
    let c1 = ProbeCall::NodegroupAutoScalingGroup {
        cluster: task.cluster_name.clone(),
        node_group: task.node_name.clone(),
    };
    if n == 1 {
        let r = TaskStep::Call(c1);
        proof { lemma_plan_calls(r, a, 7, ok, call, kind, task.account_id, task.node_name, done); }
        return r;
    }
    let group = match &answers[1] {
        ProbeReply::Text(v) => v,
        other => {
            let r = fail_at(kind, &task.account_id, &task.node_name, c1, other);
            proof { lemma_plan_fails_at(r, a, 7, ok, call, kind, task.account_id, task.node_name, done, 1); }
            return r;
        },
    };
    // its launch template
    let c2 = ProbeCall::LaunchTemplate { group: group.clone() };
    if n == 2 {
        let r = TaskStep::Call(c2);
        proof { lemma_plan_calls(r, a, 7, ok, call, kind, task.account_id, task.node_name, done); }
        return r;
    }
    let template = match &answers[2] {
        ProbeReply::Template(t) => t,
        other => {
            let r = fail_at(kind, &task.account_id, &task.node_name, c2, other);
            proof { lemma_plan_fails_at(r, a, 7, ok, call, kind, task.account_id, task.node_name, done, 2); }
            return r;
        },
    };
    // the AMI in that launch template
    let c3 = ProbeCall::LaunchTemplateAmi { id: template.id.clone(), version: template.version.clone() };
    if n == 3 {
        let r = TaskStep::Call(c3);
        proof { lemma_plan_calls(r, a, 7, ok, call, kind, task.account_id, task.node_name, done); }
        return r;
    }
    let ami = match &answers[3] {
        ProbeReply::Text(v) => v,
        other => {
            let r = fail_at(kind, &task.account_id, &task.node_name, c3, other);
            proof { lemma_plan_fails_at(r, a, 7, ok, call, kind, task.account_id, task.node_name, done, 3); }
            return r;
        },
    };
    // its name
    let c4 = ProbeCall::AmiName { ami_id: ami.clone() };
    if n == 4 {
        let r = TaskStep::Call(c4);
        proof { lemma_plan_calls(r, a, 7, ok, call, kind, task.account_id, task.node_name, done); }
        return r;
    }
    let ami_name = match &answers[4] {
        ProbeReply::Text(v) => v,
        other => {
            let r = fail_at(kind, &task.account_id, &task.node_name, c4, other);
            proof { lemma_plan_fails_at(r, a, 7, ok, call, kind, task.account_id, task.node_name, done, 4); }
            return r;
        },
    };
    // the AMI recommended for the cluster's version
    let c5 = ProbeCall::RecommendedAmi { kubernetes_version: version.clone() };
    if n == 5 {
        let r = TaskStep::Call(c5);
        proof { lemma_plan_calls(r, a, 7, ok, call, kind, task.account_id, task.node_name, done); }
        return r;
    }
    let latest_ami = match &answers[5] {
        ProbeReply::Text(v) => v,
        other => {
            let r = fail_at(kind, &task.account_id, &task.node_name, c5, other);
            proof { lemma_plan_fails_at(r, a, 7, ok, call, kind, task.account_id, task.node_name, done, 5); }
            return r;
        },
    };
    // its name
    let c6 = ProbeCall::AmiName { ami_id: latest_ami.clone() };
    if n == 6 {
        let r = TaskStep::Call(c6);
        proof { lemma_plan_calls(r, a, 7, ok, call, kind, task.account_id, task.node_name, done); }
        return r;
    }
    let latest_ami_name = match &answers[6] {
        ProbeReply::Text(v) => v,
        other => {
            let r = fail_at(kind, &task.account_id, &task.node_name, c6, other);
            proof { lemma_plan_fails_at(r, a, 7, ok, call, kind, task.account_id, task.node_name, done, 6); }
            return r;
        },
    };
    let upgrade_available = !ami_name.eq(latest_ami_name);
    let r = TaskStep::Row(
        ResultRow::NodeGroup(
            NodeGroupRow {
                account_id: task.account_id.clone(),
                cluster_name: task.cluster_name.clone(),
                region: task.region.clone(),
                data: NodegroupResponse {
                    node_name: task.node_name.clone(),
                    ami_name: ami_name.clone(),
                    latest_ami_name: latest_ami_name.clone(),
                    upgrade_available,
                },
            },
        ),
    );
    proof { lemma_plan_done(r, a, 7, ok, call, kind, task.account_id, task.node_name, done); }
    r
}

// ---- add-ons ---------------------------------------------------------------

pub open spec fn addon_cluster_ok(a: Seq<ProbeReply>, k: int) -> bool {
    if k == 0 {
        a[0] is Text
    } else {
        a[1] is List
    }
}

pub open spec fn addon_cluster_call(t: EksCluster, k: int) -> ProbeCall {
    if k == 0 {
        ProbeCall::ClusterVersion { cluster: t.cluster_name }
    } else {
        ProbeCall::ListAddons { cluster: t.cluster_name }
    }
}

/// The add-on check of one installed add-on.
pub open spec fn addon_task_of(t: EksCluster, kubernetes_version: String, addon: String) -> CheckTask {
    CheckTask::Addon(
        AddonTask {
            account_id: t.account_id,
            cluster_name: t.cluster_name,
            region: t.region,
            role_arn: t.role_arn,
            kubernetes_version,
            addon_name: addon,
        },
    )
}

/// The end of an add-on listing: one add-on check per installed add-on, in
/// the order listed, each with the cluster's Kubernetes version.
pub open spec fn addon_cluster_done(t: EksCluster, a: Seq<ProbeReply>, s: TaskStep) -> bool {
    s matches TaskStep::Expand(tasks) && {
        &&& tasks@.len() == list(a, 1).len()
        &&& forall|i: int|
            0 <= i < tasks@.len() ==> #[trigger] tasks@[i] == addon_task_of(t, text(a, 0), list(a, 1)[i])
    }
}

/// The next step of an add-on listing: the cluster's version, the installed
/// add-ons, then one add-on check for each.
pub fn addon_cluster_step(task: &EksCluster, answers: &Vec<ProbeReply>) -> (r: TaskStep)
    ensures
        follows_plan(
            r,
            answers@,
            2,
            |k: int| addon_cluster_ok(answers@, k),
            |k: int| addon_cluster_call(*task, k),
            CheckKind::Addon,
            task.account_id,
            task.cluster_name,
            |s: TaskStep| addon_cluster_done(*task, answers@, s),
        ),
{
    let kind = CheckKind::Addon;
    let ghost a = answers@;
    let ghost ok = |k: int| addon_cluster_ok(a, k);
    let ghost call = |k: int| addon_cluster_call(*task, k);
    let ghost done = |s: TaskStep| addon_cluster_done(*task, a, s);
    let c0 = ProbeCall::ClusterVersion { cluster: task.cluster_name.clone() };
    if answers.len() == 0 {
        let r = TaskStep::Call(c0);
        proof { lemma_plan_calls(r, a, 2, ok, call, kind, task.account_id, task.cluster_name, done); }
        return r;
    }
    let version = match &answers[0] {
        ProbeReply::Text(v) => v,
        other => {
            let r = fail_at(kind, &task.account_id, &task.cluster_name, c0, other);
            proof { lemma_plan_fails_at(r, a, 2, ok, call, kind, task.account_id, task.cluster_name, done, 0); }
            return r;
        },
    };
    let c1 = ProbeCall::ListAddons { cluster: task.cluster_name.clone() };
    if answers.len() == 1 {
        let r = TaskStep::Call(c1);
        proof { lemma_plan_calls(r, a, 2, ok, call, kind, task.account_id, task.cluster_name, done); }
        return r;
    }
    let addons = match &answers[1] {
        ProbeReply::List(v) => v,
        other => {
            let r = fail_at(kind, &task.account_id, &task.cluster_name, c1, other);
            proof { lemma_plan_fails_at(r, a, 2, ok, call, kind, task.account_id, task.cluster_name, done, 1); }
            return r;
        },
    };
    let mut tasks: Vec<CheckTask> = Vec::new();
    let mut i: usize = 0;
    while i < addons.len()
        invariant
            i <= addons@.len(),
            addons@ == list(a, 1),
            *version == text(a, 0),
            tasks@.len() == i,
            forall|j: int| 0 <= j < i ==> #[trigger] tasks@[j] == addon_task_of(*task, *version, addons@[j]),
        decreases addons@.len() - i,
    {
        let t = AddonTask {
            account_id: task.account_id.clone(),
            cluster_name: task.cluster_name.clone(),
            region: task.region.clone(),
            role_arn: copy_string_option(&task.role_arn),
            kubernetes_version: version.clone(),
            addon_name: addons[i].clone(),
        };
        tasks.push(CheckTask::Addon(t));
        i = i + 1;
    }
    let r = TaskStep::Expand(tasks);
    proof { lemma_plan_done(r, a, 2, ok, call, kind, task.account_id, task.cluster_name, done); }
    r
}

pub open spec fn addon_ok(a: Seq<ProbeReply>, k: int) -> bool {
    if k == 0 {
        a[0] is Text
    } else {
        a[1] is List
    }
}

pub open spec fn addon_call(t: AddonTask, k: int) -> ProbeCall {
    if k == 0 {
        ProbeCall::AddonVersion { cluster: t.cluster_name, addon: t.addon_name }
    } else {
        ProbeCall::AddonVersions { addon: t.addon_name, kubernetes_version: t.kubernetes_version }
    }
}

/// The end of an add-on check: the latest version is the greatest version of
/// the add-on for the cluster's Kubernetes version, and an upgrade is
/// available exactly when the installed version is another.
pub open spec fn addon_done(t: AddonTask, a: Seq<ProbeReply>, s: TaskStep) -> bool {
    let current = text(a, 0);
    let versions = list(a, 1);
    if versions.len() == 0 {
        s matches TaskStep::Fail(f) && response_failure(
            f,
            CheckKind::Addon,
            t.account_id,
            t.addon_name,
            addon_call(t, 1),
        )
    } else {
        s matches TaskStep::Row(ResultRow::Addon(row)) && {
            &&& row.account_id == t.account_id
            &&& row.cluster_name == t.cluster_name
            &&& row.region == t.region
            &&& row.addon_name == t.addon_name
            &&& row.current_version == current
            &&& is_greatest(views(versions), row.latest_version@)
            &&& row.upgrade_available == (current@ != row.latest_version@)
        }
    }
}

/// The next step of an add-on check: the installed version, the versions
/// available for the cluster's Kubernetes version, then the row.
pub fn addon_step(task: &AddonTask, answers: &Vec<ProbeReply>) -> (r: TaskStep)
    ensures
        follows_plan(
            r,
            answers@,
            2,
            |k: int| addon_ok(answers@, k),
            |k: int| addon_call(*task, k),
            CheckKind::Addon,
            task.account_id,
            task.addon_name,
            |s: TaskStep| addon_done(*task, answers@, s),
        ),
{
    let kind = CheckKind::Addon;
    let ghost a = answers@;
    let ghost ok = |k: int| addon_ok(a, k);
    let ghost call = |k: int| addon_call(*task, k);
    let ghost done = |s: TaskStep| addon_done(*task, a, s);
    let c0 = ProbeCall::AddonVersion { cluster: task.cluster_name.clone(), addon: task.addon_name.clone() };
    if answers.len() == 0 {
        let r = TaskStep::Call(c0);
        proof { lemma_plan_calls(r, a, 2, ok, call, kind, task.account_id, task.addon_name, done); }
        return r;
    }
    let current = match &answers[0] {
        ProbeReply::Text(v) => v,
        other => {
            let r = fail_at(kind, &task.account_id, &task.addon_name, c0, other);
            proof { lemma_plan_fails_at(r, a, 2, ok, call, kind, task.account_id, task.addon_name, done, 0); }
            return r;
        },
    };
    let c1 = ProbeCall::AddonVersions {
        addon: task.addon_name.clone(),
        kubernetes_version: task.kubernetes_version.clone(),
    };
    if answers.len() == 1 {
        let r = TaskStep::Call(c1);
        proof { lemma_plan_calls(r, a, 2, ok, call, kind, task.account_id, task.addon_name, done); }
        return r;
    }
    let versions = match &answers[1] {
        ProbeReply::List(v) => v,
        other => {
            let r = fail_at(kind, &task.account_id, &task.addon_name, c1, other);
            proof { lemma_plan_fails_at(r, a, 2, ok, call, kind, task.account_id, task.addon_name, done, 1); }
            return r;
        },
    };
    let r = match latest_version(versions) {
        None => TaskStep::Fail(
            Failure {
                kind,
                account_id: task.account_id.clone(),
                resource_name: task.addon_name.clone(),
                step: c1,
                error: ApplicationErrors::malformed_response("no version of the add-on was reported"),
            },
        ),
        Some(latest) => {
            let upgrade_available = !current.eq(&latest);
            TaskStep::Row(
                ResultRow::Addon(
                    AddonRow {
                        account_id: task.account_id.clone(),
                        cluster_name: task.cluster_name.clone(),
                        region: task.region.clone(),
                        addon_name: task.addon_name.clone(),
                        current_version: current.clone(),
                        latest_version: latest,
                        upgrade_available,
                    },
                ),
            )
        },
    };
    proof { lemma_plan_done(r, a, 2, ok, call, kind, task.account_id, task.addon_name, done); }
    r
}

// ---- node groups of a cluster ----------------------------------------------

pub open spec fn listing_ok(a: Seq<ProbeReply>, k: int) -> bool {
    a[0] is List
}

pub open spec fn listing_call(t: EksCluster, k: int) -> ProbeCall {
    ProbeCall::ListNodegroups { cluster: t.cluster_name }
}

/// The node group check of one node group of a cluster.
pub open spec fn node_group_task_of(t: EksCluster, node_name: String) -> CheckTask {
    CheckTask::NodeGroup(
        EksNodeGroup {
            account_id: t.account_id,
            cluster_name: t.cluster_name,
            region: t.region,
            role_arn: t.role_arn,
            node_name,
        },
    )
}

/// The end of a node group listing: one check per node group, in the order
/// listed.
pub open spec fn listing_done(t: EksCluster, a: Seq<ProbeReply>, s: TaskStep) -> bool {
    s matches TaskStep::Expand(tasks) && {
        &&& tasks@.len() == list(a, 0).len()
        &&& forall|i: int| 0 <= i < tasks@.len() ==> #[trigger] tasks@[i] == node_group_task_of(t, list(a, 0)[i])
    }
}

/// The next step of a node group listing: the cluster's node groups, then one
/// node group check for each. A failure here stops this cluster only.
pub fn node_group_listing_step(task: &EksCluster, answers: &Vec<ProbeReply>) -> (r: TaskStep)
    ensures
        follows_plan(
            r,
            answers@,
            1,
            |k: int| listing_ok(answers@, k),
            |k: int| listing_call(*task, k),
            CheckKind::NodeGroupAmi,
            task.account_id,
            task.cluster_name,
            |s: TaskStep| listing_done(*task, answers@, s),
        ),
{
    let kind = CheckKind::NodeGroupAmi;
    let ghost a = answers@;
    let ghost ok = |k: int| listing_ok(a, k);
    let ghost call = |k: int| listing_call(*task, k);
    let ghost done = |s: TaskStep| listing_done(*task, a, s);
    let c0 = ProbeCall::ListNodegroups { cluster: task.cluster_name.clone() };
    if answers.len() == 0 {
        let r = TaskStep::Call(c0);
        proof { lemma_plan_calls(r, a, 1, ok, call, kind, task.account_id, task.cluster_name, done); }
        return r;
    }
    let names = match &answers[0] {
        ProbeReply::List(v) => v,
        other => {
            let r = fail_at(kind, &task.account_id, &task.cluster_name, c0, other);
            proof { lemma_plan_fails_at(r, a, 1, ok, call, kind, task.account_id, task.cluster_name, done, 0); }
            return r;
        },
    };
    let mut tasks: Vec<CheckTask> = Vec::new();
    let mut i: usize = 0;
    while i < names.len()
        invariant
            i <= names@.len(),
            names@ == list(a, 0),
            tasks@.len() == i,
            forall|j: int| 0 <= j < i ==> #[trigger] tasks@[j] == node_group_task_of(*task, names@[j]),
        decreases names@.len() - i,
    {
        let t = EksNodeGroup {
            account_id: task.account_id.clone(),
            cluster_name: task.cluster_name.clone(),
            region: task.region.clone(),
            role_arn: copy_string_option(&task.role_arn),
            node_name: names[i].clone(),
        };
        tasks.push(CheckTask::NodeGroup(t));
        i = i + 1;
    }
    let r = TaskStep::Expand(tasks);
    proof { lemma_plan_done(r, a, 1, ok, call, kind, task.account_id, task.cluster_name, done); }
    r
}

/// Every row a cluster version check produces says an upgrade is available
/// exactly when the cluster's version differs from the latest one.
pub proof fn lemma_cluster_row_upgrade(
    task: EksCluster,
    answers: Seq<ProbeReply>,
    now: Timestamp,
    r: TaskStep,
)
    requires
        crate::task::steps_to(CheckTask::ClusterVersion(task), answers, now, r),
        r matches TaskStep::Row(ResultRow::Cluster(_)),
    ensures
        r->Row_0->Cluster_0.data.upgrade_available == (r->Row_0->Cluster_0.data.cluster_version@
            != r->Row_0->Cluster_0.data.latest_cluster_version@),
{
    let ok = |k: int| cluster_ok(answers, k);
    let call = |k: int| cluster_call(task, k);
    assert(ok(0) == cluster_ok(answers, 0));
    assert(ok(1) == cluster_ok(answers, 1));
    assert(call(0) == cluster_call(task, 0));
    assert(call(1) == cluster_call(task, 1));
    if answers.len() >= 2 && ok(0) && ok(1) {
    } else if answers.len() == 0 {
    } else if !ok(0) {
    } else if answers.len() == 1 {
    } else {
    }
}

} // verus!
