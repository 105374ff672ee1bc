//! The units of work of a scan: check tasks, the probe calls a task asks for,
//! the replies it is handed, and what a task ends in.
//!
//! A task is driven from outside: its step function is handed the replies to
//! the calls it asked for so far, in order, and says what comes next: one more
//! probe call, a result row, a failure, or further tasks to run on their own.
use vstd::prelude::*;
use crate::autoscaling::Response;
use crate::errors::{ApplicationErrors, AwsErrors, ErrorKind, kind_of};
use crate::eks::{
    AddonRow, ClusterRow, NodeGroupRow, addon_cluster_call, addon_cluster_done, addon_cluster_ok,
    addon_cluster_step, addon_call, addon_done, addon_ok, addon_step, cluster_call, cluster_done,
    cluster_ok, cluster_version_step, listing_call, listing_done, listing_ok, node_group_call,
    node_group_done, node_group_listing_step, node_group_ok, node_group_step,
};
use crate::iam::{
    AccessKey, AccessKeyRow, Timestamp, access_key_step, iam_account_step, iam_user_step,
    key_step_at, keys_call, keys_done, keys_ok, users_call, users_done, users_ok,
};

verus! {

/// A category of scan, each producing its own report table.
#[derive(Debug, Clone, Copy, PartialEq, Eq, Structural)]
pub enum CheckKind {
    ClusterVersion,
    NodeGroupAmi,
    Addon,
    IamAccessKey,
}

/// An EKS cluster of an account, as a check of the cluster or of its add-ons.
#[derive(Debug, Clone)]
pub struct EksCluster {
    pub account_id: String,
    pub cluster_name: String,
    pub region: String,
    pub role_arn: Option<String>,
}

/// A node group of an EKS cluster.
#[derive(Debug, Clone)]
pub struct EksNodeGroup {
    pub account_id: String,
    pub cluster_name: String,
    pub region: String,
    pub role_arn: Option<String>,
    pub node_name: String,
}

/// One installed add-on of a cluster whose Kubernetes version is known.
#[derive(Debug, Clone)]
pub struct AddonTask {
    pub account_id: String,
    pub cluster_name: String,
    pub region: String,
    pub role_arn: Option<String>,
    pub kubernetes_version: String,
    pub addon_name: String,
}

/// The IAM users of an account, as seen from one region.
#[derive(Debug, Clone)]
pub struct IamAccount {
    pub account_id: String,
    pub region: String,
    pub role_arn: Option<String>,
}

/// One IAM user, whose access keys are to be listed.
#[derive(Debug, Clone)]
pub struct IamUser {
    pub account_id: String,
    pub region: String,
    pub role_arn: Option<String>,
    pub user_name: String,
}

/// One access key of an IAM user.
#[derive(Debug, Clone)]
pub struct AccessKeyTask {
    pub account_id: String,
    pub region: String,
    pub role_arn: Option<String>,
    pub user_name: String,
    pub key: AccessKey,
}

/// A unit of concurrent work.
#[derive(Debug, Clone)]
pub enum CheckTask {
    ClusterVersion(EksCluster),
    /// Lists the node groups of a cluster, then checks each on its own.
    NodeGroupListing(EksCluster),
    NodeGroup(EksNodeGroup),
    /// Lists the add-ons of a cluster, then checks each on its own.
    AddonCluster(EksCluster),
    Addon(AddonTask),
    /// Lists the users of an account, then audits each on its own.
    IamAccount(IamAccount),
    /// Lists the keys of a user, then checks each on its own.
    IamUser(IamUser),
    AccessKey(AccessKeyTask),
}

/// A read-only call to the cloud control plane.
#[derive(Debug, Clone, PartialEq, Eq)]
pub enum ProbeCall {
    /// The Kubernetes version of a cluster: a `Text`.
    ClusterVersion { cluster: String },
    /// The cluster versions that the versions of the reference add-on
    /// (`eks::REFERENCE_ADDON`) are compatible with, all records together: a
    /// `List`.
    CompatibleClusterVersions,
    /// The names of a cluster's node groups: a `List`.
    ListNodegroups { cluster: String },
    /// The auto-scaling group behind a node group: a `Text`.
    NodegroupAutoScalingGroup { cluster: String, node_group: String },
    /// The launch template of an auto-scaling group: a `Template`.
    LaunchTemplate { group: String },
    /// The AMI id in a launch template version: a `Text`.
    LaunchTemplateAmi { id: String, version: String },
    /// The name of an AMI: a `Text`.
    AmiName { ami_id: String },
    /// The recommended AMI id for a Kubernetes version: a `Text`.
    RecommendedAmi { kubernetes_version: String },
    /// The add-ons installed on a cluster: a `List`.
    ListAddons { cluster: String },
    /// The installed version of an add-on: a `Text`.
    AddonVersion { cluster: String, addon: String },
    /// The versions of an add-on for a Kubernetes version: a `List`.
    AddonVersions { addon: String, kubernetes_version: String },
    /// The IAM users of the account: a `List`.
    ListUsers,
    /// The access keys of a user: `Keys`.
    ListAccessKeys { user: String },
    /// When an access key was last used, RFC 3339: a `Text`.
    AccessKeyLastUsed { key_id: String },
}

/// The answer to a probe call.
#[derive(Debug, Clone)]
pub enum ProbeReply {
    Text(String),
    List(Vec<String>),
    Template(Response),
    Keys(Vec<AccessKey>),
    Failed(ApplicationErrors),
}

/// A successful check's row.
#[derive(Debug, Clone)]
pub enum ResultRow {
    Cluster(ClusterRow),
    NodeGroup(NodeGroupRow),
    Addon(AddonRow),
    AccessKey(AccessKeyRow),
}

/// A failed check: which check, on what, at which call, and why.
#[derive(Debug, Clone)]
pub struct Failure {
    pub kind: CheckKind,
    pub account_id: String,
    pub resource_name: String,
    pub step: ProbeCall,
    pub error: ApplicationErrors,
}

/// What a task does next.
#[derive(Debug, Clone)]
pub enum TaskStep {
    Call(ProbeCall),
    Row(ResultRow),
    Fail(Failure),
    /// The task is done and hands on these tasks, each to run on its own.
    Expand(Vec<CheckTask>),
}

pub open spec fn row_kind(r: ResultRow) -> CheckKind {
    match r {
        ResultRow::Cluster(_) => CheckKind::ClusterVersion,
        ResultRow::NodeGroup(_) => CheckKind::NodeGroupAmi,
        ResultRow::Addon(_) => CheckKind::Addon,
        ResultRow::AccessKey(_) => CheckKind::IamAccessKey,
    }
}

impl ResultRow {
    /// The check kind this row belongs to.
    pub fn kind(&self) -> (r: CheckKind)
        ensures
            r == row_kind(*self),
    {
        match self {
            ResultRow::Cluster(_) => CheckKind::ClusterVersion,
            ResultRow::NodeGroup(_) => CheckKind::NodeGroupAmi,
            ResultRow::Addon(_) => CheckKind::Addon,
            ResultRow::AccessKey(_) => CheckKind::IamAccessKey,
        }
    }
}

impl Failure {
    /// The kind of error the check failed with.
    pub fn cause(&self) -> (r: ErrorKind)
        ensures
            r == kind_of(self.error),
    {
        self.error.kind()
    }
}

pub fn copy_string_option(o: &Option<String>) -> (r: Option<String>)
    ensures
        r == *o,
{
    match o {
        Some(s) => Some(s.clone()),
        None => None,
    }
}

pub fn copy_error(e: &ApplicationErrors) -> (r: ApplicationErrors)
    ensures
        r == *e,
{
    match e {
        ApplicationErrors::ConfigNotFound(m) => ApplicationErrors::ConfigNotFound(m.clone()),
        ApplicationErrors::AwsErrors(a) => ApplicationErrors::AwsErrors(
            match a {
                AwsErrors::ConstructionFailure(m) => AwsErrors::ConstructionFailure(m.clone()),
                AwsErrors::TimeoutError(m) => AwsErrors::TimeoutError(m.clone()),
                AwsErrors::DispatchError(m) => AwsErrors::DispatchError(m.clone()),
                AwsErrors::ResponseError(m) => AwsErrors::ResponseError(m.clone()),
                AwsErrors::AwsEksErrors(x) => AwsErrors::AwsEksErrors(
                    match x {
                        crate::errors::AwsEksErrors::RequestError(m) => crate::errors::AwsEksErrors::RequestError(m.clone()),
                        crate::errors::AwsEksErrors::ServerError(m) => crate::errors::AwsEksErrors::ServerError(m.clone()),
                        crate::errors::AwsEksErrors::ClientError(m) => crate::errors::AwsEksErrors::ClientError(m.clone()),
                    },
                ),
                AwsErrors::UnknownErrors(m) => AwsErrors::UnknownErrors(m.clone()),
            },
        ),
    }
}

/// `f` is the failure of check `kind` on `resource` of `account_id` when
/// `call` was answered by `reply`: the reply's own error if it is one, else a
/// response error.
pub open spec fn failure_for(
    f: Failure,
    kind: CheckKind,
    account_id: String,
    resource: String,
    call: ProbeCall,
    reply: ProbeReply,
) -> bool {
    &&& f.kind == kind
    &&& f.account_id == account_id
    &&& f.resource_name == resource
    &&& f.step == call
    &&& match reply {
        ProbeReply::Failed(e) => f.error == e,
        _ => kind_of(f.error) == ErrorKind::ResponseError,
    }
}

/// A task whose `n` calls are given by `call` and whose replies are checked
/// by `ok` takes the next step that `answers` calls for: the first call not
/// answered yet; a failure at the first reply that is not of the shape asked
/// for; `done` once all `n` replies are in.
pub open spec fn follows_plan(
    r: TaskStep,
    answers: Seq<ProbeReply>,
    n: int,
    ok: spec_fn(int) -> bool,
    call: spec_fn(int) -> ProbeCall,
    kind: CheckKind,
    account_id: String,
    resource: String,
    done: spec_fn(TaskStep) -> bool,
) -> bool {
    &&& forall|k: int|
        0 <= k < n && k == answers.len() && (forall|j: int| 0 <= j < k ==> #[trigger] ok(j))
            ==> r == TaskStep::Call(#[trigger] call(k))
    &&& forall|k: int|
        0 <= k < n && k < answers.len() && (forall|j: int| 0 <= j < k ==> #[trigger] ok(j))
            && !#[trigger] ok(k) ==> (r matches TaskStep::Fail(f) && failure_for(
            f,
            kind,
            account_id,
            resource,
            call(k),
            answers[k],
        ))
    &&& (n <= answers.len() && (forall|j: int| 0 <= j < n ==> #[trigger] ok(j))) ==> done(r)
}

/// The failure of check `kind` on `resource` of `account_id` when `call` was
/// answered by `reply`, which is not of the shape asked for.
pub fn fail_at(
    kind: CheckKind,
    account_id: &String,
    resource: &String,
    call: ProbeCall,
    reply: &ProbeReply,
) -> (r: TaskStep)
    ensures
        r matches TaskStep::Fail(f) && failure_for(f, kind, *account_id, *resource, call, *reply),
{
    let error = match reply {
        ProbeReply::Failed(e) => copy_error(e),
        _ => ApplicationErrors::malformed_response("the reply does not answer the call"),
    };
    TaskStep::Fail(
        Failure { kind, account_id: account_id.clone(), resource_name: resource.clone(), step: call, error },
    )
}

/// A plan that fails at the first reply not of the shape asked for is followed.
pub proof fn lemma_plan_fails_at(
    r: TaskStep,
    answers: Seq<ProbeReply>,
    n: int,
    ok: spec_fn(int) -> bool,
    call: spec_fn(int) -> ProbeCall,
    kind: CheckKind,
    account_id: String,
    resource: String,
    done: spec_fn(TaskStep) -> bool,
    k: int,
)
    requires
        0 <= k < n,
        k < answers.len(),
        forall|j: int| 0 <= j < k ==> #[trigger] ok(j),
        !ok(k),
        r matches TaskStep::Fail(f) && failure_for(f, kind, account_id, resource, call(k), answers[k]),
    ensures
        follows_plan(r, answers, n, ok, call, kind, account_id, resource, done),
{
    assert forall|i: int|
        0 <= i < n && i == answers.len() && (forall|j: int| 0 <= j < i ==> #[trigger] ok(j))
            implies r == TaskStep::Call(#[trigger] call(i)) by {
        assert(ok(k));
    }
    assert forall|i: int|
        0 <= i < n && i < answers.len() && (forall|j: int| 0 <= j < i ==> #[trigger] ok(j))
            && !#[trigger] ok(i) implies (r matches TaskStep::Fail(f) && failure_for(
            f,
            kind,
            account_id,
            resource,
            call(i),
            answers[i],
        )) by {
        if i < k {
            assert(ok(i));
        } else if i > k {
            assert(ok(k));
        }
    }
    if n <= answers.len() && (forall|j: int| 0 <= j < n ==> #[trigger] ok(j)) {
        assert(ok(k));
    }
}

/// A plan that asks for the first call not answered yet is followed.
pub proof fn lemma_plan_calls(
    r: TaskStep,
    answers: Seq<ProbeReply>,
    n: int,
    ok: spec_fn(int) -> bool,
    call: spec_fn(int) -> ProbeCall,
    kind: CheckKind,
    account_id: String,
    resource: String,
    done: spec_fn(TaskStep) -> bool,
)
    requires
        answers.len() < n,
        forall|j: int| 0 <= j < answers.len() ==> #[trigger] ok(j),
        r == TaskStep::Call(call(answers.len() as int)),
    ensures
        follows_plan(r, answers, n, ok, call, kind, account_id, resource, done),
{
    assert forall|i: int|
        0 <= i < n && i < answers.len() && (forall|j: int| 0 <= j < i ==> #[trigger] ok(j))
            && !#[trigger] ok(i) implies (r matches TaskStep::Fail(f) && failure_for(
            f,
            kind,
            account_id,
            resource,
            call(i),
            answers[i],
        )) by {
        assert(ok(i));
    }
}

/// A plan that ends as `done` says once every reply is in is followed.
pub proof fn lemma_plan_done(
    r: TaskStep,
    answers: Seq<ProbeReply>,
    n: int,
    ok: spec_fn(int) -> bool,
    call: spec_fn(int) -> ProbeCall,
    kind: CheckKind,
    account_id: String,
    resource: String,
    done: spec_fn(TaskStep) -> bool,
)
    requires
        n <= answers.len(),
        forall|j: int| 0 <= j < n ==> #[trigger] ok(j),
        done(r),
    ensures
        follows_plan(r, answers, n, ok, call, kind, account_id, resource, done),
{
    assert forall|i: int|
        0 <= i < n && i < answers.len() && (forall|j: int| 0 <= j < i ==> #[trigger] ok(j))
            && !#[trigger] ok(i) implies (r matches TaskStep::Fail(f) && failure_for(
            f,
            kind,
            account_id,
            resource,
            call(i),
            answers[i],
        )) by {
        assert(ok(i));
    }
}

/// `r` is the next step of `task` after `answers`, as the step function of
/// its kind says; an access key's age is taken at instant `now`.
pub open spec fn steps_to(task: CheckTask, answers: Seq<ProbeReply>, now: Timestamp, r: TaskStep) -> bool {
    match task {
        CheckTask::ClusterVersion(t) => follows_plan(
            r,
            answers,
            2,
            |k: int| cluster_ok(answers, k),
            |k: int| cluster_call(t, k),
            CheckKind::ClusterVersion,
            t.account_id,
            t.cluster_name,
            |s: TaskStep| cluster_done(t, answers, s),
        ),
        CheckTask::NodeGroupListing(t) => follows_plan(
            r,
            answers,
            1,
            |k: int| listing_ok(answers, k),
            |k: int| listing_call(t, k),
            CheckKind::NodeGroupAmi,
            t.account_id,
            t.cluster_name,
            |s: TaskStep| listing_done(t, answers, s),
        ),
        CheckTask::NodeGroup(t) => follows_plan(
            r,
            answers,
            7,
            |k: int| node_group_ok(answers, k),
            |k: int| node_group_call(t, answers, k),
            CheckKind::NodeGroupAmi,
            t.account_id,
            t.node_name,
            |s: TaskStep| node_group_done(t, answers, s),
        ),
        CheckTask::AddonCluster(t) => follows_plan(
            r,
            answers,
            2,
            |k: int| addon_cluster_ok(answers, k),
            |k: int| addon_cluster_call(t, k),
            CheckKind::Addon,
            t.account_id,
            t.cluster_name,
            |s: TaskStep| addon_cluster_done(t, answers, s),
        ),
        CheckTask::Addon(t) => follows_plan(
            r,
            answers,
            2,
            |k: int| addon_ok(answers, k),
            |k: int| addon_call(t, k),
            CheckKind::Addon,
            t.account_id,
            t.addon_name,
            |s: TaskStep| addon_done(t, answers, s),
        ),
        CheckTask::IamAccount(t) => follows_plan(
            r,
            answers,
            1,
            |k: int| users_ok(answers, k),
            |k: int| users_call(k),
            CheckKind::IamAccessKey,
            t.account_id,
            t.account_id,
            |s: TaskStep| users_done(t, answers, s),
        ),
        CheckTask::IamUser(t) => follows_plan(
            r,
            answers,
            1,
            |k: int| keys_ok(answers, k),
            |k: int| keys_call(t, k),
            CheckKind::IamAccessKey,
            t.account_id,
            t.user_name,
            |s: TaskStep| keys_done(t, answers, s),
        ),
        CheckTask::AccessKey(t) => key_step_at(t, answers, now, r),
    }
}

pub open spec fn task_kind(t: CheckTask) -> CheckKind {
    match t {
        CheckTask::ClusterVersion(_) => CheckKind::ClusterVersion,
        CheckTask::NodeGroupListing(_) | CheckTask::NodeGroup(_) => CheckKind::NodeGroupAmi,
        CheckTask::AddonCluster(_) | CheckTask::Addon(_) => CheckKind::Addon,
        _ => CheckKind::IamAccessKey,
    }
}

pub open spec fn task_region(t: CheckTask) -> String {
    match t {
        CheckTask::ClusterVersion(c) => c.region,
        CheckTask::NodeGroupListing(c) => c.region,
        CheckTask::NodeGroup(c) => c.region,
        CheckTask::AddonCluster(c) => c.region,
        CheckTask::Addon(c) => c.region,
        CheckTask::IamAccount(c) => c.region,
        CheckTask::IamUser(c) => c.region,
        CheckTask::AccessKey(c) => c.region,
    }
}

pub open spec fn task_role_arn(t: CheckTask) -> Option<String> {
    match t {
        CheckTask::ClusterVersion(c) => c.role_arn,
        CheckTask::NodeGroupListing(c) => c.role_arn,
        CheckTask::NodeGroup(c) => c.role_arn,
        CheckTask::AddonCluster(c) => c.role_arn,
        CheckTask::Addon(c) => c.role_arn,
        CheckTask::IamAccount(c) => c.role_arn,
        CheckTask::IamUser(c) => c.role_arn,
        CheckTask::AccessKey(c) => c.role_arn,
    }
}

impl CheckTask {
    /// The next step of the task after `answers`, the replies to the calls
    /// it asked for so far, in order; `now` is the instant an access key's
    /// age is taken at.
    pub fn step(&self, answers: &Vec<ProbeReply>, now: Timestamp) -> (r: TaskStep)
        ensures
            steps_to(*self, answers@, now, r),
    {
        match self {
            CheckTask::ClusterVersion(t) => cluster_version_step(t, answers),
            CheckTask::NodeGroupListing(t) => node_group_listing_step(t, answers),
            CheckTask::NodeGroup(t) => node_group_step(t, answers),
            CheckTask::AddonCluster(t) => addon_cluster_step(t, answers),
            CheckTask::Addon(t) => addon_step(t, answers),
            CheckTask::IamAccount(t) => iam_account_step(t, answers),
            CheckTask::IamUser(t) => iam_user_step(t, answers),
            CheckTask::AccessKey(t) => access_key_step(t, answers, now),
        }
    }

    /// The check kind of the task.
    pub fn kind(&self) -> (r: CheckKind)
        ensures
            r == task_kind(*self),
    {
        match self {
            CheckTask::ClusterVersion(_) => CheckKind::ClusterVersion,
            CheckTask::NodeGroupListing(_) | CheckTask::NodeGroup(_) => CheckKind::NodeGroupAmi,
            CheckTask::AddonCluster(_) | CheckTask::Addon(_) => CheckKind::Addon,
            _ => CheckKind::IamAccessKey,
        }
    }

    /// The credentials request for the clients of the task: its own region and
    /// role.
    pub fn client_config(&self) -> (r: crate::session::Config)
        ensures
            r.region == task_region(*self),
            r.role_arn == task_role_arn(*self),
    {
        let (region, role_arn) = match self {
            CheckTask::ClusterVersion(c) => (&c.region, &c.role_arn),
            CheckTask::NodeGroupListing(c) => (&c.region, &c.role_arn),
            CheckTask::NodeGroup(c) => (&c.region, &c.role_arn),
            CheckTask::AddonCluster(c) => (&c.region, &c.role_arn),
            CheckTask::Addon(c) => (&c.region, &c.role_arn),
            CheckTask::IamAccount(c) => (&c.region, &c.role_arn),
            CheckTask::IamUser(c) => (&c.region, &c.role_arn),
            CheckTask::AccessKey(c) => (&c.region, &c.role_arn),
        };
        crate::session::Config::new(region.clone(), copy_string_option(role_arn))
    }
}

} // verus!
