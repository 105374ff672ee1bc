//! The accounts a run scans, and their expansion into check tasks.
use vstd::prelude::*;
use crate::task::{CheckKind, CheckTask, EksCluster, IamAccount, copy_string_option};

verus! {

/// The accounts of a run.
#[derive(Debug, Clone)]
pub struct Aws {
    pub aws_account: Vec<AwsAccount>,
}

/// One account: its id, the role to assume in it, and the resources to
/// check. A list of resources is present only when it is not empty.
#[derive(Debug, Clone)]
pub struct AwsAccount {
    pub account_id: String,
    pub role_arn: Option<String>,
    pub eks: Option<Vec<EksConfig>>,
    pub iam: Option<Vec<IamConfig>>,
}

/// An EKS cluster of an account.
#[derive(Debug, Clone)]
pub struct EksConfig {
    pub cluster_name: String,
    pub region: String,
}

/// A region whose IAM users are audited.
#[derive(Debug, Clone)]
pub struct IamConfig {
    pub region: String,
}

/// The clusters an optional list of the configuration names.
pub open spec fn config_clusters(o: Option<Vec<crate::config::EksConfig>>) -> Seq<crate::config::EksConfig> {
    match o {
        Some(v) => v@,
        None => Seq::empty(),
    }
}

/// The IAM regions an optional list of the configuration names.
pub open spec fn config_regions(o: Option<Vec<crate::config::IamConfig>>) -> Seq<crate::config::IamConfig> {
    match o {
        Some(v) => v@,
        None => Seq::empty(),
    }
}

pub open spec fn clusters_of(a: AwsAccount) -> Seq<EksConfig> {
    match a.eks {
        Some(v) => v@,
        None => Seq::empty(),
    }
}

pub open spec fn regions_of(a: AwsAccount) -> Seq<IamConfig> {
    match a.iam {
        Some(v) => v@,
        None => Seq::empty(),
    }
}

/// `a` is the account that configuration `c` describes.
pub open spec fn account_from(c: crate::config::AwsConfig, a: AwsAccount) -> bool {
    &&& a.account_id == c.account_id
    &&& a.role_arn == c.role_arn
    &&& (a.eks is Some <==> config_clusters(c.eks).len() > 0)
    &&& (a.iam is Some <==> config_regions(c.iam).len() > 0)
    &&& clusters_of(a).len() == config_clusters(c.eks).len()
    &&& forall|j: int|
        0 <= j < clusters_of(a).len() ==> (#[trigger] clusters_of(a)[j]).cluster_name
            == config_clusters(c.eks)[j].cluster_name && clusters_of(a)[j].region
            == config_clusters(c.eks)[j].region
    &&& regions_of(a).len() == config_regions(c.iam).len()
    &&& forall|j: int|
        0 <= j < regions_of(a).len() ==> (#[trigger] regions_of(a)[j]).region == config_regions(
            c.iam,
        )[j].region
}

/// The cluster task of each cluster of an account, in order.
pub open spec fn account_clusters(a: AwsAccount) -> Seq<EksCluster> {
    clusters_of(a).map_values(
        |e: EksConfig|
            EksCluster {
                account_id: a.account_id,
                cluster_name: e.cluster_name,
                region: e.region,
                role_arn: a.role_arn,
            },
    )
}

/// The clusters of all accounts: account order, then cluster order.
pub open spec fn all_clusters(s: Seq<AwsAccount>) -> Seq<EksCluster>
    decreases s.len(),
{
    if s.len() == 0 {
        Seq::empty()
    } else {
        all_clusters(s.drop_last()) + account_clusters(s.last())
    }
}

/// The IAM account task of each IAM region of an account, in order.
pub open spec fn account_regions(a: AwsAccount) -> Seq<IamAccount> {
    regions_of(a).map_values(
        |e: IamConfig| IamAccount { account_id: a.account_id, region: e.region, role_arn: a.role_arn },
    )
}

/// The IAM regions of all accounts: account order, then region order.
pub open spec fn all_regions(s: Seq<AwsAccount>) -> Seq<IamAccount>
    decreases s.len(),
{
    if s.len() == 0 {
        Seq::empty()
    } else {
        all_regions(s.drop_last()) + account_regions(s.last())
    }
}

/// The number of clusters that the accounts name together.
pub open spec fn cluster_count(s: Seq<AwsAccount>) -> int
    decreases s.len(),
{
    if s.len() == 0 {
        0
    } else {
        cluster_count(s.drop_last()) + clusters_of(s.last()).len()
    }
}

/// The task of check `kind` on cluster `c`.
pub open spec fn cluster_task(kind: CheckKind, c: EksCluster) -> CheckTask {
    match kind {
        CheckKind::ClusterVersion => CheckTask::ClusterVersion(c),
        CheckKind::NodeGroupAmi => CheckTask::NodeGroupListing(c),
        _ => CheckTask::AddonCluster(c),
    }
}

/// The tasks that check `kind` starts from on the accounts `s`.
pub open spec fn expansion(s: Seq<AwsAccount>, kind: CheckKind) -> Seq<CheckTask> {
    if kind == CheckKind::IamAccessKey {
        all_regions(s).map_values(|t: IamAccount| CheckTask::IamAccount(t))
    } else {
        all_clusters(s).map_values(|c: EksCluster| cluster_task(kind, c))
    }
}

fn copy_cluster_config(c: &crate::config::EksConfig) -> (r: EksConfig)
    ensures
        r.cluster_name == c.cluster_name,
        r.region == c.region,
{
    EksConfig { cluster_name: c.cluster_name.clone(), region: c.region.clone() }
}

fn account_of(c: &crate::config::AwsConfig) -> (r: AwsAccount)
    ensures
        account_from(*c, r),
{
    let mut eks: Vec<EksConfig> = Vec::new();
    if let Some(d) = &c.eks {
        let mut j: usize = 0;
        while j < d.len()
            invariant
                c.eks == Some(*d),
                j <= d@.len(),
                eks@.len() == j,
                forall|k: int|
                    0 <= k < j ==> (#[trigger] eks@[k]).cluster_name == d@[k].cluster_name
                        && eks@[k].region == d@[k].region,
            decreases d@.len() - j,
        {
            eks.push(copy_cluster_config(&d[j]));
            j = j + 1;
        }
    }
    let mut iam: Vec<IamConfig> = Vec::new();
    if let Some(d) = &c.iam {
        let mut j: usize = 0;
        while j < d.len()
            invariant
                c.iam == Some(*d),
                j <= d@.len(),
                iam@.len() == j,
                forall|k: int| 0 <= k < j ==> (#[trigger] iam@[k]).region == d@[k].region,
            decreases d@.len() - j,
        {
            iam.push(IamConfig { region: d[j].region.clone() });
            j = j + 1;
        }
    }
    let eks_data = if eks.len() == 0 {
        None
    } else {
        Some(eks)
    };
    let iam_data = if iam.len() == 0 {
        None
    } else {
        Some(iam)
    };
    AwsAccount {
        account_id: c.account_id.clone(),
        role_arn: copy_string_option(&c.role_arn),
        eks: eks_data,
        iam: iam_data,
    }
}

fn copy_account_cluster(a: &AwsAccount, e: &EksConfig) -> (r: EksCluster)
    ensures
        r == (EksCluster {
            account_id: a.account_id,
            cluster_name: e.cluster_name,
            region: e.region,
            role_arn: a.role_arn,
        }),
{
    EksCluster {
        account_id: a.account_id.clone(),
        cluster_name: e.cluster_name.clone(),
        region: e.region.clone(),
        role_arn: copy_string_option(&a.role_arn),
    }
}

impl Aws {
    /// The accounts that the configuration describes, in its order.
    pub fn new(config: Vec<crate::config::AwsConfig>) -> (r: Self)
        ensures
            r.aws_account@.len() == config@.len(),
            forall|i: int| 0 <= i < config@.len() ==> account_from(config@[i], #[trigger] r.aws_account@[i]),
    {
        let mut aws: Vec<AwsAccount> = Vec::new();
        let mut i: usize = 0;
        while i < config.len()
            invariant
                i <= config@.len(),
                aws@.len() == i,
                forall|k: int| 0 <= k < i ==> account_from(config@[k], #[trigger] aws@[k]),
            decreases config@.len() - i,
        {
            aws.push(account_of(&config[i]));
            i = i + 1;
        }
        Self { aws_account: aws }
    }

    /// The tasks that check `kind` starts from: for the EKS checks one per
    /// cluster of each account, for the IAM audit one per IAM region of each
    /// account; account order, then the order of the account's list.
    pub fn expand(&self, kind: CheckKind) -> (r: Vec<CheckTask>)
        ensures
            r@ == expansion(self.aws_account@, kind),
    {
        let accounts = &self.aws_account;
        let ghost s = accounts@;
        let mut out: Vec<CheckTask> = Vec::new();
        let mut i: usize = 0;
        while i < accounts.len()
            invariant
                s == accounts@,
                i <= s.len(),
                out@ == expansion(s.take(i as int), kind),
            decreases s.len() - i,
        {
            let a = &accounts[i];
            proof {
                assert(s.take(i + 1).drop_last() =~= s.take(i as int));
                assert(s.take(i + 1).last() == *a);
            }
            if kind == CheckKind::IamAccessKey {
                let ghost before = all_regions(s.take(i as int));
                if let Some(v) = &a.iam {
                    let mut j: usize = 0;
                    while j < v.len()
                        invariant
                            a.iam == Some(*v),
                            kind == CheckKind::IamAccessKey,
                            j <= v@.len(),
                            out@ == (before + account_regions(*a).take(j as int)).map_values(
                                |t: IamAccount| CheckTask::IamAccount(t),
                            ),
                        decreases v@.len() - j,
                    {
                        let t = IamAccount {
                            account_id: a.account_id.clone(),
                            region: v[j].region.clone(),
                            role_arn: copy_string_option(&a.role_arn),
                        };
                        proof {
                            assert(account_regions(*a).take(j + 1) =~= account_regions(*a).take(
                                j as int,
                            ).push(t));
                        }
                        out.push(CheckTask::IamAccount(t));
                        proof {
                            assert(out@ =~= (before + account_regions(*a).take(j + 1)).map_values(
                                |t: IamAccount| CheckTask::IamAccount(t),
                            ));
                        }
                        j = j + 1;
                    }
                    assert(account_regions(*a).take(v@.len() as int) =~= account_regions(*a));
                } else {
                    assert(before + account_regions(*a) =~= before);
                }
            } else {
                let ghost before = all_clusters(s.take(i as int));
                if let Some(v) = &a.eks {
                    let mut j: usize = 0;
                    while j < v.len()
                        invariant
                            a.eks == Some(*v),
                            kind != CheckKind::IamAccessKey,
                            j <= v@.len(),
                            out@ == (before + account_clusters(*a).take(j as int)).map_values(
                                |c: EksCluster| cluster_task(kind, c),
                            ),
                        decreases v@.len() - j,
                    {
                        let c = copy_account_cluster(a, &v[j]);
                        let t = match kind {
                            CheckKind::ClusterVersion => CheckTask::ClusterVersion(c),
                            CheckKind::NodeGroupAmi => CheckTask::NodeGroupListing(c),
                            _ => CheckTask::AddonCluster(c),
                        };
                        proof {
                            assert(account_clusters(*a).take(j + 1) =~= account_clusters(*a).take(
                                j as int,
                            ).push(c));
                        }
                        out.push(t);
                        proof {
                            assert(out@ =~= (before + account_clusters(*a).take(j + 1)).map_values(
                                |c: EksCluster| cluster_task(kind, c),
                            ));
                        }
                        j = j + 1;
                    }
                    assert(account_clusters(*a).take(v@.len() as int) =~= account_clusters(*a));
                } else {
                    assert(before + account_clusters(*a) =~= before);
                }
            }
            i = i + 1;
        }
        assert(s.take(s.len() as int) =~= s);
        out
    }
}

/// The cluster task of cluster `e` of account `a`.
pub open spec fn cluster_of(a: AwsAccount, e: EksConfig) -> EksCluster {
    EksCluster { account_id: a.account_id, cluster_name: e.cluster_name, region: e.region, role_arn: a.role_arn }
}

/// Cluster `e` of account `a` and cluster `f` of account `b` are one
/// (account, cluster, region) triple.
pub open spec fn same_cluster(a: AwsAccount, e: EksConfig, b: AwsAccount, f: EksConfig) -> bool {
    a.account_id == b.account_id && e.cluster_name == f.cluster_name && e.region == f.region
}

/// No (account, cluster, region) triple is named twice, within an account or
/// across accounts.
pub open spec fn distinct_clusters(s: Seq<AwsAccount>) -> bool {
    forall|i: int, p: int, j: int, q: int|
        0 <= i < s.len() && 0 <= j < s.len() && 0 <= p < clusters_of(s[i]).len() && 0 <= q
            < clusters_of(s[j]).len() && (i != j || p != q) ==> !#[trigger] same_cluster(
            s[i],
            clusters_of(s[i])[p],
            s[j],
            clusters_of(s[j])[q],
        )
}

proof fn lemma_cluster_origin(s: Seq<AwsAccount>, k: int)
    requires
        0 <= k < all_clusters(s).len(),
    ensures
        exists|i: int, p: int|
            0 <= i < s.len() && 0 <= p < clusters_of(s[i]).len() && all_clusters(s)[k]
                == #[trigger] cluster_of(s[i], clusters_of(s[i])[p]),
    decreases s.len(),
{
    let pre = s.drop_last();
    if k < all_clusters(pre).len() {
        lemma_cluster_origin(pre, k);
        let (i, p) = choose|i: int, p: int|
            0 <= i < pre.len() && 0 <= p < clusters_of(pre[i]).len() && all_clusters(pre)[k]
                == #[trigger] cluster_of(pre[i], clusters_of(pre[i])[p]);
        assert(s[i] == pre[i]);
        assert(all_clusters(s)[k] == cluster_of(s[i], clusters_of(s[i])[p]));
    } else {
        let i = s.len() - 1;
        let p = k - all_clusters(pre).len();
        assert(s[i] == s.last());
        assert(all_clusters(s)[k] == cluster_of(s[i], clusters_of(s[i])[p]));
    }
}

proof fn lemma_clusters_distinct(s: Seq<AwsAccount>)
    requires
        distinct_clusters(s),
    ensures
        all_clusters(s).no_duplicates(),
    decreases s.len(),
{
    if s.len() > 0 {
        let pre = s.drop_last();
        let a = s.last();
        let last = s.len() - 1;
        assert(s[last] == a);
        assert(distinct_clusters(pre)) by {
            assert forall|i: int, p: int, j: int, q: int|
                0 <= i < pre.len() && 0 <= j < pre.len() && 0 <= p < clusters_of(pre[i]).len() && 0 <= q
                    < clusters_of(pre[j]).len() && (i != j || p != q) implies !#[trigger] same_cluster(
                pre[i],
                clusters_of(pre[i])[p],
                pre[j],
                clusters_of(pre[j])[q],
            ) by {
                assert(pre[i] == s[i]);
                assert(pre[j] == s[j]);
                assert(!same_cluster(s[i], clusters_of(s[i])[p], s[j], clusters_of(s[j])[q]));
            }
        }
        lemma_clusters_distinct(pre);
        let x = all_clusters(pre);
        let y = account_clusters(a);
        let z = all_clusters(s);
        assert(z == x + y);
        assert forall|m: int, n: int| 0 <= m < n < z.len() implies z[m] != z[n] by {
            if n < x.len() {
            } else if m >= x.len() {
                let jm = m - x.len();
                let jn = n - x.len();
                assert(z[m] == cluster_of(s[last], clusters_of(s[last])[jm]));
                assert(z[n] == cluster_of(s[last], clusters_of(s[last])[jn]));
                assert(!same_cluster(s[last], clusters_of(s[last])[jm], s[last], clusters_of(s[last])[jn]));
            } else {
                lemma_cluster_origin(pre, m);
                let (i, p) = choose|i: int, p: int|
                    0 <= i < pre.len() && 0 <= p < clusters_of(pre[i]).len() && x[m]
                        == #[trigger] cluster_of(pre[i], clusters_of(pre[i])[p]);
                assert(s[i] == pre[i]);
                let jn = n - x.len();
                assert(z[n] == cluster_of(s[last], clusters_of(s[last])[jn]));
                assert(!same_cluster(s[i], clusters_of(s[i])[p], s[last], clusters_of(s[last])[jn]));
            }
        }
    }
}

/// Expanding a configuration for the cluster version check gives one task
/// per (account, cluster) pair: as many tasks as the accounts name clusters
/// together, and, where no (account, cluster, region) triple is named twice,
/// no task twice.
pub proof fn lemma_cluster_expansion(s: Seq<AwsAccount>)
    ensures
        expansion(s, CheckKind::ClusterVersion).len() == cluster_count(s),
        distinct_clusters(s) ==> expansion(s, CheckKind::ClusterVersion).no_duplicates(),
    decreases s.len(),
{
    if s.len() > 0 {
        lemma_cluster_expansion(s.drop_last());
    }
    if distinct_clusters(s) {
        lemma_clusters_distinct(s);
        let z = all_clusters(s);
        let e = expansion(s, CheckKind::ClusterVersion);
        assert forall|m: int, n: int| 0 <= m < n < e.len() implies e[m] != e[n] by {
            assert(e[m] == CheckTask::ClusterVersion(z[m]));
            assert(e[n] == CheckTask::ClusterVersion(z[n]));
        }
    }
}

} // verus!
