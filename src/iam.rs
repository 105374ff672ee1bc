//! The IAM access key audit.
use vstd::prelude::*;
use crate::errors::{ApplicationErrors, ErrorKind, kind_of};
use crate::eks::{list, text};
use crate::task::{
    AccessKeyTask, CheckKind, CheckTask, Failure, IamAccount, IamUser, ProbeCall, ProbeReply,
    ResultRow, TaskStep, copy_string_option, fail_at, follows_plan, lemma_plan_calls,
    lemma_plan_done, lemma_plan_fails_at,
};

verus! {

/// An access key as listed: its id, creation date (RFC 3339) and status.
#[derive(Debug, Clone)]
pub struct AccessKey {
    pub key_id: String,
    pub create_date: String,
    pub status: String,
}

/// A row of the access key table.
#[derive(Debug, Clone)]
pub struct AccessKeyRow {
    pub account_id: String,
    pub user_name: String,
    pub key_id: String,
    pub create_date: String,
    pub status: String,
    pub age_days: i64,
    pub last_used_days: i64,
    pub needs_rotation: bool,
    pub eligible_for_deletion: bool,
}

/// Days since creation after which a key should be rotated.
pub const ROTATION_DAYS: i64 = 60;

/// Days without use after which a key may be deleted.
pub const UNUSED_DAYS: i64 = 30;

/// What the service reports as the last use of a key never used.
pub const NEVER_USED: &'static str = "1970-01-01T00:00:00Z";

/// An instant: seconds since the Unix epoch and the nanoseconds past them.
#[derive(Debug, Clone, Copy, PartialEq, Eq, Structural)]
pub struct Timestamp {
    pub seconds: i64,
    pub nanos: u32,
}

/// The instant an RFC 3339 date stands for, if the text is one.
pub uninterp spec fn rfc3339_instant(s: Seq<char>) -> Option<Timestamp>;

/// The whole days from `earlier` to `later`, truncated toward zero; `None`
/// where either instant lies outside the range of dates that can be held.
pub uninterp spec fn whole_days_between(later: Timestamp, earlier: Timestamp) -> Option<int>;

/// Relies on chrono's `DateTime::parse_from_rfc3339`: the instant the text
/// stands for, as its `timestamp` and `timestamp_subsec_nanos` give it.
#[verifier::external_body]
fn parse_rfc3339(s: &str) -> (r: Option<Timestamp>)
    ensures
        r == rfc3339_instant(s@),
{
    chrono::DateTime::parse_from_rfc3339(s).ok().map(
        |d| Timestamp { seconds: d.timestamp(), nanos: d.timestamp_subsec_nanos() },
    )
}

/// Relies on chrono's `TimeDelta::num_days` of `signed_duration_since`
/// between the two instants, rebuilt with `DateTime::<Utc>::from_timestamp`,
/// which gives `None` for an instant out of its range.
#[verifier::external_body]
fn days_between(later: Timestamp, earlier: Timestamp) -> (r: Option<i64>)
    ensures
        r matches Some(d) ==> whole_days_between(later, earlier) == Some(d as int),
        r is None <==> whole_days_between(later, earlier) is None,
{
    let l = chrono::DateTime::<chrono::Utc>::from_timestamp(later.seconds, later.nanos)?;
    let e = chrono::DateTime::<chrono::Utc>::from_timestamp(earlier.seconds, earlier.nanos)?;
    Some(l.signed_duration_since(e).num_days())
}

/// The days since `now` that a key was last used, from what the service
/// reported: zero for a key never used.
pub open spec fn last_used_days_spec(now: Timestamp, last_used: Seq<char>) -> Option<int> {
    if last_used == NEVER_USED@ {
        Some(0)
    } else {
        match rfc3339_instant(last_used) {
            Some(t) => whole_days_between(now, t),
            None => None,
        }
    }
}

/// The days since a key was last used. `None` where the date cannot be read.
pub fn last_used_days(now: Timestamp, last_used: &String) -> (r: Option<i64>)
    ensures
        r matches Some(d) ==> last_used_days_spec(now, last_used@) == Some(d as int),
        r is None <==> last_used_days_spec(now, last_used@) is None,
        last_used@ == NEVER_USED@ ==> r == Some(0i64),
{
    if last_used.eq(&String::from_str(NEVER_USED)) {
        return Some(0);
    }
    match parse_rfc3339(last_used.as_str()) {
        None => None,
        Some(t) => days_between(now, t),
    }
}

/// The row of a key of the given age and last use: it needs rotation when
/// older than `ROTATION_DAYS` and may be deleted when unused for more than
/// `UNUSED_DAYS`.
pub fn access_key_row(task: &AccessKeyTask, age_days: i64, last_used_days: i64) -> (r: AccessKeyRow)
    ensures
        r.account_id == task.account_id,
        r.user_name == task.user_name,
        r.key_id == task.key.key_id,
        r.create_date == task.key.create_date,
        r.status == task.key.status,
        r.age_days == age_days,
        r.last_used_days == last_used_days,
        r.needs_rotation == (age_days > 60),
        r.eligible_for_deletion == (last_used_days > 30),
{
    AccessKeyRow {
        account_id: task.account_id.clone(),
        user_name: task.user_name.clone(),
        key_id: task.key.key_id.clone(),
        create_date: task.key.create_date.clone(),
        status: task.key.status.clone(),
        age_days,
        last_used_days,
        needs_rotation: age_days > ROTATION_DAYS,
        eligible_for_deletion: last_used_days > UNUSED_DAYS,
    }
}

// ---- users of an account ---------------------------------------------------

pub open spec fn users_ok(a: Seq<ProbeReply>, k: int) -> bool {
    a[0] is List
}

pub open spec fn users_call(k: int) -> ProbeCall {
    ProbeCall::ListUsers
}

pub open spec fn user_task_of(t: IamAccount, user: String) -> CheckTask {
    CheckTask::IamUser(
        IamUser { account_id: t.account_id, region: t.region, role_arn: t.role_arn, user_name: user },
    )
}

/// The end of a user listing: one task per user, in the order listed.
pub open spec fn users_done(t: IamAccount, a: Seq<ProbeReply>, s: TaskStep) -> bool {
    s matches TaskStep::Expand(tasks) && {
        &&& tasks@.len() == list(a, 0).len()
        &&& forall|i: int| 0 <= i < tasks@.len() ==> #[trigger] tasks@[i] == user_task_of(t, list(a, 0)[i])
    }
}

/// The next step of an account audit: its users, then one task per user.
pub fn iam_account_step(task: &IamAccount, answers: &Vec<ProbeReply>) -> (r: TaskStep)
    ensures
        follows_plan(
            r,
            answers@,
            1,
            |k: int| users_ok(answers@, k),
            |k: int| users_call(k),
            CheckKind::IamAccessKey,
            task.account_id,
            task.account_id,
            |s: TaskStep| users_done(*task, answers@, s),
        ),
{
    let kind = CheckKind::IamAccessKey;
    let ghost a = answers@;
    let ghost ok = |k: int| users_ok(a, k);
    let ghost call = |k: int| users_call(k);
    let ghost done = |s: TaskStep| users_done(*task, a, s);
    if answers.len() == 0 {
        let r = TaskStep::Call(ProbeCall::ListUsers);
        proof { lemma_plan_calls(r, a, 1, ok, call, kind, task.account_id, task.account_id, done); }
        return r;
    }
    let users = match &answers[0] {
        ProbeReply::List(v) => v,
        other => {
            let r = fail_at(kind, &task.account_id, &task.account_id, ProbeCall::ListUsers, other);
            proof { lemma_plan_fails_at(r, a, 1, ok, call, kind, task.account_id, task.account_id, done, 0); }
            return r;
        },
    };
    let mut tasks: Vec<CheckTask> = Vec::new();
    let mut i: usize = 0;
    while i < users.len()
        invariant
            i <= users@.len(),
            users@ == list(a, 0),
            tasks@.len() == i,
            forall|j: int| 0 <= j < i ==> #[trigger] tasks@[j] == user_task_of(*task, users@[j]),
        decreases users@.len() - i,
    {
        let t = IamUser {
            account_id: task.account_id.clone(),
            region: task.region.clone(),
            role_arn: copy_string_option(&task.role_arn),
            user_name: users[i].clone(),
        };
        tasks.push(CheckTask::IamUser(t));
        i = i + 1;
    }
    let r = TaskStep::Expand(tasks);
    proof { lemma_plan_done(r, a, 1, ok, call, kind, task.account_id, task.account_id, done); }
    r
}

// ---- keys of a user --------------------------------------------------------

pub open spec fn keys_ok(a: Seq<ProbeReply>, k: int) -> bool {
    a[0] is Keys
}

pub open spec fn keys_call(t: IamUser, k: int) -> ProbeCall {
    ProbeCall::ListAccessKeys { user: t.user_name }
}

pub open spec fn key_task_of(t: IamUser, key: AccessKey) -> CheckTask {
    CheckTask::AccessKey(
        AccessKeyTask {
            account_id: t.account_id,
            region: t.region,
            role_arn: t.role_arn,
            user_name: t.user_name,
            key,
        },
    )
}

/// The end of a key listing: one task per key, in the order listed; a user
/// with no keys hands on nothing.
pub open spec fn keys_done(t: IamUser, a: Seq<ProbeReply>, s: TaskStep) -> bool {
    s matches TaskStep::Expand(tasks) && {
        &&& tasks@.len() == a[0]->Keys_0@.len()
        &&& forall|i: int| 0 <= i < tasks@.len() ==> #[trigger] tasks@[i] == key_task_of(t, a[0]->Keys_0@[i])
    }
}

pub fn copy_access_key(k: &AccessKey) -> (r: AccessKey)
    ensures
        r == *k,
{
    AccessKey { key_id: k.key_id.clone(), create_date: k.create_date.clone(), status: k.status.clone() }
}

/// The next step of a user audit: the user's access keys, then one task per
/// key.
pub fn iam_user_step(task: &IamUser, answers: &Vec<ProbeReply>) -> (r: TaskStep)
    ensures
        follows_plan(
            r,
            answers@,
            1,
            |k: int| keys_ok(answers@, k),
            |k: int| keys_call(*task, k),
            CheckKind::IamAccessKey,
            task.account_id,
            task.user_name,
            |s: TaskStep| keys_done(*task, answers@, s),
        ),
{
    let kind = CheckKind::IamAccessKey;
    let ghost a = answers@;
    let ghost ok = |k: int| keys_ok(a, k);
    let ghost call = |k: int| keys_call(*task, k);
    let ghost done = |s: TaskStep| keys_done(*task, a, s);
    let c0 = ProbeCall::ListAccessKeys { user: task.user_name.clone() };
    if answers.len() == 0 {
        let r = TaskStep::Call(c0);
        proof { lemma_plan_calls(r, a, 1, ok, call, kind, task.account_id, task.user_name, done); }
        return r;
    }
    let keys = match &answers[0] {
        ProbeReply::Keys(v) => v,
        other => {
            let r = fail_at(kind, &task.account_id, &task.user_name, c0, other);
            proof { lemma_plan_fails_at(r, a, 1, ok, call, kind, task.account_id, task.user_name, done, 0); }
            return r;
        },
    };
    let mut tasks: Vec<CheckTask> = Vec::new();
    let mut i: usize = 0;
    while i < keys.len()
        invariant
            i <= keys@.len(),
            keys@ == a[0]->Keys_0@,
            tasks@.len() == i,
            forall|j: int| 0 <= j < i ==> #[trigger] tasks@[j] == key_task_of(*task, keys@[j]),
        decreases keys@.len() - i,
    {
        let t = AccessKeyTask {
            account_id: task.account_id.clone(),
            region: task.region.clone(),
            role_arn: copy_string_option(&task.role_arn),
            user_name: task.user_name.clone(),
            key: copy_access_key(&keys[i]),
        };
        tasks.push(CheckTask::AccessKey(t));
        i = i + 1;
    }
    let r = TaskStep::Expand(tasks);
    proof { lemma_plan_done(r, a, 1, ok, call, kind, task.account_id, task.user_name, done); }
    r
}

// ---- one access key --------------------------------------------------------

pub open spec fn key_ok(a: Seq<ProbeReply>, k: int) -> bool {
    a[0] is Text
}

pub open spec fn key_call(t: AccessKeyTask, k: int) -> ProbeCall {
    ProbeCall::AccessKeyLastUsed { key_id: t.key.key_id }
}

/// The age in days at instant `now` of a key, if its creation date can be
/// read and the day count exists.
pub open spec fn key_age_spec(t: AccessKeyTask, now: Timestamp) -> Option<int> {
    match rfc3339_instant(t.key.create_date@) {
        Some(c) => whole_days_between(now, c),
        None => None,
    }
}

/// The end of a key check at instant `now`: where both dates of the key can
/// be read, the row whose age is the whole days since the key's creation and
/// whose last use is as `last_used_days_spec` says; otherwise a response
/// error.
pub open spec fn key_done(t: AccessKeyTask, a: Seq<ProbeReply>, now: Timestamp, s: TaskStep) -> bool {
    let age = key_age_spec(t, now);
    let last_used = last_used_days_spec(now, text(a, 0)@);
    if age is Some && last_used is Some {
        s matches TaskStep::Row(ResultRow::AccessKey(row)) && {
            &&& row.account_id == t.account_id
            &&& row.user_name == t.user_name
            &&& row.key_id == t.key.key_id
            &&& row.create_date == t.key.create_date
            &&& row.status == t.key.status
            &&& age == Some(row.age_days as int)
            &&& last_used == Some(row.last_used_days as int)
            &&& row.needs_rotation == (row.age_days > 60)
            &&& row.eligible_for_deletion == (row.last_used_days > 30)
        }
    } else {
        s matches TaskStep::Fail(f) && {
            &&& f.kind == CheckKind::IamAccessKey
            &&& f.account_id == t.account_id
            &&& f.resource_name == t.key.key_id
            &&& f.step == key_call(t, 0)
            &&& kind_of(f.error) == ErrorKind::ResponseError
        }
    }
}

/// `r` is the next step of a key check at instant `now` after `answers`.
pub open spec fn key_step_at(task: AccessKeyTask, answers: Seq<ProbeReply>, now: Timestamp, r: TaskStep) -> bool {
    follows_plan(
        r,
        answers,
        1,
        |k: int| key_ok(answers, k),
        |k: int| key_call(task, k),
        CheckKind::IamAccessKey,
        task.account_id,
        task.key.key_id,
        |s: TaskStep| key_done(task, answers, now, s),
    )
}

/// The next step of a key check at instant `now`: when the key was last used,
/// then the row.
pub fn access_key_step(task: &AccessKeyTask, answers: &Vec<ProbeReply>, now: Timestamp) -> (r: TaskStep)
    ensures
        key_step_at(*task, answers@, now, r),
{
    let kind = CheckKind::IamAccessKey;
    let ghost a = answers@;
    let ghost ok = |k: int| key_ok(a, k);
    let ghost call = |k: int| key_call(*task, k);
    let ghost done = |s: TaskStep| key_done(*task, a, now, s);
    let c0 = ProbeCall::AccessKeyLastUsed { key_id: task.key.key_id.clone() };
    if answers.len() == 0 {
        let r = TaskStep::Call(c0);
        proof { lemma_plan_calls(r, a, 1, ok, call, kind, task.account_id, task.key.key_id, done); }
        return r;
    }
    let last_used = match &answers[0] {
        ProbeReply::Text(v) => v,
        other => {
            let r = fail_at(kind, &task.account_id, &task.key.key_id, c0, other);
            proof { lemma_plan_fails_at(r, a, 1, ok, call, kind, task.account_id, task.key.key_id, done, 0); }
            return r;
        },
    };
    let age = match parse_rfc3339(task.key.create_date.as_str()) {
        Some(created) => days_between(now, created),
        None => None,
    };
    let unused = last_used_days(now, last_used);
    let r = match (age, unused) {
        (Some(age_days), Some(unused_days)) => TaskStep::Row(
            ResultRow::AccessKey(access_key_row(task, age_days, unused_days)),
        ),
        _ => TaskStep::Fail(
            Failure {
                kind,
                account_id: task.account_id.clone(),
                resource_name: task.key.key_id.clone(),
                step: c0,
                error: ApplicationErrors::malformed_response("a date of the access key cannot be read"),
            },
        ),
    };
    proof { lemma_plan_done(r, a, 1, ok, call, kind, task.account_id, task.key.key_id, done); }
    r
}

/// Every row an access key check produces flags rotation exactly when the key
/// is older than sixty days and deletion exactly when it has gone unused for
/// more than thirty; a key reported as never used has gone unused for zero
/// days.
pub proof fn lemma_access_key_row_flags(
    task: AccessKeyTask,
    answers: Seq<ProbeReply>,
    now: Timestamp,
    r: TaskStep,
)
    requires
        crate::task::steps_to(CheckTask::AccessKey(task), answers, now, r),
        r matches TaskStep::Row(ResultRow::AccessKey(_)),
    ensures
        r->Row_0->AccessKey_0.needs_rotation == (r->Row_0->AccessKey_0.age_days > 60),
        r->Row_0->AccessKey_0.eligible_for_deletion == (r->Row_0->AccessKey_0.last_used_days > 30),
        (answers[0] matches ProbeReply::Text(t) && t@ == NEVER_USED@) ==> r->Row_0->AccessKey_0.last_used_days == 0,
{
    let ok = |k: int| key_ok(answers, k);
    let call = |k: int| key_call(task, k);
    assert(ok(0) == key_ok(answers, 0));
    assert(call(0) == key_call(task, 0));
    if answers.len() >= 1 && ok(0) {
    } else if answers.len() == 0 {
    } else {
    }
}

} // verus!
