use amanami::iam::{access_key_row, access_key_step, last_used_days, AccessKey, Timestamp};
use amanami::errors::ErrorKind;
use amanami::task::{AccessKeyTask, ProbeCall, ProbeReply, ResultRow, TaskStep};

const JAN_1_2024: i64 = 1_704_067_200;
const DAY: i64 = 86_400;

fn key_task(create_date: &str) -> AccessKeyTask {
    AccessKeyTask {
        account_id: "111".to_string(),
        region: "us-east-1".to_string(),
        role_arn: None,
        user_name: "alice".to_string(),
        key: AccessKey { key_id: "AKIA1".to_string(), create_date: create_date.to_string(), status: "Active".to_string() },
    }
}

fn at(seconds: i64) -> Timestamp {
    Timestamp { seconds, nanos: 0 }
}

#[test]
fn rotation_and_deletion_thresholds() {
    let t = key_task("2024-01-01T00:00:00Z");
    let r = access_key_row(&t, 61, 31);
    assert!(r.needs_rotation);
    assert!(r.eligible_for_deletion);
    let r = access_key_row(&t, 60, 30);
    assert!(!r.needs_rotation);
    assert!(!r.eligible_for_deletion);
    assert_eq!(r.age_days, 60);
    assert_eq!(r.last_used_days, 30);
    assert_eq!(r.key_id, "AKIA1");
    assert_eq!(r.status, "Active");
}

#[test]
fn never_used_key_has_zero_days() {
    let now = at(JAN_1_2024 + 100 * DAY);
    assert_eq!(last_used_days(now, &"1970-01-01T00:00:00Z".to_string()), Some(0));
    assert_eq!(last_used_days(now, &"2024-01-01T00:00:00Z".to_string()), Some(100));
    assert_eq!(last_used_days(now, &"2024-01-01T12:00:00Z".to_string()), Some(99));
    assert_eq!(last_used_days(now, &"not a date".to_string()), None);
}

#[test]
fn key_check_at_fixed_instant() {
    let t = key_task("2024-01-01T00:00:00Z");
    let now = at(JAN_1_2024 + 61 * DAY);
    match access_key_step(&t, &Vec::new(), now) {
        TaskStep::Call(c) => assert_eq!(c, ProbeCall::AccessKeyLastUsed { key_id: "AKIA1".to_string() }),
        other => panic!("unexpected step {:?}", other),
    }
    let answers = vec![ProbeReply::Text("2024-01-31T00:00:00Z".to_string())];
    match access_key_step(&t, &answers, now) {
        TaskStep::Row(ResultRow::AccessKey(r)) => {
            assert_eq!(r.age_days, 61);
            assert_eq!(r.last_used_days, 31);
            assert!(r.needs_rotation);
            assert!(r.eligible_for_deletion);
            assert_eq!(r.create_date, "2024-01-01T00:00:00Z");
        }
        other => panic!("unexpected step {:?}", other),
    }
    let answers = vec![ProbeReply::Text("1970-01-01T00:00:00Z".to_string())];
    match access_key_step(&t, &answers, at(JAN_1_2024 + 60 * DAY)) {
        TaskStep::Row(ResultRow::AccessKey(r)) => {
            assert_eq!(r.age_days, 60);
            assert_eq!(r.last_used_days, 0);
            assert!(!r.needs_rotation);
            assert!(!r.eligible_for_deletion);
        }
        other => panic!("unexpected step {:?}", other),
    }
}

#[test]
fn partial_days_are_truncated() {
    let t = key_task("2024-01-01T00:00:00+00:00");
    let answers = vec![ProbeReply::Text("1970-01-01T00:00:00Z".to_string())];
    let now = Timestamp { seconds: JAN_1_2024 + 61 * DAY - 1, nanos: 999_999_999 };
    match access_key_step(&t, &answers, now) {
        TaskStep::Row(ResultRow::AccessKey(r)) => {
            assert_eq!(r.age_days, 60);
            assert!(!r.needs_rotation);
        }
        other => panic!("unexpected step {:?}", other),
    }
}

#[test]
fn unreadable_creation_date_is_a_response_error() {
    let t = key_task("yesterday");
    let answers = vec![ProbeReply::Text("1970-01-01T00:00:00Z".to_string())];
    match access_key_step(&t, &answers, at(JAN_1_2024)) {
        TaskStep::Fail(f) => {
            assert_eq!(f.cause(), ErrorKind::ResponseError);
            assert_eq!(f.resource_name, "AKIA1");
        }
        other => panic!("unexpected step {:?}", other),
    }
}

#[test]
fn unreadable_last_use_is_a_response_error() {
    let t = key_task("2024-01-01T00:00:00Z");
    let answers = vec![ProbeReply::Text("sometime".to_string())];
    match access_key_step(&t, &answers, at(JAN_1_2024)) {
        TaskStep::Fail(f) => assert_eq!(f.cause(), ErrorKind::ResponseError),
        other => panic!("unexpected step {:?}", other),
    }
}

#[test]
fn out_of_range_instant_has_no_day_count() {
    let now = Timestamp { seconds: i64::MAX, nanos: 0 };
    assert_eq!(last_used_days(now, &"2024-01-01T00:00:00Z".to_string()), None);
}
