use amanami::version::{latest_version, version_lt};

fn strings(v: &[&str]) -> Vec<String> {
    v.iter().map(|s| s.to_string()).collect()
}

#[test]
fn latest_of_compatibility_records() {
    let mut all = Vec::new();
    for record in [vec!["1.27", "1.28"], vec!["1.28", "1.29"], vec!["1.26"]] {
        all.extend(strings(&record));
    }
    assert_eq!(latest_version(&all), Some("1.29".to_string()));
}

#[test]
fn latest_of_empty_list_is_none() {
    assert_eq!(latest_version(&Vec::new()), None);
}

#[test]
fn latest_of_duplicates_and_single() {
    assert_eq!(latest_version(&strings(&["1.28", "1.28"])), Some("1.28".to_string()));
    assert_eq!(latest_version(&strings(&["v1.2.0-eksbuild.1"])), Some("v1.2.0-eksbuild.1".to_string()));
}

#[test]
fn latest_follows_string_order() {
    // strings order character by character, as a sort of the list would
    assert_eq!(latest_version(&strings(&["1.9", "1.10"])), Some("1.9".to_string()));
    assert_eq!(
        latest_version(&strings(&["v1.29.0-eksbuild.1", "v1.29.0-eksbuild.3", "v1.28.1-eksbuild.2"])),
        Some("v1.29.0-eksbuild.3".to_string())
    );
}

#[test]
fn version_order_cases() {
    let s = |x: &str| x.to_string();
    assert!(version_lt(&s("1.27"), &s("1.28")));
    assert!(!version_lt(&s("1.28"), &s("1.27")));
    assert!(!version_lt(&s("1.28"), &s("1.28")));
    assert!(version_lt(&s("1.2"), &s("1.28")));
    assert!(version_lt(&s(""), &s("1")));
    assert!(!version_lt(&s(""), &s("")));
    assert_eq!(version_lt(&s("1.10"), &s("1.9")), s("1.10") < s("1.9"));
}
