//! Version checks of Grafana instances: which health endpoints to ask, what
//! version a health report gives, and which release heads a changelog.
use vstd::prelude::*;
use crate::config::GrafanaConfig;

verus! {

/// The path of an instance's health endpoint.
pub const GRAFANA_API_PATH: &'static str = "/api/health";

/// Where the released versions are listed.
pub const GRAFANA_CHANGELOG_URL: &'static str =
    "https://raw.githubusercontent.com/grafana/grafana/main/CHANGELOG.md";

/// A semantic version, or the heading of the unreleased changes.
pub const RELEASE_PATTERN: &'static str =
    r"^(0|[1-9][0-9]*)\.(0|[1-9][0-9]*)\.(0|[1-9][0-9]*)(-[0-9A-Za-z\.-]+)?(\+[0-9A-Za-z\.-]+)?$|^Unreleased$";

/// The instances to check.
#[derive(Debug, Clone)]
pub struct Grafana {
    pub instances: Vec<GrafanaInstance>,
}

/// One instance: its name and base URL.
#[derive(Debug, Clone)]
pub struct GrafanaInstance {
    pub name: String,
    pub url: String,
}

/// The text of member `key` of the JSON object `body`, as JSON.
pub uninterp spec fn json_member_text(body: Seq<char>, key: Seq<char>) -> Option<Seq<char>>;

/// The first match of regular expression `pattern` in `text`.
pub uninterp spec fn regex_first_match(pattern: Seq<char>, text: Seq<char>) -> Option<Seq<char>>;

/// Relies on serde_json's `from_str` into a `Value`, `Value::get` and the
/// `Display` of `Value`: the member `key` of the object `body`, printed as
/// JSON; `None` where `body` is no JSON or has no such member.
#[verifier::external_body]
fn json_member(body: &str, key: &str) -> (r: Option<String>)
    ensures
        r matches Some(t) ==> json_member_text(body@, key@) == Some(t@),
        r is None ==> json_member_text(body@, key@) is None,
{
    let value = serde_json::from_str::<serde_json::Value>(body).ok()?;
    value.get(key).map(|v| v.to_string())
}

/// Relies on regex's `Regex::new` and `Regex::find`: the first match of
/// `pattern` in `text`; `None` where there is none or the pattern does not
/// compile.
#[verifier::external_body]
fn first_match(pattern: &str, text: &str) -> (r: Option<String>)
    ensures
        r matches Some(t) ==> regex_first_match(pattern@, text@) == Some(t@),
        r is None ==> regex_first_match(pattern@, text@) is None,
{
    let re = regex::Regex::new(pattern).ok()?;
    re.find(text).map(|m| m.as_str().to_string())
}

impl GrafanaInstance {
    /// The URL of this instance's health endpoint.
    pub fn health_url(&self) -> (r: String)
        ensures
            r@ == self.url@ + GRAFANA_API_PATH@,
    {
        let mut s = self.url.clone();
        s.append(GRAFANA_API_PATH);
        s
    }
}

impl Grafana {
    /// The instances that the configuration names, in its order.
    pub fn new(config: Vec<GrafanaConfig>) -> (r: Self)
        ensures
            r.instances@.len() == config@.len(),
            forall|i: int|
                0 <= i < config@.len() ==> (#[trigger] r.instances@[i]).name == config@[i].name
                    && r.instances@[i].url == config@[i].url,
    {
        let mut grafana: Vec<GrafanaInstance> = Vec::new();
        let mut i: usize = 0;
        while i < config.len()
            invariant
                i <= config@.len(),
                grafana@.len() == i,
                forall|j: int|
                    0 <= j < i ==> (#[trigger] grafana@[j]).name == config@[j].name
                        && grafana@[j].url == config@[j].url,
            decreases config@.len() - i,
        {
            grafana.push(
                GrafanaInstance { name: config[i].name.clone(), url: config[i].url.clone() },
            );
            i = i + 1;
        }
        Self { instances: grafana }
    }

    /// The health endpoints to ask for the running versions, one per
    /// instance, in order.
    pub fn get_grafana_update(&self) -> (r: Vec<String>)
        ensures
            r@.len() == self.instances@.len(),
            forall|i: int|
                0 <= i < r@.len() ==> (#[trigger] r@[i])@ == self.instances@[i].url@ + GRAFANA_API_PATH@,
    {
        let mut out: Vec<String> = Vec::new();
        let mut i: usize = 0;
        while i < self.instances.len()
            invariant
                i <= self.instances@.len(),
                out@.len() == i,
                forall|j: int|
                    0 <= j < i ==> (#[trigger] out@[j])@ == self.instances@[j].url@ + GRAFANA_API_PATH@,
            decreases self.instances@.len() - i,
        {
            out.push(self.instances[i].health_url());
            i = i + 1;
        }
        out
    }
}

/// The running version a health report gives: its `version` member, as JSON.
pub fn grafana_version(body: &str) -> (r: Option<String>)
    ensures
        r matches Some(t) ==> json_member_text(body@, "version"@) == Some(t@),
        r is None ==> json_member_text(body@, "version"@) is None,
{
    json_member(body, "version")
}

/// The first release heading of a changelog: a semantic version, or the
/// heading of the unreleased changes.
pub fn latest_grafana_version(changelog: &str) -> (r: Option<String>)
    ensures
        r matches Some(t) ==> regex_first_match(RELEASE_PATTERN@, changelog@) == Some(t@),
        r is None ==> regex_first_match(RELEASE_PATTERN@, changelog@) is None,
{
    first_match(RELEASE_PATTERN, changelog)
}

} // verus!
