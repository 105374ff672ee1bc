//! What a per-task cloud client is built from: a region, and the role to
//! assume, if any.
use vstd::prelude::*;

verus! {

/// The session name used whenever a role is assumed.
pub const SESSION_NAME: &'static str = "amanami-debug";

/// The region used when none is given.
pub const DEFAULT_REGION: &'static str = "us-east-1";

/// The credentials request of one task: built fresh for every task, never
/// shared between tasks.
#[derive(Debug, Clone)]
pub struct Config {
    pub region: String,
    pub role_arn: Option<String>,
}

impl Config {
    pub fn new(region: String, role_arn: Option<String>) -> (r: Self)
        ensures
            r.region == region,
            r.role_arn == role_arn,
    {
        Self { region, role_arn }
    }

    /// Whether the client must assume a role before it is used.
    pub fn assumes_role(&self) -> (r: bool)
        ensures
            r == (self.role_arn is Some),
    {
        self.role_arn.is_some()
    }
}

impl Default for Config {
    fn default() -> (r: Self)
        ensures
            r.region@ == DEFAULT_REGION@,
            r.role_arn is None,
    {
        Self { region: String::from_str(DEFAULT_REGION), role_arn: None }
    }
}

} // verus!
