//! The subcommands of the command line and the checks each runs.
use vstd::prelude::*;
use crate::task::CheckKind;

verus! {

/// What a run checks.
#[derive(Debug, Clone, Copy, PartialEq, Eq, Structural)]
pub enum SubCommands {
    /// The EKS clusters, their node groups and their add-ons.
    Eks,
    /// The access keys of the IAM users.
    Iam,
}

impl SubCommands {
    /// The checks a subcommand runs, in the order their tables are shown.
    pub fn check_kinds(&self) -> (r: Vec<CheckKind>)
        ensures
            *self == SubCommands::Eks ==> r@ == seq![
                CheckKind::ClusterVersion,
                CheckKind::NodeGroupAmi,
                CheckKind::Addon,
            ],
            *self == SubCommands::Iam ==> r@ == seq![CheckKind::IamAccessKey],
    {
        match self {
            SubCommands::Eks => vec![CheckKind::ClusterVersion, CheckKind::NodeGroupAmi, CheckKind::Addon],
            SubCommands::Iam => vec![CheckKind::IamAccessKey],
        }
    }
}

} // verus!
