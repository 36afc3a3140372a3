//! Error taxonomy of the reconciliation core.

use vstd::prelude::*;

verus! {

/// Errors the core itself raises. Transport and semantic errors of the two
/// external services are reported by the surrounding program; these are the
/// kinds the decision logic distinguishes.
#[derive(Clone, Copy, Debug, PartialEq, Eq, Structural)]
pub enum Error {
    /// Raised by the batch driver iff at least one rule failed.
    RuleExecutionFailed,
    /// A rollout entry names a workload kind other than Deployment,
    /// DaemonSet or StatefulSet: a user misconfiguration, fatal for the rule.
    UnsupportedRolloutKind,
    /// A template of the rule could not be rendered over the lease data
    /// (undefined variable or malformed template).
    TemplateRenderFailed,
    /// The Vault base address is missing from the configuration.
    ConfigMissingVaultAddr,
    /// No static Vault token is configured and the in-cluster login path or
    /// role is missing.
    ConfigMissingKubernetesAuth,
}

impl Error {
    /// A short stable description of the error, for logs.
    pub fn message(&self) -> (r: &'static str)
        ensures
            r@ == self.spec_message(),
    {
        match self {
            Error::RuleExecutionFailed => "some rules failed to run",
            Error::UnsupportedRolloutKind => "unsupported kind for rollout",
            Error::TemplateRenderFailed => "failed to render a template over the lease data",
            Error::ConfigMissingVaultAddr => "VAULT_ADDR must be present",
            Error::ConfigMissingKubernetesAuth => "VAULT_K8S_PATH, VAULT_K8S_ROLE must be present when no VAULT_TOKEN is present",
        }
    }

    /// What `message` returns, as a sequence of characters.
    pub open spec fn spec_message(&self) -> Seq<char> {
        match self {
            Error::RuleExecutionFailed => "some rules failed to run"@,
            Error::UnsupportedRolloutKind => "unsupported kind for rollout"@,
            Error::TemplateRenderFailed => "failed to render a template over the lease data"@,
            Error::ConfigMissingVaultAddr => "VAULT_ADDR must be present"@,
            Error::ConfigMissingKubernetesAuth => "VAULT_K8S_PATH, VAULT_K8S_ROLE must be present when no VAULT_TOKEN is present"@,
        }
    }
}

} // verus!
