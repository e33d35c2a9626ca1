use vstd::prelude::*;

verus! {

/// The two persisted settings the workflow engine knows about.
///
/// Config keys are a closed set: the repository path and the branch name.
/// Completeness of the configuration is always derived from these two values
/// and never stored on its own.
#[derive(Clone, Copy, Debug, PartialEq, Eq, Structural)]
pub enum ConfigFile {
    Repo,
    Branch,
}

/// Reported by an external capability (config storage, program launching)
/// when one of its operations fails. The engine never inspects the failure
/// beyond noting that it happened, so the value carries no payload.
#[derive(Clone, Copy, Debug, PartialEq, Eq, Structural)]
pub struct CapabilityError;

/// Conditions that must stop the run loudly: once idea capture has begun,
/// a failed editor session or a failed git synchronization step leaves state
/// that is safer inspected by hand than patched up automatically.
#[derive(Clone, Copy, Debug, PartialEq, Eq, Structural)]
pub enum FatalError {
    EditorFailed,
    CheckoutFailed,
    StageFailed,
    CommitFailed,
    PushFailed,
}

/// The two error tiers of the engine.
///
/// `Recoverable` covers expected, environment-caused failures (nothing
/// configured yet, a config write refused): the caller reports them and exits
/// non-zero. `Fatal` covers failures during idea capture that the caller must
/// escalate to an abnormal termination rather than continue from.
#[derive(Clone, Copy, Debug, PartialEq, Eq, Structural)]
pub enum EurekaError {
    Recoverable,
    Fatal(FatalError),
}

} // verus!
