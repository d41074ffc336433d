//! Errors of the workspace convergence owner and the mapping of the storage
//! and space-transition failures onto them.
use vstd::prelude::*;

verus! {

/// Failure of a workspace convergence operation.
#[derive(Debug, Clone, PartialEq, Eq)]
pub enum WorkspaceConvergenceError {
    /// Saved state or an incoming message contradicts the admission protocol.
    Inconsistent(String),
    /// The admission store could not read or write a record.
    AdmissionStorage(String),
    /// Another admission step owns the record right now.
    AdmissionInProgress,
    /// A collaborator is temporarily unavailable.
    Unavailable,
    /// The saved state needs an explicit recovery before it can continue.
    RecoveryRequired,
    /// The current local join is too far along to be replaced.
    PreviousJoinCannotBeSuperseded,
    /// Joining would drop history that cannot be read without confirmation.
    UnreadableHistoryRequiresConfirmation,
    /// No local join with the given identity exists.
    JoinNotFound,
    /// A received confirmation does not bind the expected values.
    InvalidConfirmation,
    /// The joining device already belongs to the workspace.
    AdmissionConflict,
    /// The local member instance was removed from the workspace.
    OwnInstanceRemoved,
    /// The joiner's activation receipt does not verify against the committed
    /// membership history.
    InvalidHandoff,
}

/// Failure reported by the admission attempt store.
#[derive(Debug, Clone, Copy, PartialEq, Eq)]
pub enum AdmissionAttemptRepositoryError {
    AlreadyExists,
    VersionConflict,
    PreviousJoinCannotBeSuperseded,
    NotFound,
    Storage,
}

/// Failure reported by the space transition collaborator.
#[derive(Debug, Clone, Copy, PartialEq, Eq)]
pub enum AdmissionSpaceTransitionError {
    Locked,
    Storage,
    Unavailable,
    RecoveryRequired,
    Inconsistent,
    UnreadableHistoryRequiresConfirmation,
}

/// The protocol-violation error carrying `message`.
pub fn inconsistent(message: &str) -> (error: WorkspaceConvergenceError)
    ensures
        error matches WorkspaceConvergenceError::Inconsistent(text) && text@ == message@,
{
    WorkspaceConvergenceError::Inconsistent(message.to_owned())
}

/// The storage error carrying `message`.
pub fn admission_storage(message: &str) -> (error: WorkspaceConvergenceError)
    ensures
        error matches WorkspaceConvergenceError::AdmissionStorage(text) && text@ == message@,
{
    WorkspaceConvergenceError::AdmissionStorage(message.to_owned())
}

/// Maps a store failure: a version conflict means another step owns the
/// record, a refused supersede keeps its own meaning, every other failure is
/// a storage error.
pub fn map_repository_error(error: AdmissionAttemptRepositoryError) -> (mapped:
    WorkspaceConvergenceError)
    ensures
        error == AdmissionAttemptRepositoryError::VersionConflict ==> mapped
            == WorkspaceConvergenceError::AdmissionInProgress,
        error == AdmissionAttemptRepositoryError::PreviousJoinCannotBeSuperseded ==> mapped
            == WorkspaceConvergenceError::PreviousJoinCannotBeSuperseded,
        error != AdmissionAttemptRepositoryError::VersionConflict && error
            != AdmissionAttemptRepositoryError::PreviousJoinCannotBeSuperseded ==> mapped
            is AdmissionStorage,
{
    match error {
        AdmissionAttemptRepositoryError::VersionConflict => {
            WorkspaceConvergenceError::AdmissionInProgress
        },
        AdmissionAttemptRepositoryError::PreviousJoinCannotBeSuperseded => {
            WorkspaceConvergenceError::PreviousJoinCannotBeSuperseded
        },
        AdmissionAttemptRepositoryError::AlreadyExists => admission_storage(
            "admission attempt already exists",
        ),
        AdmissionAttemptRepositoryError::NotFound => admission_storage(
            "admission attempt was not found",
        ),
        AdmissionAttemptRepositoryError::Storage => admission_storage("admission storage failed"),
    }
}

/// Maps a failure to advance the join projection floor: a version conflict
/// means some admission write is still in flight, so the projection cannot
/// be reset now; every other failure maps as any store failure.
pub fn map_projection_floor_error(error: AdmissionAttemptRepositoryError) -> (mapped: WorkspaceConvergenceError)
    ensures
        error == AdmissionAttemptRepositoryError::VersionConflict ==> mapped == WorkspaceConvergenceError::Unavailable,
        error == AdmissionAttemptRepositoryError::PreviousJoinCannotBeSuperseded ==> mapped
            == WorkspaceConvergenceError::PreviousJoinCannotBeSuperseded,
        error != AdmissionAttemptRepositoryError::VersionConflict && error
            != AdmissionAttemptRepositoryError::PreviousJoinCannotBeSuperseded ==> mapped is AdmissionStorage,
{
    match error {
        AdmissionAttemptRepositoryError::VersionConflict => WorkspaceConvergenceError::Unavailable,
        other => map_repository_error(other),
    }
}

/// Maps a space transition failure onto the convergence error that callers
/// see.
pub fn map_space_transition_error(error: AdmissionSpaceTransitionError) -> (mapped:
    WorkspaceConvergenceError)
    ensures
        (error == AdmissionSpaceTransitionError::Locked || error
            == AdmissionSpaceTransitionError::Storage) ==> mapped is AdmissionStorage,
        error == AdmissionSpaceTransitionError::Unavailable ==> mapped
            == WorkspaceConvergenceError::Unavailable,
        error == AdmissionSpaceTransitionError::RecoveryRequired ==> mapped
            == WorkspaceConvergenceError::RecoveryRequired,
        error == AdmissionSpaceTransitionError::Inconsistent ==> mapped is Inconsistent,
        error == AdmissionSpaceTransitionError::UnreadableHistoryRequiresConfirmation ==> mapped
            == WorkspaceConvergenceError::UnreadableHistoryRequiresConfirmation,
{
    match error {
        AdmissionSpaceTransitionError::Locked => admission_storage("space transition is locked"),
        AdmissionSpaceTransitionError::Storage => admission_storage(
            "space transition storage failed",
        ),
        AdmissionSpaceTransitionError::Unavailable => WorkspaceConvergenceError::Unavailable,
        AdmissionSpaceTransitionError::RecoveryRequired => {
            WorkspaceConvergenceError::RecoveryRequired
        },
        AdmissionSpaceTransitionError::Inconsistent => inconsistent(
            "space transition is inconsistent",
        ),
        AdmissionSpaceTransitionError::UnreadableHistoryRequiresConfirmation => {
            WorkspaceConvergenceError::UnreadableHistoryRequiresConfirmation
        },
    }
}

} // verus!
