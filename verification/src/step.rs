//! The outcome of one admission transition: the record to save, if any, the
//! membership history to swap with it, and the value handed back.
use vstd::prelude::*;
use crate::attempt::{AdmissionAttempt, AttemptView};
use crate::bytes::opt_bytes_view;
use crate::error::WorkspaceConvergenceError;

verus! {

/// The kind of a convergence error, without its diagnostic text.
pub enum ErrorKind {
    Inconsistent,
    AdmissionStorage,
    AdmissionInProgress,
    Unavailable,
    RecoveryRequired,
    PreviousJoinCannotBeSuperseded,
    UnreadableHistoryRequiresConfirmation,
    JoinNotFound,
    InvalidConfirmation,
    AdmissionConflict,
    OwnInstanceRemoved,
    InvalidHandoff,
}

/// The kind of `error`.
pub open spec fn kind_of(error: WorkspaceConvergenceError) -> ErrorKind {
    match error {
        WorkspaceConvergenceError::Inconsistent(_) => ErrorKind::Inconsistent,
        WorkspaceConvergenceError::AdmissionStorage(_) => ErrorKind::AdmissionStorage,
        WorkspaceConvergenceError::AdmissionInProgress => ErrorKind::AdmissionInProgress,
        WorkspaceConvergenceError::Unavailable => ErrorKind::Unavailable,
        WorkspaceConvergenceError::RecoveryRequired => ErrorKind::RecoveryRequired,
        WorkspaceConvergenceError::PreviousJoinCannotBeSuperseded => {
            ErrorKind::PreviousJoinCannotBeSuperseded
        },
        WorkspaceConvergenceError::UnreadableHistoryRequiresConfirmation => {
            ErrorKind::UnreadableHistoryRequiresConfirmation
        },
        WorkspaceConvergenceError::JoinNotFound => ErrorKind::JoinNotFound,
        WorkspaceConvergenceError::InvalidConfirmation => ErrorKind::InvalidConfirmation,
        WorkspaceConvergenceError::AdmissionConflict => ErrorKind::AdmissionConflict,
        WorkspaceConvergenceError::OwnInstanceRemoved => ErrorKind::OwnInstanceRemoved,
        WorkspaceConvergenceError::InvalidHandoff => ErrorKind::InvalidHandoff,
    }
}

/// The membership history that must be swapped atomically with the record:
/// the history expected in the store, and the history that replaces it.
#[derive(Debug, Clone)]
pub struct HistoryUpdate {
    pub expected: Option<Vec<u8>>,
    pub history: Vec<u8>,
}

/// The mathematical value of a history swap.
pub struct HistoryView {
    pub expected: Option<Seq<u8>>,
    pub history: Seq<u8>,
}

impl View for HistoryUpdate {
    type V = HistoryView;

    open spec fn view(&self) -> HistoryView {
        HistoryView { expected: opt_bytes_view(&self.expected), history: self.history@ }
    }
}

/// What a transition decided. `save` is the record to store: a new record
/// when `create` is set, otherwise a compare-and-advance of the record whose
/// version is one less than the saved one.
#[derive(Debug)]
pub struct Step<T> {
    pub save: Option<AdmissionAttempt>,
    pub create: bool,
    pub history: Option<HistoryUpdate>,
    pub output: T,
}

/// The mathematical value of a transition outcome.
pub struct StepView<V> {
    pub save: Option<AttemptView>,
    pub create: bool,
    pub history: Option<HistoryView>,
    pub output: V,
}

impl<T: View> View for Step<T> {
    type V = StepView<T::V>;

    open spec fn view(&self) -> StepView<T::V> {
        StepView {
            save: match &self.save {
                Some(a) => Some(a@),
                None => None,
            },
            create: self.create,
            history: match &self.history {
                Some(h) => Some(h@),
                None => None,
            },
            output: self.output@,
        }
    }
}

/// A transition that saves nothing and hands back `output`.
pub open spec fn answer<V>(output: V) -> StepView<V> {
    StepView { save: None, create: false, history: None, output }
}

/// A transition that advances the record to `next`.
pub open spec fn advance_to<V>(next: AttemptView, output: V) -> StepView<V> {
    StepView { save: Some(next), create: false, history: None, output }
}

/// A transition that advances the record to `next` and swaps the history.
pub open spec fn advance_with_history<V>(
    next: AttemptView,
    expected: Option<Seq<u8>>,
    history: Seq<u8>,
    output: V,
) -> StepView<V> {
    StepView {
        save: Some(next),
        create: false,
        history: Some(HistoryView { expected, history }),
        output,
    }
}

/// Whether an executable outcome is the outcome the model gives.
pub open spec fn step_matches<T: View>(
    result: Result<Step<T>, WorkspaceConvergenceError>,
    model: Result<StepView<T::V>, ErrorKind>,
) -> bool {
    match (result, model) {
        (Ok(step), Ok(view)) => step@ == view,
        (Err(error), Err(kind)) => kind_of(error) == kind,
        _ => false,
    }
}

/// A transition that saves nothing.
pub fn no_save<T>(output: T) -> (step: Step<T>)
    ensures
        step.save is None,
        !step.create,
        step.history is None,
        step.output == output,
{
    Step { save: None, create: false, history: None, output }
}

} // verus!
