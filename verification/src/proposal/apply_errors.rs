//! Structured errors of fragment apply, with stable machine-readable codes.
use vstd::prelude::*;

verus! {

/// Stable machine-readable error code.
#[derive(Clone, Copy, Debug, PartialEq, Eq, Hash, Structural)]
pub enum ApplyErrorCode {
    ApplyUnsupportedIntent,
    ApplyUnsupportedTarget,
    ApplyTargetUnresolved,
    ApplyTargetAmbiguous,
    ApplyRequiredDecision,
    ApplyFieldInvalid,
    ApplyMutationFieldRejected,
    ApplyEntityNotFound,
    ApplyEntityParentMismatch,
    ApplyBaselineMismatch,
    ApplyPreviewMismatch,
    ApplyToctouDrift,
    ApplyScopedWriteZeroRows,
    ApplyScopedWriteMultipleRows,
    ApplyTransactionFailed,
}

/// The registry string of each code.
pub open spec fn apply_error_code_text(code: ApplyErrorCode) -> Seq<char> {
    match code {
        ApplyErrorCode::ApplyUnsupportedIntent => "APPLY_UNSUPPORTED_INTENT"@,
        ApplyErrorCode::ApplyUnsupportedTarget => "APPLY_UNSUPPORTED_TARGET"@,
        ApplyErrorCode::ApplyTargetUnresolved => "APPLY_TARGET_UNRESOLVED"@,
        ApplyErrorCode::ApplyTargetAmbiguous => "APPLY_TARGET_AMBIGUOUS"@,
        ApplyErrorCode::ApplyRequiredDecision => "APPLY_REQUIRED_DECISION"@,
        ApplyErrorCode::ApplyFieldInvalid => "APPLY_FIELD_INVALID"@,
        ApplyErrorCode::ApplyMutationFieldRejected => "APPLY_MUTATION_FIELD_REJECTED"@,
        ApplyErrorCode::ApplyEntityNotFound => "APPLY_ENTITY_NOT_FOUND"@,
        ApplyErrorCode::ApplyEntityParentMismatch => "APPLY_ENTITY_PARENT_MISMATCH"@,
        ApplyErrorCode::ApplyBaselineMismatch => "APPLY_BASELINE_MISMATCH"@,
        ApplyErrorCode::ApplyPreviewMismatch => "APPLY_PREVIEW_MISMATCH"@,
        ApplyErrorCode::ApplyToctouDrift => "APPLY_TOCTOU_DRIFT"@,
        ApplyErrorCode::ApplyScopedWriteZeroRows => "APPLY_SCOPED_WRITE_ZERO_ROWS"@,
        ApplyErrorCode::ApplyScopedWriteMultipleRows => "APPLY_SCOPED_WRITE_MULTIPLE_ROWS"@,
        ApplyErrorCode::ApplyTransactionFailed => "APPLY_TRANSACTION_FAILED"@,
    }
}

impl ApplyErrorCode {
    /// The registry string (e.g. `APPLY_UNSUPPORTED_INTENT`).
    pub fn as_str(self) -> (r: &'static str)
        ensures
            r@ == apply_error_code_text(self),
    {
        match self {
            ApplyErrorCode::ApplyUnsupportedIntent => "APPLY_UNSUPPORTED_INTENT",
            ApplyErrorCode::ApplyUnsupportedTarget => "APPLY_UNSUPPORTED_TARGET",
            ApplyErrorCode::ApplyTargetUnresolved => "APPLY_TARGET_UNRESOLVED",
            ApplyErrorCode::ApplyTargetAmbiguous => "APPLY_TARGET_AMBIGUOUS",
            ApplyErrorCode::ApplyRequiredDecision => "APPLY_REQUIRED_DECISION",
            ApplyErrorCode::ApplyFieldInvalid => "APPLY_FIELD_INVALID",
            ApplyErrorCode::ApplyMutationFieldRejected => "APPLY_MUTATION_FIELD_REJECTED",
            ApplyErrorCode::ApplyEntityNotFound => "APPLY_ENTITY_NOT_FOUND",
            ApplyErrorCode::ApplyEntityParentMismatch => "APPLY_ENTITY_PARENT_MISMATCH",
            ApplyErrorCode::ApplyBaselineMismatch => "APPLY_BASELINE_MISMATCH",
            ApplyErrorCode::ApplyPreviewMismatch => "APPLY_PREVIEW_MISMATCH",
            ApplyErrorCode::ApplyToctouDrift => "APPLY_TOCTOU_DRIFT",
            ApplyErrorCode::ApplyScopedWriteZeroRows => "APPLY_SCOPED_WRITE_ZERO_ROWS",
            ApplyErrorCode::ApplyScopedWriteMultipleRows => "APPLY_SCOPED_WRITE_MULTIPLE_ROWS",
            ApplyErrorCode::ApplyTransactionFailed => "APPLY_TRANSACTION_FAILED",
        }
    }
}

#[derive(Clone, Copy, Debug, PartialEq, Eq, Structural)]
pub enum ApplyErrorKind {
    Blocking,
    Warning,
    DecisionRequired,
}

#[derive(Clone, Copy, Debug, PartialEq, Eq, Structural)]
pub enum ApplyErrorPhase {
    FragmentValidate,
    Gate,
    ConfirmScope,
    Simulate,
    ConfirmTransaction,
}

/// A structured apply error.
#[derive(Clone, Debug, PartialEq, Eq)]
pub struct StructuredApplyError {
    pub code: ApplyErrorCode,
    pub kind: ApplyErrorKind,
    pub message: String,
    pub phase: ApplyErrorPhase,
    pub field_path: Option<String>,
    pub intent: Option<String>,
    pub target_type: Option<String>,
}

impl StructuredApplyError {
    /// A blocking error with no field path, intent or target type.
    pub fn blocking(code: ApplyErrorCode, phase: ApplyErrorPhase, message: String) -> (r: Self)
        ensures
            r.code == code,
            r.kind == ApplyErrorKind::Blocking,
            r.message == message,
            r.phase == phase,
            r.field_path is None,
            r.intent is None,
            r.target_type is None,
    {
        StructuredApplyError {
            code,
            kind: ApplyErrorKind::Blocking,
            message,
            phase,
            field_path: None,
            intent: None,
            target_type: None,
        }
    }

    /// The same error with the field path set.
    pub fn with_field_path(self, field_path: String) -> (r: Self)
        ensures
            r == (StructuredApplyError { field_path: Some(field_path), ..self }),
    {
        let mut e = self;
        e.field_path = Some(field_path);
        e
    }

    /// The same error with the intent set.
    pub fn with_intent(self, intent: String) -> (r: Self)
        ensures
            r == (StructuredApplyError { intent: Some(intent), ..self }),
    {
        let mut e = self;
        e.intent = Some(intent);
        e
    }

    /// The same error with the target type set.
    pub fn with_target_type(self, target_type: String) -> (r: Self)
        ensures
            r == (StructuredApplyError { target_type: Some(target_type), ..self }),
    {
        let mut e = self;
        e.target_type = Some(target_type);
        e
    }
}

} // verus!
