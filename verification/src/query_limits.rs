//! Execution limits, timeouts and one-shot cancellation of query execution.
use vstd::prelude::*;
use crate::query_errors::{QueryEngineError, ValidationError};

verus! {

/// Which execution limit was exceeded.
#[derive(Clone, Copy, Debug, Eq, PartialEq, Structural)]
pub enum ExecutionLimitKind {
    /// The result-count limit.
    ResultCount,
    /// The evaluation-step limit.
    EvaluationSteps,
}

/// The display name of a limit.
pub open spec fn limit_name(k: ExecutionLimitKind) -> Seq<char> {
    match k {
        ExecutionLimitKind::ResultCount => "result count"@,
        ExecutionLimitKind::EvaluationSteps => "evaluation steps"@,
    }
}

impl ExecutionLimitKind {
    /// Returns the display name of the limit.
    pub fn name(&self) -> (r: &'static str)
        ensures
            r@ == limit_name(*self),
    {
        match self {
            ExecutionLimitKind::ResultCount => "result count",
            ExecutionLimitKind::EvaluationSteps => "evaluation steps",
        }
    }
}

/// A deterministic timeout in milliseconds; never zero.
#[derive(Clone, Copy, Debug, Eq, PartialEq, Structural)]
pub struct QueryTimeout {
    milliseconds: u64,
}

impl QueryTimeout {
    /// The timeout in milliseconds.
    pub closed spec fn millis(self) -> u64 {
        self.milliseconds
    }

    /// Creates a timeout; zero is refused.
    pub fn from_millis(milliseconds: u64) -> (r: Result<Self, QueryEngineError>)
        ensures
            r is Ok <==> milliseconds > 0,
            r matches Ok(t) ==> t.millis() == milliseconds,
            r matches Err(e) ==> e == (QueryEngineError::MalformedQuery { failure: ValidationError::ZeroTimeout }),
    {
        if milliseconds == 0 {
            return Err(QueryEngineError::MalformedQuery { failure: ValidationError::ZeroTimeout });
        }
        Ok(QueryTimeout { milliseconds })
    }

    /// Returns the timeout in milliseconds.
    pub fn milliseconds(self) -> (r: u64)
        ensures
            r == self.millis(),
    {
        self.milliseconds
    }
}

/// Execution limits of one query.
#[derive(Clone, Copy, Debug, Eq, PartialEq, Structural)]
pub struct ExecutionLimits {
    /// Optional maximum number of result items.
    pub max_result_count: Option<usize>,
    /// Optional maximum number of evaluated records.
    pub max_evaluation_steps: Option<u64>,
    /// Optional timeout.
    pub timeout: Option<QueryTimeout>,
}

/// The first malformed limit, if any.
pub open spec fn limits_failure(limits: ExecutionLimits) -> Option<ValidationError> {
    if limits.max_result_count == Some(0usize) {
        Some(ValidationError::ZeroResultLimit)
    } else if limits.max_evaluation_steps == Some(0u64) {
        Some(ValidationError::ZeroEvaluationStepLimit)
    } else {
        None
    }
}

impl ExecutionLimits {
    /// No limit at all.
    pub fn unbounded() -> (r: Self)
        ensures
            r.max_result_count is None,
            r.max_evaluation_steps is None,
            r.timeout is None,
    {
        ExecutionLimits { max_result_count: None, max_evaluation_steps: None, timeout: None }
    }

    /// Creates validated limits.
    pub fn new(max_result_count: Option<usize>, max_evaluation_steps: Option<u64>, timeout: Option<QueryTimeout>) -> (r:
        Result<Self, QueryEngineError>)
        ensures
            r is Ok <==> limits_failure(ExecutionLimits { max_result_count, max_evaluation_steps, timeout }) is None,
            r matches Ok(l) ==> l == (ExecutionLimits { max_result_count, max_evaluation_steps, timeout }),
            r matches Err(e) ==> e == (QueryEngineError::MalformedQuery {
                failure: limits_failure(ExecutionLimits { max_result_count, max_evaluation_steps, timeout }).unwrap(),
            }),
    {
        let limits = ExecutionLimits { max_result_count, max_evaluation_steps, timeout };
        match validate_execution_limits(&limits) {
            Err(e) => Err(e),
            Ok(()) => Ok(limits),
        }
    }
}

impl Default for ExecutionLimits {
    fn default() -> (r: Self)
        ensures
            r.max_result_count is None,
            r.max_evaluation_steps is None,
            r.timeout is None,
    {
        ExecutionLimits::unbounded()
    }
}

/// One-shot cancellation flag of a query execution, shared by every clone:
/// a cancellation requested through any clone is seen through all of them,
/// and nothing withdraws it. The flag lives in shared memory that another
/// holder may set at any moment, so reads of it are answers of that moment.
#[derive(Clone, Debug)]
pub struct CancellationState {
    cancelled: std::sync::Arc<std::sync::atomic::AtomicBool>,
}

impl CancellationState {
    /// Creates a state without a cancellation request.
    pub fn new() -> (r: Self) {
        CancellationState { cancelled: std::sync::Arc::new(std::sync::atomic::AtomicBool::new(false)) }
    }

    /// Requests cancellation, for this state and every clone of it.
    pub fn request_cancel(&self) {
        self.cancelled.store(true, std::sync::atomic::Ordering::SeqCst);
    }

    /// Reports whether cancellation was requested through this state or any clone.
    pub fn is_cancelled(&self) -> (b: bool) {
        self.cancelled.load(std::sync::atomic::Ordering::SeqCst)
    }

    /// Fails with `Cancelled` when the flag reads as set, and succeeds otherwise.
    pub fn check_cancelled(&self) -> (r: Result<(), QueryEngineError>)
        ensures
            r matches Err(e) ==> e == QueryEngineError::Cancelled,
    {
        if self.is_cancelled() {
            return Err(QueryEngineError::Cancelled);
        }
        Ok(())
    }
}

impl Default for CancellationState {
    fn default() -> (r: Self) {
        CancellationState::new()
    }
}

/// Checks that neither limit is zero.
pub fn validate_execution_limits(limits: &ExecutionLimits) -> (r: Result<(), QueryEngineError>)
    ensures
        r is Ok <==> limits_failure(*limits) is None,
        r matches Err(e) ==> e == (QueryEngineError::MalformedQuery { failure: limits_failure(*limits).unwrap() }),
{
    if let Some(0) = limits.max_result_count {
        return Err(QueryEngineError::MalformedQuery { failure: ValidationError::ZeroResultLimit });
    }
    if let Some(0) = limits.max_evaluation_steps {
        return Err(QueryEngineError::MalformedQuery { failure: ValidationError::ZeroEvaluationStepLimit });
    }
    Ok(())
}

/// Fails when a result count exceeds the result-count limit.
pub fn ensure_result_count_within_limit(limits: &ExecutionLimits, result_count: usize) -> (r: Result<(), QueryEngineError>)
    ensures
        r is Err <==> (limits.max_result_count matches Some(m) && result_count > m),
        r matches Err(e) ==> e == (QueryEngineError::ExecutionLimitExceeded { limit: ExecutionLimitKind::ResultCount }),
{
    if let Some(maximum) = limits.max_result_count {
        if result_count > maximum {
            return Err(QueryEngineError::ExecutionLimitExceeded { limit: ExecutionLimitKind::ResultCount });
        }
    }
    Ok(())
}

/// Fails when an evaluation-step count exceeds the evaluation-step limit.
pub fn ensure_evaluation_steps_within_limit(limits: &ExecutionLimits, evaluation_steps: u64) -> (r: Result<
    (),
    QueryEngineError,
>)
    ensures
        r is Err <==> (limits.max_evaluation_steps matches Some(m) && evaluation_steps > m),
        r matches Err(e) ==> e == (QueryEngineError::ExecutionLimitExceeded { limit: ExecutionLimitKind::EvaluationSteps }),
{
    if let Some(maximum) = limits.max_evaluation_steps {
        if evaluation_steps > maximum {
            return Err(QueryEngineError::ExecutionLimitExceeded { limit: ExecutionLimitKind::EvaluationSteps });
        }
    }
    Ok(())
}

/// Fails when the elapsed milliseconds exceed the timeout.
pub fn ensure_timeout_not_elapsed(timeout: QueryTimeout, elapsed_milliseconds: u64) -> (r: Result<(), QueryEngineError>)
    ensures
        r is Err <==> elapsed_milliseconds > timeout.millis(),
        r matches Err(e) ==> e == (QueryEngineError::Timeout { timeout }),
{
    if elapsed_milliseconds > timeout.milliseconds() {
        return Err(QueryEngineError::Timeout { timeout });
    }
    Ok(())
}

} // verus!
