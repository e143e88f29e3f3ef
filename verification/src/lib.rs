//! A diagnostic collector for pipelines of fallible steps.
//!
//! Each step of such a pipeline hands its caller only presence or absence of
//! a value, so the reason the latest step failed would otherwise be lost.
//! [`DiagnosticCollector`] is the side channel that keeps that reason: it
//! holds at most one error, always the most recently reported one, and hands
//! it out exactly once when the driver asks for it.

use vstd::prelude::*;

verus! {

/// What a freshly created collector holds: nothing.
pub open spec fn empty_state<E>() -> Option<E> {
    None
}

/// The state after an error `e` is reported: `e`, replacing whatever was held.
pub open spec fn after_report<E>(state: Option<E>, e: E) -> Option<E> {
    Some(e)
}

/// What taking the held error returns: exactly what was held.
pub open spec fn take_result<E>(state: Option<E>) -> Option<E> {
    state
}

/// The state after the held error is taken: nothing remains.
pub open spec fn after_take<E>(state: Option<E>) -> Option<E> {
    None
}

/// What `capture` hands back to the caller: the success value, if any.
pub open spec fn capture_result<T, E>(outcome: Result<T, E>) -> Option<T> {
    match outcome {
        Ok(v) => Some(v),
        Err(_) => None,
    }
}

/// The state after `capture`: unchanged on success, the reported error on
/// failure.
pub open spec fn after_capture<T, E>(state: Option<E>, outcome: Result<T, E>) -> Option<E> {
    match outcome {
        Ok(_) => state,
        Err(e) => after_report(state, e),
    }
}

/// Collects the most recent error reported while a sequence of fallible
/// steps executes.
///
/// The driver of one pipeline run owns the collector and lends it mutably to
/// whichever step currently executes. A step that fails reports its error
/// here (directly, or through [`DiagnosticCollector::capture`]) and exposes
/// only absence to the pipeline; when the whole run ends without a value,
/// the driver retrieves the held error once to surface a diagnostic.
///
/// The error type `E` is chosen by the driver; the collector is safe to hand
/// across concurrent contexts exactly when `E` is.
#[derive(Debug)]
pub struct DiagnosticCollector<E> {
    last_error: Option<E>,
}

impl<E> DiagnosticCollector<E> {
    /// The error currently held, if any: the view the contracts speak of.
    pub closed spec fn held(&self) -> Option<E> {
        self.last_error
    }

    /// Create a collector with no held error.
    pub fn new() -> (r: Self)
        ensures
            r.held() == empty_state::<E>(),
    {
        DiagnosticCollector { last_error: None }
    }

    /// Store `err` as the held error, unconditionally discarding any prior
    /// one: only the most recent failure matters for diagnosis.
    pub fn report_error(&mut self, err: E)
        ensures
            final(self).held() == after_report(old(self).held(), err),
    {
        self.last_error = Some(err);
    }

    /// Translate a failure-carrying outcome into the presence/absence value
    /// the pipeline propagates: a success's value passes through untouched,
    /// while a failure's error is reported to the collector and absence is
    /// returned.
    pub fn capture<T>(&mut self, outcome: Result<T, E>) -> (r: Option<T>)
        ensures
            r == capture_result(outcome),
            final(self).held() == after_capture(old(self).held(), outcome),
    {
        match outcome {
            Ok(res) => Some(res),
            Err(e) => {
                self.report_error(e);
                None
            },
        }
    }

    /// Remove and return the held error, or absence if none is held. The
    /// read is destructive: the collector is empty afterwards.
    pub fn take_last_error(&mut self) -> (r: Option<E>)
        ensures
            r == take_result(old(self).held()),
            final(self).held() == after_take(old(self).held()),
    {
        self.last_error.take()
    }
}

impl<E> Default for DiagnosticCollector<E> {
    /// Same as [`DiagnosticCollector::new`]: a collector with no held error.
    fn default() -> (r: Self)
        ensures
            r.held() == empty_state::<E>(),
    {
        DiagnosticCollector { last_error: None }
    }
}

/// A freshly created collector holds nothing, so taking the held error
/// yields absence.
pub proof fn lemma_empty_start<E>()
    ensures
        take_result(empty_state::<E>()) is None,
{
}

/// Reporting `e` and then taking the held error yields `e`, whatever was
/// held before; taking again after that yields absence.
pub proof fn lemma_report_then_take<E>(state: Option<E>, e: E)
    ensures
        take_result(after_report(state, e)) == Some(e),
        take_result(after_take(after_report(state, e))) is None,
{
}

/// Reporting `e1` and then `e2` leaves `e2` to be taken, never `e1`.
pub proof fn lemma_replace_on_report<E>(state: Option<E>, e1: E, e2: E)
    ensures
        take_result(after_report(after_report(state, e1), e2)) == Some(e2),
        e1 != e2 ==> take_result(after_report(after_report(state, e1), e2)) != Some(e1),
{
}

/// Capturing a successful outcome hands its value through and leaves the
/// held error unchanged.
pub proof fn lemma_capture_success<T, E>(state: Option<E>, v: T)
    ensures
        capture_result(Ok::<T, E>(v)) == Some(v),
        after_capture(state, Ok::<T, E>(v)) == state,
{
}

/// Capturing a failing outcome yields absence and, with respect to what can
/// later be taken, acts exactly as reporting its error.
pub proof fn lemma_capture_failure<T, E>(state: Option<E>, e: E)
    ensures
        capture_result(Err::<T, E>(e)) is None,
        after_capture(state, Err::<T, E>(e)) == after_report(state, e),
{
}

/// After the held error is taken the collector is empty, so a second take
/// yields absence regardless of the prior state.
pub proof fn lemma_take_idempotent_absence<E>(state: Option<E>)
    ensures
        take_result(after_take(state)) is None,
{
}

} // verus!
