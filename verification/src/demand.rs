//! The diagnostics sink and the invocation demand.
//!
//! A demand is a scoped marker of active interest in a worker: creating one
//! emits an "opened" diagnostic event and releasing it emits the matching
//! "closed" event. The sink also records, for every routed call, the
//! locality decision and the outcome. Emitting diagnostics never fails a
//! call, and the demand owns no other resource: it exists for observability
//! alone, and every code path of this library that opens one provably closes
//! it.

use vstd::prelude::*;

use crate::error::RpcErrorKind;
use crate::model::WorkerId;

verus! {

/// One structured diagnostic event.
#[derive(Debug, PartialEq)]
pub enum DiagnosticEvent {
    /// A demand on the worker was opened.
    Opened { worker_id: WorkerId },
    /// The matching demand was closed.
    Closed { worker_id: WorkerId },
    /// A call was routed: executed here when local, forwarded otherwise.
    Dispatched { worker_id: WorkerId, local: bool },
    /// A call finished: successfully, or with a failure of the given kind.
    Completed { worker_id: WorkerId, error: Option<RpcErrorKind> },
}

/// The diagnostics sink, recorded as data so that emission can be stated in
/// contracts.
#[derive(Debug)]
pub struct DiagnosticLog {
    pub entries: Vec<DiagnosticEvent>,
}

impl DiagnosticLog {
    /// An empty sink.
    pub fn new() -> (r: Self)
        ensures
            r.entries@ == Seq::<DiagnosticEvent>::empty(),
    {
        DiagnosticLog { entries: Vec::new() }
    }
}

/// How many events of the log opened a demand.
pub open spec fn opened_count(events: Seq<DiagnosticEvent>) -> nat
    decreases events.len(),
{
    if events.len() == 0 {
        0
    } else {
        opened_count(events.drop_last()) + if events.last() matches DiagnosticEvent::Opened {
            ..
        } {
            1nat
        } else {
            0nat
        }
    }
}

/// How many events of the log closed a demand.
pub open spec fn closed_count(events: Seq<DiagnosticEvent>) -> nat
    decreases events.len(),
{
    if events.len() == 0 {
        0
    } else {
        closed_count(events.drop_last()) + if events.last() matches DiagnosticEvent::Closed {
            ..
        } {
            1nat
        } else {
            0nat
        }
    }
}

/// A live demand: holding it signals that the worker has an active caller.
/// It is released explicitly, and the contracts of everything that creates
/// one guarantee the release on every exit path.
#[derive(Debug)]
pub struct LoggingDemand {
    pub worker_id: WorkerId,
}

/// Marker for demand handles; carries no operations, since a demand is
/// observable only through its creation and teardown events.
pub trait RpcDemand {

}

impl RpcDemand for LoggingDemand {

}

impl RpcDemand for () {

}

impl LoggingDemand {
    /// Opens a demand for the worker, emitting the "opened" event.
    pub fn new(worker_id: WorkerId, log: &mut DiagnosticLog) -> (d: Self)
        ensures
            final(log).entries@ == old(log).entries@.push(
                (DiagnosticEvent::Opened { worker_id: d.worker_id }),
            ),
            d.worker_id == worker_id,
    {
        let d = LoggingDemand { worker_id };
        log.entries.push(DiagnosticEvent::Opened { worker_id: d.worker_id.clone() });
        d
    }

    /// Releases the demand, emitting the matching "closed" event.
    pub fn release(self, log: &mut DiagnosticLog)
        ensures
            final(log).entries@ == old(log).entries@.push(
                (DiagnosticEvent::Closed { worker_id: self.worker_id }),
            ),
    {
        log.entries.push(DiagnosticEvent::Closed { worker_id: self.worker_id });
    }
}

proof fn lemma_count_push(events: Seq<DiagnosticEvent>, e: DiagnosticEvent)
    ensures
        opened_count(events.push(e)) == opened_count(events) + if e matches DiagnosticEvent::Opened {
            ..
        } {
            1nat
        } else {
            0nat
        },
        closed_count(events.push(e)) == closed_count(events) + if e matches DiagnosticEvent::Closed {
            ..
        } {
            1nat
        } else {
            0nat
        },
{
    assert(events.push(e).drop_last() =~= events);
    assert(events.push(e).last() == e);
}

/// Demand symmetry: a routed call appends exactly one "opened" and one
/// matching "closed" event (its dispatch and completion events open and
/// close nothing), so a log whose open and close counts agree still agrees
/// after the call, however the call ended.
pub proof fn lemma_demand_symmetry(
    before: Seq<DiagnosticEvent>,
    worker_id: WorkerId,
    local: bool,
    error: Option<RpcErrorKind>,
)
    requires
        opened_count(before) == closed_count(before),
    ensures
        ({
            let after = before.push((DiagnosticEvent::Opened { worker_id })).push(
                (DiagnosticEvent::Dispatched { worker_id, local }),
            ).push((DiagnosticEvent::Completed { worker_id, error })).push(
                (DiagnosticEvent::Closed { worker_id }),
            );
            &&& opened_count(after) == closed_count(after)
            &&& opened_count(after) == opened_count(before) + 1
        }),
{
    let opened = DiagnosticEvent::Opened { worker_id };
    let dispatched = DiagnosticEvent::Dispatched { worker_id, local };
    let completed = DiagnosticEvent::Completed { worker_id, error };
    let closed = DiagnosticEvent::Closed { worker_id };
    lemma_count_push(before, opened);
    lemma_count_push(before.push(opened), dispatched);
    lemma_count_push(before.push(opened).push(dispatched), completed);
    lemma_count_push(before.push(opened).push(dispatched).push(completed), closed);
}

} // verus!
