//! Queueing of component-compilation work: a request names a component and a
//! version, and enqueueing either records it for the compile workers or
//! reports that the queue is gone.

use vstd::prelude::*;

use crate::model::ComponentId;

verus! {

/// A component at one of its versions.
#[derive(Debug, PartialEq)]
pub struct ComponentWithVersion {
    pub id: ComponentId,
    pub version: u64,
}

/// One unit of compilation work.
#[derive(Debug, PartialEq)]
pub struct CompilationRequest {
    pub component: ComponentWithVersion,
}

/// Why enqueueing failed: the queue's consumer is gone.
#[derive(Debug, PartialEq)]
pub enum CompilationError {
    QueueClosed,
}

/// Accepts compilation work for a component version.
pub trait CompilationService {
    /// Every request accepted so far, in order.
    spec fn queued(&self) -> Seq<CompilationRequest>;

    /// Enqueues compilation of the component at the version; on success the
    /// request is recorded behind those already accepted.
    fn enqueue_compilation(&mut self, component_id: ComponentId, component_version: u64) -> (r:
        Result<(), CompilationError>)
        ensures
            r is Ok ==> final(self).queued() == old(self).queued().push(
                (CompilationRequest {
                    component: ComponentWithVersion { id: component_id, version: component_version },
                }),
            ),
            r is Err ==> final(self).queued() == old(self).queued(),
    ;
}

/// A compilation service over an in-memory queue, which is always open.
#[derive(Debug)]
pub struct ComponentCompilationServiceImpl {
    pub queue: Vec<CompilationRequest>,
}

impl ComponentCompilationServiceImpl {
    /// A service with an empty queue.
    pub fn new() -> (r: Self)
        ensures
            r.queue@ == Seq::<CompilationRequest>::empty(),
    {
        ComponentCompilationServiceImpl { queue: Vec::new() }
    }
}

impl CompilationService for ComponentCompilationServiceImpl {
    open spec fn queued(&self) -> Seq<CompilationRequest> {
        self.queue@
    }

    fn enqueue_compilation(&mut self, component_id: ComponentId, component_version: u64) -> (r:
        Result<(), CompilationError>) {
        self.queue.push(
            CompilationRequest {
                component: ComponentWithVersion { id: component_id, version: component_version },
            },
        );
        Ok(())
    }
}

} // verus!
