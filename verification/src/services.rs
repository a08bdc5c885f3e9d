//! The collaborator interfaces the router consults, as traits whose
//! contracts state what each answer means.
//!
//! Implementations live outside this library (a shard oracle backed by the
//! cluster's shard map, a worker cache over the execution engine, a gRPC
//! worker proxy); scripted implementations for composition and testing are in
//! the doubles module.

use vstd::prelude::*;

use crate::error::{LocalError, WorkerProxyError};
use crate::model::{AccountId, CallingConvention, IdempotencyKey, WitValue, WorkerId};

verus! {

/// Answer of the shard oracle when the queried worker is not owned by this
/// node.
#[derive(Debug, PartialEq)]
pub struct NotOwnedError;

/// An in-memory handle to a worker resolved on this node.
#[derive(Debug, PartialEq)]
pub struct WorkerHandle {
    pub worker_id: WorkerId,
}

/// One request as it reached the worker proxy.
#[derive(Debug, PartialEq)]
pub struct ProxyCall {
    pub worker_id: WorkerId,
    pub idempotency_key: Option<IdempotencyKey>,
    pub function_name: String,
    pub function_params: Vec<WitValue>,
    pub account_id: AccountId,
    /// Whether the caller awaits a returned value or only acknowledgement.
    pub awaits_response: bool,
}

/// One call as it reached the execution engine.
#[derive(Debug, PartialEq)]
pub struct EngineCall {
    pub worker: WorkerHandle,
    pub idempotency_key: IdempotencyKey,
    pub calling_convention: CallingConvention,
    pub function_name: String,
    pub function_params: Vec<WitValue>,
    /// Whether the caller awaits returned values or only acknowledgement.
    pub awaits_response: bool,
}

/// The shard ownership oracle: answers, as of now, whether a worker identity
/// is owned by this node. Synchronous and fast; ownership may change after
/// the answer is given, and the router does not retry on that account.
pub trait ShardService {
    /// Whether this node owns the worker's shard right now.
    spec fn owns(&self, worker_id: WorkerId) -> bool;

    /// Checks the worker against the current shard assignment.
    fn check_worker(&self, worker_id: &WorkerId) -> (r: Result<(), NotOwnedError>)
        ensures
            r is Ok <==> self.owns(*worker_id),
    ;
}

/// The in-memory worker handle cache: resolves a worker's handle, creating
/// it at most once per identity. The cache itself guarantees that concurrent
/// requesters share one creation; the contract records every creation so
/// that callers can state that guarantee.
pub trait ActiveWorkers {
    /// The keys of the identities whose handles are cached.
    spec fn cached_keys(&self) -> Set<(Seq<char>, Seq<char>)>;

    /// Every creation performed so far, in order.
    spec fn creations(&self) -> Seq<WorkerId>;

    /// What creating this worker now would come to: `None` means the worker
    /// comes up, otherwise the local failure that creation reports.
    spec fn spawn_outcome(&self, worker_id: WorkerId, account_id: AccountId) -> Option<LocalError>;

    /// Resolves the worker's handle, creating the worker if it is absent.
    fn get_or_create(&mut self, worker_id: &WorkerId, account_id: &AccountId) -> (r: Result<
        WorkerHandle,
        LocalError,
    >)
        ensures
            ({
                if old(self).cached_keys().contains(worker_id.key()) {
                    &&& r matches Ok(h) && h.worker_id == *worker_id
                    &&& final(self).cached_keys() == old(self).cached_keys()
                    &&& final(self).creations() == old(self).creations()
                } else {
                    match old(self).spawn_outcome(*worker_id, *account_id) {
                        None => {
                            &&& r matches Ok(h) && h.worker_id == *worker_id
                            &&& final(self).cached_keys() == old(self).cached_keys().insert(
                                worker_id.key(),
                            )
                            &&& final(self).creations() == old(self).creations().push(*worker_id)
                        },
                        Some(e) => {
                            &&& r == Err::<WorkerHandle, LocalError>(e)
                            &&& final(self).cached_keys() == old(self).cached_keys()
                            &&& final(self).creations() == old(self).creations()
                        },
                    }
                }
            }),
    ;
}

/// The execution engine's entry points: runs a function on a resolved local
/// worker handle, either awaiting its returned values or only its
/// acceptance.
pub trait InvocationEngine {
    /// Every call handed to the engine so far, in order.
    spec fn calls(&self) -> Seq<EngineCall>;

    /// What an await-style execution of this call now would return.
    spec fn await_outcome(&self, call: EngineCall) -> Result<Vec<WitValue>, LocalError>;

    /// What a fire-and-forget execution of this call now would return.
    spec fn accept_outcome(&self, call: EngineCall) -> Result<(), LocalError>;

    /// Executes the call in-process and awaits its returned values.
    fn invoke_and_await(
        &mut self,
        worker: WorkerHandle,
        idempotency_key: IdempotencyKey,
        calling_convention: CallingConvention,
        function_name: String,
        function_params: Vec<WitValue>,
    ) -> (r: Result<Vec<WitValue>, LocalError>)
        ensures
            ({
                let call = (EngineCall {
                    worker: worker,
                    idempotency_key: idempotency_key,
                    calling_convention: calling_convention,
                    function_name: function_name,
                    function_params: function_params,
                    awaits_response: true,
                });
                &&& final(self).calls() == old(self).calls().push(call)
                &&& r == old(self).await_outcome(call)
            }),
    ;

    /// Executes the call in-process, awaiting only its acceptance.
    fn invoke(
        &mut self,
        worker: WorkerHandle,
        idempotency_key: IdempotencyKey,
        calling_convention: CallingConvention,
        function_name: String,
        function_params: Vec<WitValue>,
    ) -> (r: Result<(), LocalError>)
        ensures
            ({
                let call = (EngineCall {
                    worker: worker,
                    idempotency_key: idempotency_key,
                    calling_convention: calling_convention,
                    function_name: function_name,
                    function_params: function_params,
                    awaits_response: false,
                });
                &&& final(self).calls() == old(self).calls().push(call)
                &&& r == old(self).accept_outcome(call)
            }),
    ;
}

/// The cluster-facing worker proxy: forwards a call to whichever node owns
/// the target worker. Every request that reaches it is recorded verbatim, so
/// callers can state that keys and arguments pass through unchanged.
pub trait WorkerProxy {
    /// Every request forwarded so far, in order.
    spec fn requests(&self) -> Seq<ProxyCall>;

    /// What forwarding this await-style request now would return.
    spec fn await_outcome(&self, call: ProxyCall) -> Result<WitValue, WorkerProxyError>;

    /// What forwarding this fire-and-forget request now would return.
    spec fn accept_outcome(&self, call: ProxyCall) -> Result<(), WorkerProxyError>;

    /// Forwards the call and awaits the remote side's returned value.
    fn invoke_and_await(
        &mut self,
        worker_id: &WorkerId,
        idempotency_key: Option<IdempotencyKey>,
        function_name: String,
        function_params: Vec<WitValue>,
        account_id: &AccountId,
    ) -> (r: Result<WitValue, WorkerProxyError>)
        ensures
            ({
                let call = (ProxyCall {
                    worker_id: *worker_id,
                    idempotency_key: idempotency_key,
                    function_name: function_name,
                    function_params: function_params,
                    account_id: *account_id,
                    awaits_response: true,
                });
                &&& final(self).requests() == old(self).requests().push(call)
                &&& r == old(self).await_outcome(call)
            }),
    ;

    /// Forwards the call, awaiting only acknowledgement that it was accepted.
    fn invoke(
        &mut self,
        worker_id: &WorkerId,
        idempotency_key: Option<IdempotencyKey>,
        function_name: String,
        function_params: Vec<WitValue>,
        account_id: &AccountId,
    ) -> (r: Result<(), WorkerProxyError>)
        ensures
            ({
                let call = (ProxyCall {
                    worker_id: *worker_id,
                    idempotency_key: idempotency_key,
                    function_name: function_name,
                    function_params: function_params,
                    account_id: *account_id,
                    awaits_response: false,
                });
                &&& final(self).requests() == old(self).requests().push(call)
                &&& r == old(self).accept_outcome(call)
            }),
    ;
}

} // verus!
