//! The invocation paths: the remote path, which forwards calls through the
//! worker proxy, and the direct router, which consults the shard oracle and
//! either executes locally or delegates to the remote path.
//!
//! Callers are locality-transparent: both paths present the same contract —
//! one demand opened and closed per call, the supplied idempotency key
//! forwarded unchanged (or a fresh one generated), and every failure mapped
//! exactly once into the taxonomy.

use vstd::prelude::*;

use crate::demand::{DiagnosticEvent, DiagnosticLog, LoggingDemand};
use crate::error::{
    kind_of, rpc_error_from_local, rpc_error_from_proxy, rpc_error_view_of_local,
    rpc_error_view_of_proxy, LocalError, RpcError, RpcErrorKind, WorkerProxyError,
};
use crate::idempotency::{decimal_of, KeyGenerator};
use crate::model::{AccountId, CallingConvention, IdempotencyKey, WitValue, WorkerId};
use crate::services::{ActiveWorkers, InvocationEngine, ShardService, WorkerProxy};

verus! {

/// The late-bound reference to the recovery collaborator. The router is
/// constructed with this cell empty, recovery is constructed afterwards with
/// a handle to the router, and then attached here exactly once: the first
/// attachment wins, and a read before any attachment fails detectably.
#[derive(Debug)]
pub struct RecoveryCell<R> {
    pub inner: Option<R>,
}

impl<R> RecoveryCell<R> {
    /// Whether the recovery collaborator has been attached.
    pub open spec fn is_attached(self) -> bool {
        self.inner is Some
    }

    /// The attached collaborator; meaningful only once attached.
    pub open spec fn attached_to(self) -> R {
        self.inner->Some_0
    }

    /// What attaching comes to: the first attachment fills the cell, every
    /// later one has no effect.
    pub open spec fn after_attach(self, recovery: R) -> Self {
        if self.is_attached() {
            self
        } else {
            RecoveryCell { inner: Some(recovery) }
        }
    }

    /// The cell as constructed: nothing attached.
    pub fn empty() -> (r: Self)
        ensures
            !r.is_attached(),
    {
        RecoveryCell { inner: None }
    }

    /// Attaches the collaborator; a second attachment has no effect.
    pub fn attach(&mut self, recovery: R)
        ensures
            *final(self) == old(self).after_attach(recovery),
    {
        if self.inner.is_none() {
            self.inner = Some(recovery);
        }
    }

    /// Reads the attached collaborator; `None` before any attachment is the
    /// detectable failure, never a silent default.
    pub fn try_get(&self) -> (r: Option<&R>)
        ensures
            match r {
                Some(h) => self.is_attached() && *h == self.attached_to(),
                None => !self.is_attached(),
            },
    {
        self.inner.as_ref()
    }

    /// Reads the attached collaborator once attachment is established.
    pub fn get(&self) -> (r: &R)
        requires
            self.is_attached(),
        ensures
            *r == self.attached_to(),
    {
        self.inner.as_ref().unwrap()
    }
}

/// Recovery attach-once: the first attachment wins, a second attachment has
/// no observable effect, and before any attachment the cell is readably
/// empty.
pub proof fn lemma_recovery_attach_once<R>(first: R, second: R)
    ensures
        ({
            let empty = RecoveryCell::<R> { inner: None };
            let once = empty.after_attach(first);
            let twice = once.after_attach(second);
            &&& !empty.is_attached()
            &&& once.is_attached()
            &&& once.attached_to() == first
            &&& twice == once
        }),
{
}

/// Relates an await-style local execution outcome to the caller-visible
/// result: the returned values arrive wrapped as one tuple value, a local
/// failure arrives mapped through the taxonomy.
pub open spec fn local_await_result(
    outcome: Result<Vec<WitValue>, LocalError>,
    r: Result<WitValue, RpcError>,
) -> bool {
    match outcome {
        Ok(values) => r == Ok::<WitValue, RpcError>(WitValue::Tuple(values)),
        Err(e) => r matches Err(re) && re@ == rpc_error_view_of_local(e),
    }
}

/// Relates a fire-and-forget local execution outcome to the caller-visible
/// result.
pub open spec fn local_accept_result(
    outcome: Result<(), LocalError>,
    r: Result<(), RpcError>,
) -> bool {
    match outcome {
        Ok(u) => r == Ok::<(), RpcError>(u),
        Err(e) => r matches Err(re) && re@ == rpc_error_view_of_local(e),
    }
}

/// Relates an await-style remote outcome to the caller-visible result: the
/// remote value passes through unchanged, a proxy failure arrives mapped
/// through the taxonomy.
pub open spec fn remote_await_result(
    outcome: Result<WitValue, WorkerProxyError>,
    r: Result<WitValue, RpcError>,
) -> bool {
    match outcome {
        Ok(v) => r == Ok::<WitValue, RpcError>(v),
        Err(e) => r matches Err(re) && re@ == rpc_error_view_of_proxy(e),
    }
}

/// Relates a fire-and-forget remote outcome to the caller-visible result.
pub open spec fn remote_accept_result(
    outcome: Result<(), WorkerProxyError>,
    r: Result<(), RpcError>,
) -> bool {
    match outcome {
        Ok(u) => r == Ok::<(), RpcError>(u),
        Err(e) => r matches Err(re) && re@ == rpc_error_view_of_proxy(e),
    }
}

/// Locality transparency: given equivalent underlying outcomes — the remote
/// side returning exactly what a local execution returns (its values as one
/// tuple on success, the same local failure as its internal error on
/// failure) — an await-style call's visible result is the same whether the
/// target was local or remote: equal on success, of equal view on failure.
pub proof fn lemma_locality_transparency(
    values: Vec<WitValue>,
    failure: LocalError,
    local_ok: Result<WitValue, RpcError>,
    remote_ok: Result<WitValue, RpcError>,
    local_err: Result<WitValue, RpcError>,
    remote_err: Result<WitValue, RpcError>,
)
    requires
        local_await_result(Ok(values), local_ok),
        remote_await_result(Ok(WitValue::Tuple(values)), remote_ok),
        local_await_result(Err(failure), local_err),
        remote_await_result(Err(WorkerProxyError::InternalError(failure)), remote_err),
    ensures
        local_ok == remote_ok,
        local_err matches Err(le) && remote_err matches Err(re) && le@ == re@,
{
}

/// Whether `used` is the key a call resolved to: the supplied key unchanged,
/// or — when none was supplied — the key the generator freshly issued.
pub open spec fn is_resolved_key(
    pre_keys: KeyGenerator,
    supplied: Option<IdempotencyKey>,
    used: IdempotencyKey,
) -> bool {
    match supplied {
        Some(k) => used == k,
        None => used.value@ == decimal_of(pre_keys.counter as nat),
    }
}

/// How the key generator advances in one call: untouched when a key was
/// supplied, one fresh key issued otherwise.
pub open spec fn key_state_after(
    pre: KeyGenerator,
    post: KeyGenerator,
    supplied: Option<IdempotencyKey>,
) -> bool {
    match supplied {
        Some(_) => post == pre,
        None => {
            &&& post.counter == pre.counter + 1
            &&& post.issued@ == pre.issued@.push(decimal_of(pre.counter as nat))
        },
    }
}

/// Idempotency-key generation: a call that supplies no key resolves to a key
/// distinct from every key the generator issued before in this run, and the
/// generator records it, keeping its books straight.
pub proof fn lemma_generated_key_is_fresh(
    pre: KeyGenerator,
    post: KeyGenerator,
    used: IdempotencyKey,
)
    requires
        pre.wf(),
        key_state_after(pre, post, None::<IdempotencyKey>),
        is_resolved_key(pre, None::<IdempotencyKey>, used),
    ensures
        forall|i: int| 0 <= i < pre.issued@.len() ==> pre.issued@[i] != used.value@,
        post.wf(),
{
    assert forall|i: int| 0 <= i < pre.issued@.len() implies pre.issued@[i] != used.value@ by {
        crate::idempotency::lemma_generated_keys_distinct(i as nat, pre.counter as nat);
    }
}

/// How the worker handle cache moves in one local resolution: a cached
/// identity is left as it is; an absent one that comes up is cached and its
/// creation recorded, exactly once.
pub open spec fn cache_resolution<A: ActiveWorkers>(pre: A, post: A, worker_id: WorkerId) -> bool {
    if pre.cached_keys().contains(worker_id.key()) {
        &&& post.cached_keys() == pre.cached_keys()
        &&& post.creations() == pre.creations()
    } else {
        &&& post.cached_keys() == pre.cached_keys().insert(worker_id.key())
        &&& post.creations() == pre.creations().push(worker_id)
    }
}

/// A worker is created at most once per identity: after two successive
/// resolutions of the same identity, exactly one creation is recorded if the
/// identity was absent at the start, and none if it was already cached.
pub proof fn lemma_single_creation<A: ActiveWorkers>(
    pre: A,
    mid: A,
    post: A,
    worker_id: WorkerId,
)
    requires
        cache_resolution(pre, mid, worker_id),
        cache_resolution(mid, post, worker_id),
    ensures
        post.creations() == if pre.cached_keys().contains(worker_id.key()) {
            pre.creations()
        } else {
            pre.creations().push(worker_id)
        },
{
    assert(mid.cached_keys().contains(worker_id.key()));
}

/// The remote invocation path: forwards every call through the worker proxy
/// and translates proxy failures into the taxonomy.
#[derive(Debug)]
pub struct RemoteInvocationRpc<P: WorkerProxy> {
    pub worker_proxy: P,
}

impl<P: WorkerProxy> RemoteInvocationRpc<P> {
    /// A remote path over the given proxy.
    pub fn new(worker_proxy: P) -> (r: Self)
        ensures
            r.worker_proxy == worker_proxy,
    {
        RemoteInvocationRpc { worker_proxy }
    }

    /// Opens a demand for the worker in the caller's diagnostics sink, so
    /// remote targets are indistinguishable from local ones by the demand's
    /// behaviour.
    pub fn create_demand(&self, worker_id: &WorkerId, log: &mut DiagnosticLog) -> (d: LoggingDemand)
        ensures
            final(log).entries@ == old(log).entries@.push(
                (DiagnosticEvent::Opened { worker_id: *worker_id }),
            ),
            d.worker_id == *worker_id,
    {
        LoggingDemand::new(worker_id.clone(), log)
    }

    /// Forwards the call and awaits the remote side's returned value.
    pub fn invoke_and_await(
        &mut self,
        worker_id: &WorkerId,
        idempotency_key: Option<IdempotencyKey>,
        function_name: String,
        function_params: Vec<WitValue>,
        account_id: &AccountId,
    ) -> (r: Result<WitValue, RpcError>)
        ensures
            ({
                let q = final(self).worker_proxy.requests().last();
                &&& final(self).worker_proxy.requests() == old(self).worker_proxy.requests().push(
                    q,
                )
                &&& q.worker_id == *worker_id
                &&& q.idempotency_key == idempotency_key
                &&& q.function_name == function_name
                &&& q.function_params == function_params
                &&& q.account_id == *account_id
                &&& q.awaits_response == true
                &&& remote_await_result(old(self).worker_proxy.await_outcome(q), r)
            }),
    {
        match self.worker_proxy.invoke_and_await(
            worker_id,
            idempotency_key,
            function_name,
            function_params,
            account_id,
        ) {
            Ok(v) => Ok(v),
            Err(e) => Err(rpc_error_from_proxy(e)),
        }
    }

    /// Forwards the call, awaiting only acknowledgement that it was accepted.
    pub fn invoke(
        &mut self,
        worker_id: &WorkerId,
        idempotency_key: Option<IdempotencyKey>,
        function_name: String,
        function_params: Vec<WitValue>,
        account_id: &AccountId,
    ) -> (r: Result<(), RpcError>)
        ensures
            ({
                let q = final(self).worker_proxy.requests().last();
                &&& final(self).worker_proxy.requests() == old(self).worker_proxy.requests().push(
                    q,
                )
                &&& q.worker_id == *worker_id
                &&& q.idempotency_key == idempotency_key
                &&& q.function_name == function_name
                &&& q.function_params == function_params
                &&& q.account_id == *account_id
                &&& q.awaits_response == false
                &&& remote_accept_result(old(self).worker_proxy.accept_outcome(q), r)
            }),
    {
        match self.worker_proxy.invoke(
            worker_id,
            idempotency_key,
            function_name,
            function_params,
            account_id,
        ) {
            Ok(u) => Ok(u),
            Err(e) => Err(rpc_error_from_proxy(e)),
        }
    }
}

/// The direct invocation router: for each call it consults the shard oracle;
/// an owned target is resolved in the handle cache (created at most once)
/// and executed in-process, any other target is delegated verbatim to the
/// remote path. Shared by every concurrent call for the process's lifetime.
pub struct DirectWorkerInvocationRpc<
    S: ShardService,
    A: ActiveWorkers,
    E: InvocationEngine,
    P: WorkerProxy,
    R,
> {
    pub remote_rpc: RemoteInvocationRpc<P>,
    pub active_workers: A,
    pub engine: E,
    pub shard_service: S,
    pub recovery_management: RecoveryCell<R>,
    pub key_generator: KeyGenerator,
    pub events: DiagnosticLog,
}

impl<
    S: ShardService,
    A: ActiveWorkers,
    E: InvocationEngine,
    P: WorkerProxy,
    R,
> DirectWorkerInvocationRpc<S, A, E, P, R> {
    /// The router's books are straight: its key generator's are.
    pub open spec fn wf(self) -> bool {
        self.key_generator.wf()
    }

    /// What both invocation operations leave unchanged and emit: the oracle
    /// and the recovery reference are untouched, and the diagnostics gain
    /// exactly one demand opened/closed pair for the target, with the
    /// call's locality decision and outcome kind recorded between them.
    pub open spec fn call_frame_spec(
        pre: Self,
        post: Self,
        worker_id: WorkerId,
        outcome: Option<RpcErrorKind>,
    ) -> bool {
        &&& post.wf()
        &&& post.shard_service == pre.shard_service
        &&& post.recovery_management == pre.recovery_management
        &&& post.events.entries@ == pre.events.entries@.push(
            (DiagnosticEvent::Opened { worker_id: worker_id }),
        ).push(
            (DiagnosticEvent::Dispatched {
                worker_id: worker_id,
                local: pre.shard_service.owns(worker_id),
            }),
        ).push((DiagnosticEvent::Completed { worker_id: worker_id, error: outcome })).push(
            (DiagnosticEvent::Closed { worker_id: worker_id }),
        )
    }

    /// The local dispatch of an await-style call: the handle is resolved in
    /// the cache (created at most once); if that succeeds, exactly one
    /// execution is handed to the engine, carrying the resolved key, the
    /// component calling convention and the arguments unchanged, and the
    /// result reflects the engine's outcome; if creation fails, nothing is
    /// executed and the failure arrives mapped through the taxonomy.
    pub open spec fn local_await_spec(
        pre: Self,
        post: Self,
        worker_id: WorkerId,
        supplied: Option<IdempotencyKey>,
        function_name: String,
        function_params: Vec<WitValue>,
        account_id: AccountId,
        r: Result<WitValue, RpcError>,
    ) -> bool {
        &&& post.remote_rpc == pre.remote_rpc
        &&& if pre.active_workers.cached_keys().contains(worker_id.key())
            || pre.active_workers.spawn_outcome(worker_id, account_id) is None {
            &&& cache_resolution(pre.active_workers, post.active_workers, worker_id)
            &&& ({
                let c = post.engine.calls().last();
                &&& post.engine.calls() == pre.engine.calls().push(c)
                &&& c.worker.worker_id == worker_id
                &&& c.calling_convention == CallingConvention::Component
                &&& c.function_name == function_name
                &&& c.function_params == function_params
                &&& c.awaits_response == true
                &&& is_resolved_key(pre.key_generator, supplied, c.idempotency_key)
                &&& local_await_result(pre.engine.await_outcome(c), r)
            })
        } else {
            &&& post.active_workers.cached_keys() == pre.active_workers.cached_keys()
            &&& post.active_workers.creations() == pre.active_workers.creations()
            &&& post.engine == pre.engine
            &&& ({
                let e = pre.active_workers.spawn_outcome(worker_id, account_id)->Some_0;
                r matches Err(re) && re@ == rpc_error_view_of_local(e)
            })
        }
    }

    /// The local dispatch of a fire-and-forget call; as the await-style
    /// dispatch, with only acceptance awaited.
    pub open spec fn local_accept_spec(
        pre: Self,
        post: Self,
        worker_id: WorkerId,
        supplied: Option<IdempotencyKey>,
        function_name: String,
        function_params: Vec<WitValue>,
        account_id: AccountId,
        r: Result<(), RpcError>,
    ) -> bool {
        &&& post.remote_rpc == pre.remote_rpc
        &&& if pre.active_workers.cached_keys().contains(worker_id.key())
            || pre.active_workers.spawn_outcome(worker_id, account_id) is None {
            &&& cache_resolution(pre.active_workers, post.active_workers, worker_id)
            &&& ({
                let c = post.engine.calls().last();
                &&& post.engine.calls() == pre.engine.calls().push(c)
                &&& c.worker.worker_id == worker_id
                &&& c.calling_convention == CallingConvention::Component
                &&& c.function_name == function_name
                &&& c.function_params == function_params
                &&& c.awaits_response == false
                &&& is_resolved_key(pre.key_generator, supplied, c.idempotency_key)
                &&& local_accept_result(pre.engine.accept_outcome(c), r)
            })
        } else {
            &&& post.active_workers.cached_keys() == pre.active_workers.cached_keys()
            &&& post.active_workers.creations() == pre.active_workers.creations()
            &&& post.engine == pre.engine
            &&& ({
                let e = pre.active_workers.spawn_outcome(worker_id, account_id)->Some_0;
                r matches Err(re) && re@ == rpc_error_view_of_local(e)
            })
        }
    }

    /// The remote dispatch of an await-style call: the cache and the engine
    /// are untouched, exactly one request reaches the proxy — the target,
    /// function, arguments and account unchanged, the resolved key passed
    /// along — and the result reflects the proxy's outcome.
    pub open spec fn remote_await_spec(
        pre: Self,
        post: Self,
        worker_id: WorkerId,
        supplied: Option<IdempotencyKey>,
        function_name: String,
        function_params: Vec<WitValue>,
        account_id: AccountId,
        r: Result<WitValue, RpcError>,
    ) -> bool {
        &&& post.active_workers == pre.active_workers
        &&& post.engine == pre.engine
        &&& ({
            let q = post.remote_rpc.worker_proxy.requests().last();
            &&& post.remote_rpc.worker_proxy.requests()
                == pre.remote_rpc.worker_proxy.requests().push(q)
            &&& q.worker_id == worker_id
            &&& q.function_name == function_name
            &&& q.function_params == function_params
            &&& q.account_id == account_id
            &&& q.awaits_response == true
            &&& q.idempotency_key matches Some(used) && is_resolved_key(
                pre.key_generator,
                supplied,
                used,
            )
            &&& remote_await_result(pre.remote_rpc.worker_proxy.await_outcome(q), r)
        })
    }

    /// The remote dispatch of a fire-and-forget call.
    pub open spec fn remote_accept_spec(
        pre: Self,
        post: Self,
        worker_id: WorkerId,
        supplied: Option<IdempotencyKey>,
        function_name: String,
        function_params: Vec<WitValue>,
        account_id: AccountId,
        r: Result<(), RpcError>,
    ) -> bool {
        &&& post.active_workers == pre.active_workers
        &&& post.engine == pre.engine
        &&& ({
            let q = post.remote_rpc.worker_proxy.requests().last();
            &&& post.remote_rpc.worker_proxy.requests()
                == pre.remote_rpc.worker_proxy.requests().push(q)
            &&& q.worker_id == worker_id
            &&& q.function_name == function_name
            &&& q.function_params == function_params
            &&& q.account_id == account_id
            &&& q.awaits_response == false
            &&& q.idempotency_key matches Some(used) && is_resolved_key(
                pre.key_generator,
                supplied,
                used,
            )
            &&& remote_accept_result(pre.remote_rpc.worker_proxy.accept_outcome(q), r)
        })
    }

    /// Creation happens at most once at the router: two successive
    /// fire-and-forget calls to the same locally-owned worker, the first of
    /// which finds it cached or brings it up, record exactly one creation if
    /// the worker was absent at the start and none if it was cached.
    pub proof fn lemma_router_creates_at_most_once(
        pre: Self,
        mid: Self,
        post: Self,
        worker_id: WorkerId,
        first_key: Option<IdempotencyKey>,
        second_key: Option<IdempotencyKey>,
        first_name: String,
        second_name: String,
        first_params: Vec<WitValue>,
        second_params: Vec<WitValue>,
        account_id: AccountId,
        first_result: Result<(), RpcError>,
        second_result: Result<(), RpcError>,
    )
        requires
            Self::local_accept_spec(
                pre,
                mid,
                worker_id,
                first_key,
                first_name,
                first_params,
                account_id,
                first_result,
            ),
            Self::local_accept_spec(
                mid,
                post,
                worker_id,
                second_key,
                second_name,
                second_params,
                account_id,
                second_result,
            ),
            pre.active_workers.cached_keys().contains(worker_id.key())
                || pre.active_workers.spawn_outcome(worker_id, account_id) is None,
        ensures
            post.active_workers.creations() == if pre.active_workers.cached_keys().contains(
                worker_id.key(),
            ) {
                pre.active_workers.creations()
            } else {
                pre.active_workers.creations().push(worker_id)
            },
    {
        assert(mid.active_workers.cached_keys().contains(worker_id.key()));
    }

    /// Demand symmetry at the router: a call that meets the frame contract
    /// appends exactly one opened and one closed event, so a diagnostics log
    /// whose open and close counts agree still agrees after the call,
    /// however the call ended.
    pub proof fn lemma_call_preserves_demand_balance(
        pre: Self,
        post: Self,
        worker_id: WorkerId,
        outcome: Option<RpcErrorKind>,
    )
        requires
            Self::call_frame_spec(pre, post, worker_id, outcome),
            crate::demand::opened_count(pre.events.entries@) == crate::demand::closed_count(
                pre.events.entries@,
            ),
        ensures
            crate::demand::opened_count(post.events.entries@) == crate::demand::closed_count(
                post.events.entries@,
            ),
            crate::demand::opened_count(post.events.entries@) == crate::demand::opened_count(
                pre.events.entries@,
            ) + 1,
    {
        crate::demand::lemma_demand_symmetry(
            pre.events.entries@,
            worker_id,
            pre.shard_service.owns(worker_id),
            outcome,
        );
    }

    /// A router over the given collaborators, with the recovery reference
    /// still unattached, a fresh key generator, and an empty diagnostics
    /// sink. Construction order resolves the circular dependency with the
    /// recovery subsystem: construct the router first, construct recovery
    /// with a handle to it, then attach recovery before accepting calls.
    pub fn new(remote_rpc: RemoteInvocationRpc<P>, active_workers: A, engine: E, shard_service: S)
        -> (r: Self)
        ensures
            r.wf(),
            r.remote_rpc == remote_rpc,
            r.active_workers == active_workers,
            r.engine == engine,
            r.shard_service == shard_service,
            !r.recovery_management.is_attached(),
            r.key_generator.counter == 0,
            r.events.entries@ == Seq::<DiagnosticEvent>::empty(),
    {
        DirectWorkerInvocationRpc {
            remote_rpc,
            active_workers,
            engine,
            shard_service,
            recovery_management: RecoveryCell::empty(),
            key_generator: KeyGenerator::new(),
            events: DiagnosticLog::new(),
        }
    }

    /// Attaches the recovery collaborator; the first attachment wins and
    /// later ones have no effect. Nothing else of the router changes.
    pub fn set_recovery_management(&mut self, recovery_management: R)
        ensures
            final(self).recovery_management == old(self).recovery_management.after_attach(
                recovery_management,
            ),
            final(self).remote_rpc == old(self).remote_rpc,
            final(self).active_workers == old(self).active_workers,
            final(self).engine == old(self).engine,
            final(self).shard_service == old(self).shard_service,
            final(self).key_generator == old(self).key_generator,
            final(self).events == old(self).events,
    {
        self.recovery_management.attach(recovery_management);
    }

    /// Reads the recovery collaborator once attachment is established by
    /// construction order.
    pub fn recovery_management(&self) -> (r: &R)
        requires
            self.recovery_management.is_attached(),
        ensures
            *r == self.recovery_management.attached_to(),
    {
        self.recovery_management.get()
    }

    /// Reads the recovery collaborator; `None` before any attachment is the
    /// detectable failure of reading too early.
    pub fn try_recovery_management(&self) -> (r: Option<&R>)
        ensures
            match r {
                Some(h) => self.recovery_management.is_attached() && *h
                    == self.recovery_management.attached_to(),
                None => !self.recovery_management.is_attached(),
            },
    {
        self.recovery_management.try_get()
    }

    /// Opens a demand for the worker in the router's diagnostics sink.
    pub fn create_demand(&mut self, worker_id: &WorkerId) -> (d: LoggingDemand)
        ensures
            final(self).events.entries@ == old(self).events.entries@.push(
                (DiagnosticEvent::Opened { worker_id: *worker_id }),
            ),
            d.worker_id == *worker_id,
            final(self).remote_rpc == old(self).remote_rpc,
            final(self).active_workers == old(self).active_workers,
            final(self).engine == old(self).engine,
            final(self).shard_service == old(self).shard_service,
            final(self).recovery_management == old(self).recovery_management,
            final(self).key_generator == old(self).key_generator,
    {
        LoggingDemand::new(worker_id.clone(), &mut self.events)
    }

    /// Releases a demand into the router's diagnostics sink.
    pub fn release_demand(&mut self, demand: LoggingDemand)
        ensures
            final(self).events.entries@ == old(self).events.entries@.push(
                (DiagnosticEvent::Closed { worker_id: demand.worker_id }),
            ),
            final(self).remote_rpc == old(self).remote_rpc,
            final(self).active_workers == old(self).active_workers,
            final(self).engine == old(self).engine,
            final(self).shard_service == old(self).shard_service,
            final(self).recovery_management == old(self).recovery_management,
            final(self).key_generator == old(self).key_generator,
    {
        demand.release(&mut self.events);
    }

    /// Invokes the function on the worker and awaits its returned value,
    /// executing locally when this node owns the target and forwarding
    /// through the proxy otherwise.
    pub fn invoke_and_await(
        &mut self,
        worker_id: &WorkerId,
        idempotency_key: Option<IdempotencyKey>,
        function_name: String,
        function_params: Vec<WitValue>,
        account_id: &AccountId,
    ) -> (r: Result<WitValue, RpcError>)
        requires
            old(self).wf(),
            old(self).recovery_management.is_attached(),
            old(self).key_generator.counter < u64::MAX,
        ensures
            Self::call_frame_spec(
                *old(self),
                *final(self),
                *worker_id,
                match r {
                    Ok(_) => None,
                    Err(e) => Some(kind_of(e@)),
                },
            ),
            key_state_after(old(self).key_generator, final(self).key_generator, idempotency_key),
            if old(self).shard_service.owns(*worker_id) {
                Self::local_await_spec(
                    *old(self),
                    *final(self),
                    *worker_id,
                    idempotency_key,
                    function_name,
                    function_params,
                    *account_id,
                    r,
                )
            } else {
                Self::remote_await_spec(
                    *old(self),
                    *final(self),
                    *worker_id,
                    idempotency_key,
                    function_name,
                    function_params,
                    *account_id,
                    r,
                )
            },
    {
        let demand = LoggingDemand::new(worker_id.clone(), &mut self.events);
        let key = match idempotency_key {
            Some(k) => k,
            None => self.key_generator.fresh(),
        };
        let local = self.shard_service.check_worker(worker_id).is_ok();
        self.events.entries.push(
            DiagnosticEvent::Dispatched { worker_id: worker_id.clone(), local },
        );
        let r: Result<WitValue, RpcError> = if local {
            match self.active_workers.get_or_create(worker_id, account_id) {
                Ok(worker) => match self.engine.invoke_and_await(
                    worker,
                    key,
                    CallingConvention::Component,
                    function_name,
                    function_params,
                ) {
                    Ok(result_values) => Ok(WitValue::Tuple(result_values)),
                    Err(e) => Err(rpc_error_from_local(e)),
                },
                Err(e) => Err(rpc_error_from_local(e)),
            }
        } else {
            self.remote_rpc.invoke_and_await(
                worker_id,
                Some(key),
                function_name,
                function_params,
                account_id,
            )
        };
        let outcome = match &r {
            Ok(_) => None,
            Err(e) => Some(e.kind()),
        };
        self.events.entries.push(
            DiagnosticEvent::Completed { worker_id: worker_id.clone(), error: outcome },
        );
        demand.release(&mut self.events);
        r
    }

    /// Invokes the function on the worker without awaiting a returned value,
    /// executing locally when this node owns the target and forwarding
    /// through the proxy otherwise; acceptance of the call is still awaited.
    pub fn invoke(
        &mut self,
        worker_id: &WorkerId,
        idempotency_key: Option<IdempotencyKey>,
        function_name: String,
        function_params: Vec<WitValue>,
        account_id: &AccountId,
    ) -> (r: Result<(), RpcError>)
        requires
            old(self).wf(),
            old(self).recovery_management.is_attached(),
            old(self).key_generator.counter < u64::MAX,
        ensures
            Self::call_frame_spec(
                *old(self),
                *final(self),
                *worker_id,
                match r {
                    Ok(_) => None,
                    Err(e) => Some(kind_of(e@)),
                },
            ),
            key_state_after(old(self).key_generator, final(self).key_generator, idempotency_key),
            if old(self).shard_service.owns(*worker_id) {
                Self::local_accept_spec(
                    *old(self),
                    *final(self),
                    *worker_id,
                    idempotency_key,
                    function_name,
                    function_params,
                    *account_id,
                    r,
                )
            } else {
                Self::remote_accept_spec(
                    *old(self),
                    *final(self),
                    *worker_id,
                    idempotency_key,
                    function_name,
                    function_params,
                    *account_id,
                    r,
                )
            },
    {
        let demand = LoggingDemand::new(worker_id.clone(), &mut self.events);
        let key = match idempotency_key {
            Some(k) => k,
            None => self.key_generator.fresh(),
        };
        let local = self.shard_service.check_worker(worker_id).is_ok();
        self.events.entries.push(
            DiagnosticEvent::Dispatched { worker_id: worker_id.clone(), local },
        );
        let r: Result<(), RpcError> = if local {
            match self.active_workers.get_or_create(worker_id, account_id) {
                Ok(worker) => match self.engine.invoke(
                    worker,
                    key,
                    CallingConvention::Component,
                    function_name,
                    function_params,
                ) {
                    Ok(u) => Ok(u),
                    Err(e) => Err(rpc_error_from_local(e)),
                },
                Err(e) => Err(rpc_error_from_local(e)),
            }
        } else {
            self.remote_rpc.invoke(
                worker_id,
                Some(key),
                function_name,
                function_params,
                account_id,
            )
        };
        let outcome = match &r {
            Ok(_) => None,
            Err(e) => Some(e.kind()),
        };
        self.events.entries.push(
            DiagnosticEvent::Completed { worker_id: worker_id.clone(), error: outcome },
        );
        demand.release(&mut self.events);
        r
    }
}

/// Constructs the invocation services in the order that resolves the
/// router/recovery cycle: the router first, with an empty recovery
/// reference, then the recovery collaborator attached into it, so that the
/// router accepts no call before recovery is in place.
pub fn create_services<S: ShardService, A: ActiveWorkers, E: InvocationEngine, P: WorkerProxy, R>(
    shard_service: S,
    active_workers: A,
    engine: E,
    worker_proxy: P,
    recovery_management: R,
) -> (r: DirectWorkerInvocationRpc<S, A, E, P, R>)
    ensures
        r.wf(),
        r.recovery_management.is_attached(),
        r.recovery_management.attached_to() == recovery_management,
        r.remote_rpc.worker_proxy == worker_proxy,
        r.active_workers == active_workers,
        r.engine == engine,
        r.shard_service == shard_service,
        r.key_generator.counter == 0,
        r.events.entries@ == Seq::<DiagnosticEvent>::empty(),
{
    let mut rpc = DirectWorkerInvocationRpc::new(
        RemoteInvocationRpc::new(worker_proxy),
        active_workers,
        engine,
        shard_service,
    );
    rpc.set_recovery_management(recovery_management);
    rpc
}

/// The double of the router used where tests need an invocation path with no
/// behaviour of its own.
#[derive(Debug)]
pub struct RpcMock;

impl RpcMock {
    /// A fresh mock.
    pub fn new() -> (r: Self)
        ensures
            r == RpcMock,
    {
        RpcMock
    }
}

impl Default for RpcMock {
    fn default() -> (r: Self)
        ensures
            r == RpcMock,
    {
        RpcMock::new()
    }
}

} // verus!

