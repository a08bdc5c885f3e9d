//! Scripted implementations of the collaborator interfaces, for composing
//! the router in tests and for exercising every branch of its contract.
//!
//! Each double answers from a script (a stack of prepared responses) and
//! records what reached it; an exhausted script answers with a fixed
//! failure so that the doubles, like the library, never panic.

use vstd::prelude::*;

use crate::error::{LocalError, WorkerProxyError};
use crate::model::{AccountId, CallingConvention, IdempotencyKey, WitValue, WorkerId};
use crate::services::{
    ActiveWorkers, EngineCall, InvocationEngine, NotOwnedError, ProxyCall, ShardService,
    WorkerHandle, WorkerProxy,
};

verus! {

/// A shard oracle that owns a fixed list of worker identities.
#[derive(Debug)]
pub struct StaticShardService {
    pub owned: Vec<WorkerId>,
}

impl ShardService for StaticShardService {
    open spec fn owns(&self, worker_id: WorkerId) -> bool {
        exists|i: int| 0 <= i < self.owned@.len() && self.owned@[i].key() == worker_id.key()
    }

    fn check_worker(&self, worker_id: &WorkerId) -> (r: Result<(), NotOwnedError>) {
        let mut j: usize = 0;
        while j < self.owned.len()
            invariant
                j <= self.owned@.len(),
                forall|i: int| 0 <= i < j ==> self.owned@[i].key() != worker_id.key(),
            decreases self.owned@.len() - j,
        {
            if &self.owned[j] == worker_id {
                return Ok(());
            }
            j += 1;
        }
        Err(NotOwnedError)
    }
}

/// A worker handle cache holding its contents in memory: a creation succeeds
/// unless a failure is scripted, and every creation is recorded.
#[derive(Debug)]
pub struct InMemoryActiveWorkers {
    pub cached: Vec<WorkerId>,
    pub creations: Vec<WorkerId>,
    /// Failures the next creations report, consumed from the end.
    pub spawn_failures: Vec<LocalError>,
}

impl InMemoryActiveWorkers {
    /// A cache holding the given identities, with no creation recorded and
    /// no failure scripted.
    pub fn new(cached: Vec<WorkerId>) -> (r: Self)
        ensures
            r.cached@ == cached@,
            r.creations@ == Seq::<WorkerId>::empty(),
            r.spawn_failures@ == Seq::<LocalError>::empty(),
    {
        InMemoryActiveWorkers { cached, creations: Vec::new(), spawn_failures: Vec::new() }
    }

    fn find_cached(&self, worker_id: &WorkerId) -> (found: bool)
        ensures
            found == self.cached_keys().contains(worker_id.key()),
    {
        let mut j: usize = 0;
        while j < self.cached.len()
            invariant
                j <= self.cached@.len(),
                forall|i: int| 0 <= i < j ==> self.cached@[i].key() != worker_id.key(),
            decreases self.cached@.len() - j,
        {
            if &self.cached[j] == worker_id {
                return true;
            }
            j += 1;
        }
        false
    }
}

impl ActiveWorkers for InMemoryActiveWorkers {
    open spec fn cached_keys(&self) -> Set<(Seq<char>, Seq<char>)> {
        Set::new(
            |k: (Seq<char>, Seq<char>)|
                exists|i: int| 0 <= i < self.cached@.len() && self.cached@[i].key() == k,
        )
    }

    open spec fn creations(&self) -> Seq<WorkerId> {
        self.creations@
    }

    open spec fn spawn_outcome(&self, worker_id: WorkerId, account_id: AccountId) -> Option<
        LocalError,
    > {
        if self.spawn_failures@.len() > 0 {
            Some(self.spawn_failures@.last())
        } else {
            None
        }
    }

    fn get_or_create(&mut self, worker_id: &WorkerId, account_id: &AccountId) -> (r: Result<
        WorkerHandle,
        LocalError,
    >) {
        if self.find_cached(worker_id) {
            Ok(WorkerHandle { worker_id: worker_id.clone() })
        } else {
            match self.spawn_failures.pop() {
                Some(e) => Err(e),
                None => {
                    self.cached.push(worker_id.clone());
                    self.creations.push(worker_id.clone());
                    proof {
                        let oldc = old(self).cached@;
                        assert(self.cached@ == oldc.push(*worker_id));
                        assert forall|k: (Seq<char>, Seq<char>)|
                            self.cached_keys().contains(k) <==> old(self).cached_keys().insert(
                                worker_id.key(),
                            ).contains(k) by {
                            if self.cached_keys().contains(k) {
                                let i = choose|i: int|
                                    0 <= i < self.cached@.len() && self.cached@[i].key() == k;
                                if i < oldc.len() {
                                    assert(oldc[i].key() == k);
                                } else {
                                    assert(self.cached@[i] == *worker_id);
                                }
                            }
                            if old(self).cached_keys().insert(worker_id.key()).contains(k) {
                                if k == worker_id.key() {
                                    assert(self.cached@[oldc.len() as int].key() == k);
                                } else {
                                    let i = choose|i: int|
                                        0 <= i < oldc.len() && oldc[i].key() == k;
                                    assert(self.cached@[i].key() == k);
                                }
                            }
                        }
                        assert(self.cached_keys() =~= old(self).cached_keys().insert(
                            worker_id.key(),
                        ));
                        assert(self.creations@ == old(self).creations@.push(*worker_id));
                    }
                    Ok(WorkerHandle { worker_id: worker_id.clone() })
                },
            }
        }
    }
}

/// An execution engine answering from a script and recording every call.
#[derive(Debug)]
pub struct ScriptedEngine {
    pub calls: Vec<EngineCall>,
    /// Responses to await-style executions, consumed from the end.
    pub await_responses: Vec<Result<Vec<WitValue>, LocalError>>,
    /// Responses to fire-and-forget executions, consumed from the end.
    pub accept_responses: Vec<Result<(), LocalError>>,
}

impl ScriptedEngine {
    /// An engine with the given scripts and nothing recorded yet.
    pub fn new(
        await_responses: Vec<Result<Vec<WitValue>, LocalError>>,
        accept_responses: Vec<Result<(), LocalError>>,
    ) -> (r: Self)
        ensures
            r.calls@ == Seq::<EngineCall>::empty(),
            r.await_responses@ == await_responses@,
            r.accept_responses@ == accept_responses@,
    {
        ScriptedEngine { calls: Vec::new(), await_responses, accept_responses }
    }
}

impl InvocationEngine for ScriptedEngine {
    open spec fn calls(&self) -> Seq<EngineCall> {
        self.calls@
    }

    open spec fn await_outcome(&self, call: EngineCall) -> Result<Vec<WitValue>, LocalError> {
        if self.await_responses@.len() > 0 {
            self.await_responses@.last()
        } else {
            Err(LocalError::InvalidAccount)
        }
    }

    open spec fn accept_outcome(&self, call: EngineCall) -> Result<(), LocalError> {
        if self.accept_responses@.len() > 0 {
            self.accept_responses@.last()
        } else {
            Err(LocalError::InvalidAccount)
        }
    }

    fn invoke_and_await(
        &mut self,
        worker: WorkerHandle,
        idempotency_key: IdempotencyKey,
        calling_convention: CallingConvention,
        function_name: String,
        function_params: Vec<WitValue>,
    ) -> (r: Result<Vec<WitValue>, LocalError>) {
        self.calls.push(
            EngineCall {
                worker,
                idempotency_key,
                calling_convention,
                function_name,
                function_params,
                awaits_response: true,
            },
        );
        match self.await_responses.pop() {
            Some(r) => r,
            None => Err(LocalError::InvalidAccount),
        }
    }

    fn invoke(
        &mut self,
        worker: WorkerHandle,
        idempotency_key: IdempotencyKey,
        calling_convention: CallingConvention,
        function_name: String,
        function_params: Vec<WitValue>,
    ) -> (r: Result<(), LocalError>) {
        self.calls.push(
            EngineCall {
                worker,
                idempotency_key,
                calling_convention,
                function_name,
                function_params,
                awaits_response: false,
            },
        );
        match self.accept_responses.pop() {
            Some(r) => r,
            None => Err(LocalError::InvalidAccount),
        }
    }
}

/// A worker proxy answering from a script and recording every request.
#[derive(Debug)]
pub struct ScriptedWorkerProxy {
    pub requests: Vec<ProxyCall>,
    /// Responses to await-style requests, consumed from the end.
    pub await_responses: Vec<Result<WitValue, WorkerProxyError>>,
    /// Responses to fire-and-forget requests, consumed from the end.
    pub accept_responses: Vec<Result<(), WorkerProxyError>>,
}

impl ScriptedWorkerProxy {
    /// A proxy with the given scripts and nothing recorded yet.
    pub fn new(
        await_responses: Vec<Result<WitValue, WorkerProxyError>>,
        accept_responses: Vec<Result<(), WorkerProxyError>>,
    ) -> (r: Self)
        ensures
            r.requests@ == Seq::<ProxyCall>::empty(),
            r.await_responses@ == await_responses@,
            r.accept_responses@ == accept_responses@,
    {
        ScriptedWorkerProxy { requests: Vec::new(), await_responses, accept_responses }
    }
}

impl WorkerProxy for ScriptedWorkerProxy {
    open spec fn requests(&self) -> Seq<ProxyCall> {
        self.requests@
    }

    open spec fn await_outcome(&self, call: ProxyCall) -> Result<WitValue, WorkerProxyError> {
        if self.await_responses@.len() > 0 {
            self.await_responses@.last()
        } else {
            Err(WorkerProxyError::InternalError(LocalError::InvalidAccount))
        }
    }

    open spec fn accept_outcome(&self, call: ProxyCall) -> Result<(), WorkerProxyError> {
        if self.accept_responses@.len() > 0 {
            self.accept_responses@.last()
        } else {
            Err(WorkerProxyError::InternalError(LocalError::InvalidAccount))
        }
    }

    fn invoke_and_await(
        &mut self,
        worker_id: &WorkerId,
        idempotency_key: Option<IdempotencyKey>,
        function_name: String,
        function_params: Vec<WitValue>,
        account_id: &AccountId,
    ) -> (r: Result<WitValue, WorkerProxyError>) {
        self.requests.push(
            ProxyCall {
                worker_id: worker_id.clone(),
                idempotency_key,
                function_name,
                function_params,
                account_id: account_id.clone(),
                awaits_response: true,
            },
        );
        match self.await_responses.pop() {
            Some(r) => r,
            None => Err(WorkerProxyError::InternalError(LocalError::InvalidAccount)),
        }
    }

    fn invoke(
        &mut self,
        worker_id: &WorkerId,
        idempotency_key: Option<IdempotencyKey>,
        function_name: String,
        function_params: Vec<WitValue>,
        account_id: &AccountId,
    ) -> (r: Result<(), WorkerProxyError>) {
        self.requests.push(
            ProxyCall {
                worker_id: worker_id.clone(),
                idempotency_key,
                function_name,
                function_params,
                account_id: account_id.clone(),
                awaits_response: false,
            },
        );
        match self.accept_responses.pop() {
            Some(r) => r,
            None => Err(WorkerProxyError::InternalError(LocalError::InvalidAccount)),
        }
    }
}

} // verus!
