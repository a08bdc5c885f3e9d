//! Rendering of wire-level identifiers for structured diagnostics: each
//! helper turns an optional identity into its display form, answering
//! nothing exactly when nothing was given.

use vstd::prelude::*;
use vstd::string::StringExecFns;

use crate::idempotency::{decimal_of, decimal_string};
use crate::model::{worker_id_text, AccountId, ComponentId, IdempotencyKey, WorkerId};

verus! {

/// Identity of a promise a worker awaits: the worker and the position in its
/// operation log.
#[derive(Debug)]
pub struct PromiseId {
    pub worker_id: WorkerId,
    pub oplog_idx: u64,
}

/// The display form of a promise identity.
pub open spec fn promise_id_text(p: PromiseId) -> Seq<char> {
    worker_id_text(p.worker_id) + "/"@ + decimal_of(p.oplog_idx as nat)
}

/// The calling context an invocation arrived in: at most its parent worker.
#[derive(Debug)]
pub struct InvocationContext {
    pub parent: Option<WorkerId>,
}

/// Renders a component identity, where one was given.
pub fn proto_component_id_string(component_id: &Option<ComponentId>) -> (r: Option<String>)
    ensures
        match *component_id {
            Some(c) => r matches Some(s) && s@ == c.value@,
            None => r is None,
        },
{
    match component_id {
        Some(c) => Some(c.value.clone()),
        None => None,
    }
}

/// Renders a worker identity, where one was given.
pub fn proto_worker_id_string(worker_id: &Option<WorkerId>) -> (r: Option<String>)
    ensures
        match *worker_id {
            Some(w) => r matches Some(s) && s@ == worker_id_text(w),
            None => r is None,
        },
{
    match worker_id {
        Some(w) => Some(w.to_display_string()),
        None => None,
    }
}

/// Renders an idempotency key, where one was given.
pub fn proto_idempotency_key_string(idempotency_key: &Option<IdempotencyKey>) -> (r: Option<
    String,
>)
    ensures
        match *idempotency_key {
            Some(k) => r matches Some(s) && s@ == k.value@,
            None => r is None,
        },
{
    match idempotency_key {
        Some(k) => Some(k.value.clone()),
        None => None,
    }
}

/// Renders an account identity, where one was given.
pub fn proto_account_id_string(account_id: &Option<AccountId>) -> (r: Option<String>)
    ensures
        match *account_id {
            Some(a) => r matches Some(s) && s@ == a.value@,
            None => r is None,
        },
{
    match account_id {
        Some(a) => Some(a.value.clone()),
        None => None,
    }
}

/// Renders a promise identity, where one was given.
pub fn proto_promise_id_string(promise_id: &Option<PromiseId>) -> (r: Option<String>)
    ensures
        match *promise_id {
            Some(p) => r matches Some(s) && s@ == promise_id_text(p),
            None => r is None,
        },
{
    match promise_id {
        Some(p) => Some(
            p.worker_id.to_display_string().concat("/").concat(
                decimal_string(p.oplog_idx).as_str(),
            ),
        ),
        None => None,
    }
}

/// Renders the parent worker of an invocation context, where the context and
/// its parent were given.
pub fn proto_invocation_context_parent_worker_id_string(
    invocation_context: &Option<InvocationContext>,
) -> (r: Option<String>)
    ensures
        match *invocation_context {
            Some(c) => match c.parent {
                Some(w) => r matches Some(s) && s@ == worker_id_text(w),
                None => r is None,
            },
            None => r is None,
        },
{
    match invocation_context {
        Some(c) => proto_worker_id_string(&c.parent),
        None => None,
    }
}

/// The two kinds an interface definition arrives as.
#[derive(Debug, PartialEq, Eq, Structural, Clone, Copy)]
pub enum ProtoApiDefinitionKind {
    Golem,
    OpenAPI,
}

/// Renders the kind of an interface definition, where one was given.
pub fn proto_api_definition_kind_string(kind: &Option<ProtoApiDefinitionKind>) -> (r: Option<
    String,
>)
    ensures
        match *kind {
            Some(k) => r matches Some(s) && s@ == match k {
                ProtoApiDefinitionKind::Golem => "golem"@,
                ProtoApiDefinitionKind::OpenAPI => "openapi"@,
            },
            None => r is None,
        },
{
    match kind {
        Some(ProtoApiDefinitionKind::Golem) => Some(String::from_str("golem")),
        Some(ProtoApiDefinitionKind::OpenAPI) => Some(String::from_str("openapi")),
        None => None,
    }
}

} // verus!
