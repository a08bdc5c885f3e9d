//! Value-like identities and payloads that every invocation carries.

use vstd::prelude::*;

verus! {

/// Identifier of the component (deployable unit of code) a worker runs;
/// carried in its canonical string form.
#[derive(Debug)]
pub struct ComponentId {
    pub value: String,
}

impl PartialEq for ComponentId {
    fn eq(&self, other: &Self) -> bool {
        self.value == other.value
    }
}

impl vstd::std_specs::cmp::PartialEqSpecImpl for ComponentId {
    open spec fn obeys_eq_spec() -> bool {
        true
    }

    open spec fn eq_spec(&self, other: &Self) -> bool {
        self.value@ == other.value@
    }
}

impl Clone for ComponentId {
    fn clone(&self) -> (r: Self)
        ensures
            r == *self,
    {
        ComponentId { value: self.value.clone() }
    }
}

/// Globally unique identity of a stateful worker instance: the component it
/// runs plus the instance's name. The routing key and local cache key.
#[derive(Debug)]
pub struct WorkerId {
    pub component_id: ComponentId,
    pub worker_name: String,
}

impl PartialEq for WorkerId {
    fn eq(&self, other: &Self) -> bool {
        self.component_id == other.component_id && self.worker_name == other.worker_name
    }
}

impl vstd::std_specs::cmp::PartialEqSpecImpl for WorkerId {
    open spec fn obeys_eq_spec() -> bool {
        true
    }

    open spec fn eq_spec(&self, other: &Self) -> bool {
        self.component_id.value@ == other.component_id.value@
            && self.worker_name@ == other.worker_name@
    }
}

impl Clone for WorkerId {
    fn clone(&self) -> (r: Self)
        ensures
            r == *self,
    {
        WorkerId { component_id: self.component_id.clone(), worker_name: self.worker_name.clone() }
    }
}

/// The display form of a worker identity: component id and worker name,
/// separated by a slash.
pub open spec fn worker_id_text(w: WorkerId) -> Seq<char> {
    w.component_id.value@ + "/"@ + w.worker_name@
}

impl WorkerId {
    /// The cache/routing key of this identity, as plain character data.
    pub open spec fn key(self) -> (Seq<char>, Seq<char>) {
        (self.component_id.value@, self.worker_name@)
    }

    /// Renders the identity in its display form.
    pub fn to_display_string(&self) -> (r: String)
        ensures
            r@ == worker_id_text(*self),
    {
        self.component_id.value.clone().concat("/").concat(self.worker_name.as_str())
    }
}

/// Identity of the calling principal; threaded through every invocation and
/// never interpreted by this library.
#[derive(Debug)]
pub struct AccountId {
    pub value: String,
}

impl PartialEq for AccountId {
    fn eq(&self, other: &Self) -> bool {
        self.value == other.value
    }
}

impl vstd::std_specs::cmp::PartialEqSpecImpl for AccountId {
    open spec fn obeys_eq_spec() -> bool {
        true
    }

    open spec fn eq_spec(&self, other: &Self) -> bool {
        self.value@ == other.value@
    }
}

impl Clone for AccountId {
    fn clone(&self) -> (r: Self)
        ensures
            r == *self,
    {
        AccountId { value: self.value.clone() }
    }
}

/// Opaque token accompanying an invocation, used by the execution layer to
/// deduplicate repeated calls. Caller-supplied, or generated per call when
/// absent (see the key generator).
#[derive(Debug)]
pub struct IdempotencyKey {
    pub value: String,
}

impl PartialEq for IdempotencyKey {
    fn eq(&self, other: &Self) -> bool {
        self.value == other.value
    }
}

impl vstd::std_specs::cmp::PartialEqSpecImpl for IdempotencyKey {
    open spec fn obeys_eq_spec() -> bool {
        true
    }

    open spec fn eq_spec(&self, other: &Self) -> bool {
        self.value@ == other.value@
    }
}

impl Clone for IdempotencyKey {
    fn clone(&self) -> (r: Self)
        ensures
            r == *self,
    {
        IdempotencyKey { value: self.value.clone() }
    }
}

/// Argument/return marshalling contract used when invoking a function on a
/// worker. Direct in-process calls use the component convention.
#[derive(Debug, Clone, Copy, PartialEq, Eq, Structural)]
pub enum CallingConvention {
    Component,
}

/// A typed invocation argument or return value, as plain data.
///
/// The derived equality is for test code; verified code only moves these
/// values through, so contracts compare them as whole values.
#[derive(Debug, PartialEq)]
pub enum WitValue {
    Bool(bool),
    U64(u64),
    Text(String),
    Tuple(Vec<WitValue>),
}

} // verus!
