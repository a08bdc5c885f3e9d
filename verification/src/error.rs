//! The unified invocation-failure taxonomy and the total, deterministic
//! mappings from every lower-layer failure family into it.
//!
//! Every failure — transport-level, local runtime, or reported by the worker
//! proxy — is mapped exactly once, at the boundary where it is first
//! observed, into an [`RpcError`]; nothing upstream re-categorizes it.

use vstd::prelude::*;
use vstd::string::StringExecFns;

use crate::model::{worker_id_text, WorkerId};

verus! {

/// The four transport- and domain-agnostic failure kinds every public
/// operation of this library terminates in.
#[derive(Debug, PartialEq)]
pub enum RpcError {
    /// Transport- or serialization-level failure.
    ProtocolError { details: String },
    /// The call was understood but rejected for policy, ownership or account
    /// reasons.
    Denied { details: String },
    /// The target worker does not exist anywhere reachable.
    NotFound { details: String },
    /// The remote side failed for a reason not covered above; the catch-all.
    RemoteInternalError { details: String },
}

/// Mathematical shape of an [`RpcError`]: the same four kinds over plain
/// character data.
pub enum RpcErrorView {
    ProtocolError { details: Seq<char> },
    Denied { details: Seq<char> },
    NotFound { details: Seq<char> },
    RemoteInternalError { details: Seq<char> },
}

impl View for RpcError {
    type V = RpcErrorView;

    open spec fn view(&self) -> RpcErrorView {
        match self {
            RpcError::ProtocolError { details } => RpcErrorView::ProtocolError {
                details: details@,
            },
            RpcError::Denied { details } => RpcErrorView::Denied { details: details@ },
            RpcError::NotFound { details } => RpcErrorView::NotFound { details: details@ },
            RpcError::RemoteInternalError { details } => RpcErrorView::RemoteInternalError {
                details: details@,
            },
        }
    }
}

/// The bare kind of a failure, as diagnostics report it.
#[derive(Debug, PartialEq, Eq, Structural, Clone, Copy)]
pub enum RpcErrorKind {
    ProtocolError,
    Denied,
    NotFound,
    RemoteInternalError,
}

/// The kind of an error, details set aside.
pub open spec fn kind_of(e: RpcErrorView) -> RpcErrorKind {
    match e {
        RpcErrorView::ProtocolError { .. } => RpcErrorKind::ProtocolError,
        RpcErrorView::Denied { .. } => RpcErrorKind::Denied,
        RpcErrorView::NotFound { .. } => RpcErrorKind::NotFound,
        RpcErrorView::RemoteInternalError { .. } => RpcErrorKind::RemoteInternalError,
    }
}

impl RpcError {
    /// The error's kind, details set aside.
    pub fn kind(&self) -> (k: RpcErrorKind)
        ensures
            k == kind_of(self@),
    {
        match self {
            RpcError::ProtocolError { .. } => RpcErrorKind::ProtocolError,
            RpcError::Denied { .. } => RpcErrorKind::Denied,
            RpcError::NotFound { .. } => RpcErrorKind::NotFound,
            RpcError::RemoteInternalError { .. } => RpcErrorKind::RemoteInternalError,
        }
    }
}

/// The human-readable rendering of an error, kind prefix included.
pub open spec fn rpc_error_text(e: RpcErrorView) -> Seq<char> {
    match e {
        RpcErrorView::ProtocolError { details } => "Protocol error: "@ + details,
        RpcErrorView::Denied { details } => "Denied: "@ + details,
        RpcErrorView::NotFound { details } => "Not found: "@ + details,
        RpcErrorView::RemoteInternalError { details } => "Remote internal error: "@ + details,
    }
}

impl RpcError {
    /// Renders the error as callers see it: one of the four kinds and a
    /// human-readable detail string.
    pub fn to_message_string(&self) -> (r: String)
        ensures
            r@ == rpc_error_text(self@),
    {
        match self {
            RpcError::ProtocolError { details } => String::from_str("Protocol error: ").concat(
                details.as_str(),
            ),
            RpcError::Denied { details } => String::from_str("Denied: ").concat(details.as_str()),
            RpcError::NotFound { details } => String::from_str("Not found: ").concat(
                details.as_str(),
            ),
            RpcError::RemoteInternalError { details } => String::from_str(
                "Remote internal error: ",
            ).concat(details.as_str()),
        }
    }
}

/// A failure of the local runtime while resolving or executing a worker
/// in-process. The first three variants are the ones the taxonomy
/// distinguishes; everything else arrives as its rendered message.
#[derive(Debug, PartialEq)]
pub enum LocalError {
    /// A worker with this identity already exists where creation was implied.
    WorkerAlreadyExists { worker_id: WorkerId },
    /// The target worker does not exist locally.
    WorkerNotFound { worker_id: WorkerId },
    /// The calling principal is not a valid account.
    InvalidAccount,
    /// Any other local runtime failure, carried as its display form.
    Other { details: String },
}

/// A failure reported by the cluster-facing worker proxy.
#[derive(Debug, PartialEq)]
pub enum WorkerProxyError {
    BadRequest(Vec<String>),
    Unauthorized(String),
    LimitExceeded(String),
    NotFound(String),
    AlreadyExists(String),
    InternalError(LocalError),
}

/// Joins character sequences with a separator between neighbours.
pub open spec fn join_text(parts: Seq<Seq<char>>, sep: Seq<char>) -> Seq<char>
    decreases parts.len(),
{
    if parts.len() == 0 {
        Seq::empty()
    } else if parts.len() == 1 {
        parts[0]
    } else {
        parts[0] + sep + join_text(parts.drop_first(), sep)
    }
}

proof fn lemma_join_text_push(parts: Seq<Seq<char>>, sep: Seq<char>, last: Seq<char>)
    ensures
        join_text(parts.push(last), sep) == if parts.len() == 0 {
            last
        } else {
            join_text(parts, sep) + sep + last
        },
    decreases parts.len(),
{
    if parts.len() == 0 {
        assert(parts.push(last).len() == 1);
        assert(parts.push(last)[0] == last);
    } else if parts.len() == 1 {
        assert(parts.push(last)[0] == parts[0]);
        assert(parts.push(last).drop_first() =~= seq![last]);
        assert(join_text(parts.push(last), sep) == parts[0] + sep + join_text(seq![last], sep));
        assert(join_text(seq![last], sep) == last);
        assert(join_text(parts, sep) == parts[0]);
    } else {
        assert(parts.push(last)[0] == parts[0]);
        assert(parts.push(last).drop_first() =~= parts.drop_first().push(last));
        lemma_join_text_push(parts.drop_first(), sep, last);
        assert(join_text(parts.push(last), sep) == parts[0] + sep + join_text(
            parts.drop_first().push(last),
            sep,
        ));
        assert(join_text(parts.drop_first().push(last), sep) == join_text(parts.drop_first(), sep)
            + sep + last);
        assert(join_text(parts, sep) == parts[0] + sep + join_text(parts.drop_first(), sep));
        assert(parts[0] + sep + (join_text(parts.drop_first(), sep) + sep + last) =~= (parts[0]
            + sep + join_text(parts.drop_first(), sep)) + sep + last);
    }
}

/// Joins strings with `", "` between neighbours, as the proxy's bad-request
/// detail lines are reported.
pub fn join_comma_separated(parts: &Vec<String>) -> (r: String)
    ensures
        r@ == join_text(parts.deep_view(), ", "@),
{
    let mut r = String::new();
    let mut i: usize = 0;
    while i < parts.len()
        invariant
            i <= parts@.len(),
            r@ == join_text(parts.deep_view().take(i as int), ", "@),
        decreases parts@.len() - i,
    {
        if i > 0 {
            r.append(", ");
        }
        r.append(parts[i].as_str());
        proof {
            let views = parts.deep_view();
            assert(views.take(i as int).push(views[i as int]) =~= views.take(i + 1));
            lemma_join_text_push(views.take(i as int), ", "@, views[i as int]);
        }
        i += 1;
    }
    proof {
        assert(parts.deep_view().take(parts@.len() as int) =~= parts.deep_view());
    }
    r
}

/// Where each local runtime failure lands in the taxonomy:
/// worker-already-exists and invalid-account are policy rejections, a missing
/// worker is not-found, and everything else is a remote-internal failure.
pub open spec fn rpc_error_view_of_local(e: LocalError) -> RpcErrorView {
    match e {
        LocalError::WorkerAlreadyExists { worker_id } => RpcErrorView::Denied {
            details: "Worker "@ + worker_id_text(worker_id) + " already exists"@,
        },
        LocalError::WorkerNotFound { worker_id } => RpcErrorView::NotFound {
            details: "Worker "@ + worker_id_text(worker_id) + " not found"@,
        },
        LocalError::InvalidAccount => RpcErrorView::Denied { details: "Invalid account"@ },
        LocalError::Other { details } => RpcErrorView::RemoteInternalError { details: details@ },
    }
}

/// Where each proxy-reported failure lands in the taxonomy; an internal error
/// of the remote side is mapped recursively as a local runtime failure.
pub open spec fn rpc_error_view_of_proxy(e: WorkerProxyError) -> RpcErrorView {
    match e {
        WorkerProxyError::BadRequest(errors) => RpcErrorView::ProtocolError {
            details: join_text(errors.deep_view(), ", "@),
        },
        WorkerProxyError::Unauthorized(error) => RpcErrorView::Denied { details: error@ },
        WorkerProxyError::LimitExceeded(error) => RpcErrorView::Denied { details: error@ },
        WorkerProxyError::NotFound(error) => RpcErrorView::NotFound { details: error@ },
        WorkerProxyError::AlreadyExists(error) => RpcErrorView::Denied { details: error@ },
        WorkerProxyError::InternalError(error) => rpc_error_view_of_local(error),
    }
}

/// Maps a local runtime failure into the taxonomy.
pub fn rpc_error_from_local(e: LocalError) -> (r: RpcError)
    ensures
        r@ == rpc_error_view_of_local(e),
{
    match e {
        LocalError::WorkerAlreadyExists { worker_id } => RpcError::Denied {
            details: String::from_str("Worker ").concat(
                worker_id.to_display_string().as_str(),
            ).concat(" already exists"),
        },
        LocalError::WorkerNotFound { worker_id } => RpcError::NotFound {
            details: String::from_str("Worker ").concat(
                worker_id.to_display_string().as_str(),
            ).concat(" not found"),
        },
        LocalError::InvalidAccount => RpcError::Denied {
            details: String::from_str("Invalid account"),
        },
        LocalError::Other { details } => RpcError::RemoteInternalError { details },
    }
}

/// Maps a proxy-reported failure into the taxonomy.
pub fn rpc_error_from_proxy(e: WorkerProxyError) -> (r: RpcError)
    ensures
        r@ == rpc_error_view_of_proxy(e),
{
    match e {
        WorkerProxyError::BadRequest(errors) => RpcError::ProtocolError {
            details: join_comma_separated(&errors),
        },
        WorkerProxyError::Unauthorized(error) => RpcError::Denied { details: error },
        WorkerProxyError::LimitExceeded(error) => RpcError::Denied { details: error },
        WorkerProxyError::NotFound(error) => RpcError::NotFound { details: error },
        WorkerProxyError::AlreadyExists(error) => RpcError::Denied { details: error },
        WorkerProxyError::InternalError(error) => rpc_error_from_local(error),
    }
}

/// The taxonomy entry of a transport/connection failure, given the failure's
/// rendered message.
pub open spec fn transport_rpc_error_view(message: Seq<char>) -> RpcErrorView {
    RpcErrorView::ProtocolError { details: "gRPC Transport error: "@ + message }
}

/// The taxonomy entry of a remote status/protocol failure, given the
/// status's rendered message.
pub open spec fn status_rpc_error_view(message: Seq<char>) -> RpcErrorView {
    RpcErrorView::ProtocolError { details: "gRPC error: "@ + message }
}

/// Maps a transport/connection failure, already rendered as a message, into
/// the taxonomy.
pub fn rpc_error_from_transport_message(message: String) -> (r: RpcError)
    ensures
        r@ == transport_rpc_error_view(message@),
{
    RpcError::ProtocolError {
        details: String::from_str("gRPC Transport error: ").concat(message.as_str()),
    }
}

/// Maps a remote status/protocol failure, already rendered as a message,
/// into the taxonomy.
pub fn rpc_error_from_status_message(message: String) -> (r: RpcError)
    ensures
        r@ == status_rpc_error_view(message@),
{
    RpcError::ProtocolError { details: String::from_str("gRPC error: ").concat(message.as_str()) }
}

#[verifier::external_type_specification]
#[verifier::external_body]
pub struct ExTonicTransportError(tonic::transport::Error);

#[verifier::external_type_specification]
#[verifier::external_body]
pub struct ExTonicStatus(tonic::Status);

/// Relies on the Display implementation of tonic::transport::Error, which
/// renders exactly one of three fixed descriptions of the failure's kind.
#[verifier::external_body]
fn transport_error_message(e: &tonic::transport::Error) -> (r: String)
    ensures
        r@ == "transport error"@ || r@ == "invalid URI"@ || r@
            == "user agent is not a valid header value"@,
{
    e.to_string()
}

/// Relies on the Display implementation of tonic::Status, which renders the
/// status code, message and metadata; nothing is assumed of the rendering.
#[verifier::external_body]
fn status_message(s: &tonic::Status) -> String {
    s.to_string()
}

/// Maps a gRPC transport/connection failure into the taxonomy.
pub fn rpc_error_from_transport(e: &tonic::transport::Error) -> (r: RpcError)
    ensures
        r@ matches RpcErrorView::ProtocolError { details } && (details == transport_rpc_error_view(
            "transport error"@,
        )->ProtocolError_details || details == transport_rpc_error_view("invalid URI"@)
            ->ProtocolError_details || details == transport_rpc_error_view(
            "user agent is not a valid header value"@,
        )->ProtocolError_details),
{
    rpc_error_from_transport_message(transport_error_message(e))
}

/// Maps a gRPC status failure into the taxonomy.
pub fn rpc_error_from_status(s: &tonic::Status) -> (r: RpcError)
    ensures
        exists|m: Seq<char>| r@ == status_rpc_error_view(m),
{
    let message = status_message(s);
    let ghost m = message@;
    let r = rpc_error_from_status_message(message);
    proof {
        assert(r@ == status_rpc_error_view(m));
    }
    r
}

/// Mapping totality and determinism: every source failure the taxonomy's
/// table enumerates maps to exactly the kind the table gives, and — the
/// mappings being functions — the same failure maps the same way on every
/// application.
pub proof fn lemma_error_mapping_table(local: LocalError, proxy: WorkerProxyError)
    ensures
        local matches LocalError::WorkerAlreadyExists { .. } ==> rpc_error_view_of_local(
            local,
        ) is Denied,
        local matches LocalError::WorkerNotFound { .. } ==> rpc_error_view_of_local(
            local,
        ) is NotFound,
        local is InvalidAccount ==> rpc_error_view_of_local(local) is Denied,
        local matches LocalError::Other { .. } ==> rpc_error_view_of_local(
            local,
        ) is RemoteInternalError,
        proxy matches WorkerProxyError::BadRequest(..) ==> rpc_error_view_of_proxy(
            proxy,
        ) is ProtocolError,
        proxy matches WorkerProxyError::Unauthorized(..) ==> rpc_error_view_of_proxy(
            proxy,
        ) is Denied,
        proxy matches WorkerProxyError::LimitExceeded(..) ==> rpc_error_view_of_proxy(
            proxy,
        ) is Denied,
        proxy matches WorkerProxyError::NotFound(..) ==> rpc_error_view_of_proxy(
            proxy,
        ) is NotFound,
        proxy matches WorkerProxyError::AlreadyExists(..) ==> rpc_error_view_of_proxy(
            proxy,
        ) is Denied,
        proxy matches WorkerProxyError::InternalError(inner) ==> rpc_error_view_of_proxy(proxy)
            == rpc_error_view_of_local(inner),
        forall|m: Seq<char>| transport_rpc_error_view(m) is ProtocolError,
        forall|m: Seq<char>| status_rpc_error_view(m) is ProtocolError,
{
}

} // verus!
