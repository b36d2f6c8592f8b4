use vstd::prelude::*;
use vstd::string::StringExecFns;
use crate::sender::{decimal, decimal_u64_string};

verus! {

/// Index type used by messages in the runtime.
pub type MessageIndex = u64;

/// Identifying an entry of a journal.
pub type EntryIndex = u32;

/// Discriminator for invocation instances.
pub type InvocationId = uuid::Uuid;

#[verifier::external_type_specification]
#[verifier::external_body]
pub struct ExUuid(uuid::Uuid);

/// Relies on the `Clone` that `uuid::Uuid` derives beside `Copy`: a clone is
/// a bitwise copy.
pub assume_specification[ <uuid::Uuid as core::clone::Clone>::clone ](u: &uuid::Uuid) -> (r:
    uuid::Uuid)
    ensures
        r == *u,
;

/// Milliseconds since the unix epoch.
#[derive(Debug, Clone, Copy, PartialEq, Eq, Structural, PartialOrd, Ord, Hash)]
pub struct MillisSinceEpoch(u64);

impl MillisSinceEpoch {
    pub closed spec fn view(self) -> nat {
        self.0 as nat
    }

    pub fn new(millis_since_epoch: u64) -> (r: Self)
        ensures
            r@ == millis_since_epoch,
    {
        MillisSinceEpoch(millis_since_epoch)
    }

    pub fn as_u64(&self) -> (r: u64)
        ensures
            r == self@,
    {
        self.0
    }

    /// The display form: the count, then ` ms since epoch`.
    pub fn to_display_string(&self) -> (r: String)
        ensures
            r@ == decimal(self@ as int) + " ms since epoch"@,
    {
        let mut s = decimal_u64_string(self.0);
        s.append(" ms since epoch");
        s
    }
}

/// Id of a keyed service instance.
///
/// Services are isolated by key: there cannot be two concurrent invocations
/// for the same service instance (service name, key).
#[derive(Debug, Clone, PartialEq, Eq, Hash, PartialOrd, Ord)]
pub struct ServiceId {
    /// Identifies the service.
    pub service_name: String,
    /// Identifies the service instance for the given service name.
    pub key: Vec<u8>,
}

impl View for ServiceId {
    type V = (Seq<char>, Seq<u8>);

    open spec fn view(&self) -> (Seq<char>, Seq<u8>) {
        (self.service_name@, self.key@)
    }
}

impl ServiceId {
    pub fn new(service_name: String, key: Vec<u8>) -> (r: Self)
        ensures
            r.service_name@ == service_name@,
            r.key@ == key@,
    {
        ServiceId { service_name, key }
    }
}

/// Id of a single service invocation: a [`ServiceId`] and an [`InvocationId`]
/// that makes the id unique.
#[derive(Debug, Clone)]
pub struct ServiceInvocationId {
    /// Identifies the invoked service.
    pub service_id: ServiceId,
    /// Uniquely identifies this invocation instance.
    pub invocation_id: InvocationId,
}

impl View for ServiceInvocationId {
    type V = (Seq<char>, Seq<u8>, InvocationId);

    open spec fn view(&self) -> (Seq<char>, Seq<u8>, InvocationId) {
        (self.service_id.service_name@, self.service_id.key@, self.invocation_id)
    }
}

impl ServiceInvocationId {
    /// A copy of this id, equal to it in every field.
    pub(crate) fn copied(&self) -> (r: Self)
        ensures
            r@ == self@,
    {
        let key = self.service_id.key.clone();
        assert(key@ == self.service_id.key@);
        ServiceInvocationId {
            service_id: ServiceId { service_name: self.service_id.service_name.clone(), key },
            invocation_id: self.invocation_id,
        }
    }

    pub fn new(service_name: String, key: Vec<u8>, invocation_id: InvocationId) -> (r: Self)
        ensures
            r.service_id.service_name@ == service_name@,
            r.service_id.key@ == key@,
            r.invocation_id == invocation_id,
    {
        ServiceInvocationId { service_id: ServiceId::new(service_name, key), invocation_id }
    }
}

/// The tracing coordinates of a span, carried as plain data so that they can
/// be propagated with an invocation.
#[derive(Debug, Clone, Copy, PartialEq, Eq, Structural, Hash)]
pub struct SpanContext {
    pub trace_id: u128,
    pub span_id: u64,
    pub trace_flags: u8,
    pub is_remote: bool,
}

/// Span relation, used to propagate tracing contexts.
#[derive(Debug, Clone, Copy, PartialEq, Eq, Structural)]
pub enum SpanRelation {
    Unrelated,
    Parent(SpanContext),
    CausedBy(SpanContext),
}

/// The span information of a [`ServiceInvocation`], from which related spans
/// (children, or spans caused by it) are derived.
#[derive(Debug, Clone, Copy, PartialEq, Eq, Structural)]
pub struct ServiceInvocationSpanContext(pub SpanContext);

impl ServiceInvocationSpanContext {
    pub fn as_cause(&self) -> (r: SpanRelation)
        ensures
            r == SpanRelation::CausedBy(self.0),
    {
        SpanRelation::CausedBy(self.0)
    }

    pub fn as_parent(&self) -> (r: SpanRelation)
        ensures
            r == SpanRelation::Parent(self.0),
    {
        SpanRelation::Parent(self.0)
    }

    pub fn span_context(&self) -> (r: SpanContext)
        ensures
            r == self.0,
    {
        self.0
    }
}

/// A response for a caller.
#[derive(Debug, Clone)]
pub struct InvocationResponse {
    pub id: ServiceInvocationId,
    pub entry_index: EntryIndex,
    pub result: ResponseResult,
}

/// The outcome of an invocation: its output, or an error code and message.
#[derive(Debug, Clone)]
pub enum ResponseResult {
    Success(Vec<u8>),
    Failure(i32, String),
}

/// Identifies the ingress that received a request: its socket address, as
/// the address bits (an IPv4 address in its IPv6-mapped form) and the port.
#[derive(Debug, Clone, Copy, PartialEq, Eq, Structural, Hash)]
pub struct IngressId {
    pub ip: u128,
    pub port: u16,
}

/// Where to send the result of a service invocation.
#[derive(Debug, Clone)]
pub enum ServiceInvocationResponseSink {
    /// The invocation was created by a partition processor, which expects a response.
    PartitionProcessor { caller: ServiceInvocationId, entry_index: EntryIndex },
    /// The invocation was created by a request received at an ingress, whose
    /// client expects a response back.
    Ingress(IngressId),
    /// The invocation is fire and forget: its response can be discarded.
    NoResponse,
}

/// A service invocation.
#[derive(Debug, Clone)]
pub struct ServiceInvocation {
    pub id: ServiceInvocationId,
    pub method_name: String,
    pub argument: Vec<u8>,
    pub response_sink: ServiceInvocationResponseSink,
    pub span_context: ServiceInvocationSpanContext,
}

impl ServiceInvocation {
    /// Creates a service invocation under the span context that was started
    /// for it (see [`ServiceInvocationSpanContext`]).
    pub fn new(
        id: ServiceInvocationId,
        method_name: String,
        argument: Vec<u8>,
        response_sink: ServiceInvocationResponseSink,
        span_context: ServiceInvocationSpanContext,
    ) -> (r: Self)
        ensures
            r.id@ == id@,
            r.method_name@ == method_name@,
            r.argument@ == argument@,
            r.response_sink == response_sink,
            r.span_context == span_context,
    {
        ServiceInvocation { id, method_name, argument, response_sink, span_context }
    }
}

/// How a message was acknowledged.
#[derive(Debug, Clone, Copy, PartialEq, Eq, Structural)]
pub enum AckKind {
    Acknowledge(MessageIndex),
    Duplicate(MessageIndex),
}

/// Entry of the inbox.
#[derive(Debug, Clone)]
pub struct InboxEntry {
    pub inbox_sequence_number: MessageIndex,
    pub service_invocation: ServiceInvocation,
}

impl InboxEntry {
    pub fn new(inbox_sequence_number: MessageIndex, service_invocation: ServiceInvocation) -> (r:
        Self)
        ensures
            r.inbox_sequence_number == inbox_sequence_number,
            r.service_invocation == service_invocation,
    {
        InboxEntry { inbox_sequence_number, service_invocation }
    }
}

/// State machine representation of a [`ServiceInvocationResponseSink`].
#[derive(Debug, Clone)]
pub enum ResponseSink {
    Ingress(IngressId, ServiceInvocationId),
    PartitionProcessor(ServiceInvocationId, EntryIndex),
}

impl ResponseSink {
    /// The sink that a response is delivered to, if the invocation expects one.
    pub fn from_service_invocation_response_sink(
        service_invocation_id: &ServiceInvocationId,
        response_sink: &ServiceInvocationResponseSink,
    ) -> (r: Option<ResponseSink>)
        ensures
            match response_sink {
                ServiceInvocationResponseSink::Ingress(ingress_id) => match r {
                    Some(ResponseSink::Ingress(i, id)) => i == *ingress_id && id@
                        == service_invocation_id@,
                    _ => false,
                },
                ServiceInvocationResponseSink::NoResponse => r.is_none(),
                ServiceInvocationResponseSink::PartitionProcessor { caller, entry_index } => match r {
                    Some(ResponseSink::PartitionProcessor(id, e)) => id@ == caller@ && e
                        == *entry_index,
                    _ => false,
                },
            },
    {
        match response_sink {
            ServiceInvocationResponseSink::Ingress(ingress_id) => Some(
                ResponseSink::Ingress(*ingress_id, service_invocation_id.copied()),
            ),
            ServiceInvocationResponseSink::NoResponse => None,
            ServiceInvocationResponseSink::PartitionProcessor { caller, entry_index } => Some(
                ResponseSink::PartitionProcessor(caller.copied(), *entry_index),
            ),
        }
    }
}

} // verus!
