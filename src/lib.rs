//! Ingestion of broker messages into the invocation engine: the shared
//! vocabulary types, the derivation of deduplication identities and event
//! attributes, and the decision logic of the consumer loops.

mod consumer_task;
mod dedup;
mod error;
mod sender;
mod subscription;
mod types;

pub use consumer_task::{
    config_keys, entry_tasks, entry_view, group_id_key, has_pair, lemma_split_at_most_once,
    pairs_unique, ClientConfig, ConsumerAction, ConsumerEvent, ConsumerLoop, ConsumerTask,
    LoopPhase, PartitionWorker, TaskId, WorkerAction, WorkerEvent, WorkerPhase,
};
pub use dedup::{sink_requires_proxying, KafkaDeduplicationId};
pub use error::Error;
pub use sender::{
    base64_url_of, bytes_or_empty, decimal, deduplication_of, event_attributes, headers_view,
    lemma_deduplication_deterministic, nat_decimal, Header, KafkaIngressEvent, KafkaMessage,
    MessageSender,
};
pub use subscription::{
    EventInvocationTargetTemplate, EventReceiverServiceType, Sink, Subscription,
};
pub use types::{
    AckKind, EntryIndex, InboxEntry, IngressId, InvocationId, InvocationResponse, MessageIndex,
    MillisSinceEpoch, ResponseResult, ResponseSink, ServiceId, ServiceInvocation,
    ServiceInvocationId, ServiceInvocationResponseSink, ServiceInvocationSpanContext, SpanContext,
    SpanRelation,
};
