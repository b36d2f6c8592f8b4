use vstd::prelude::*;

verus! {

#[verifier::external_type_specification]
#[verifier::external_body]
pub struct ExKafkaError(rdkafka::error::KafkaError);

/// Why a consumer loop stopped.
#[derive(Debug)]
pub enum Error {
    /// The broker client failed: to connect, to receive, or to store an offset.
    Kafka(rdkafka::error::KafkaError),
    /// A message could not be turned into an event.
    Event { topic: String, partition: i32, offset: i64, cause: String },
    /// The downstream dispatcher is gone.
    IngressDispatcherClosed,
    /// The broker client did not split off the queue of a topic partition.
    TopicPartitionSplit(String, i32),
}

} // verus!
