use vstd::prelude::*;
use crate::sender::{decimal, decimal_string};
use vstd::string::StringExecFns;
use crate::subscription::{EventInvocationTargetTemplate, EventReceiverServiceType, Sink, Subscription};

verus! {

/// The deduplication scope of a message: the consumer group that reads it and
/// the topic partition it comes from. Within one scope the offsets of the
/// messages serve as increasing sequence numbers.
#[derive(Debug, Clone, PartialEq, Eq, Hash)]
pub struct KafkaDeduplicationId {
    consumer_group: String,
    topic: String,
    partition: i32,
}

/// Whether events for this sink must route their deduplication through a
/// single place: true exactly for sinks that address a plain service.
pub open spec fn sink_requires_proxying(sink: Sink) -> bool {
    match sink {
        Sink::DeprecatedService { ty, .. } => ty == EventReceiverServiceType::Service,
        Sink::Invocation { event_invocation_target_template } => event_invocation_target_template is Service,
    }
}

impl View for KafkaDeduplicationId {
    type V = (Seq<char>, Seq<char>, i32);

    closed spec fn view(&self) -> (Seq<char>, Seq<char>, i32) {
        (self.consumer_group@, self.topic@, self.partition)
    }
}

impl KafkaDeduplicationId {
    pub fn new(consumer_group: String, topic: String, partition: i32) -> (r: Self)
        ensures
            r@ == (consumer_group@, topic@, partition),
    {
        KafkaDeduplicationId { consumer_group, topic, partition }
    }

    pub fn consumer_group(&self) -> (r: &String)
        ensures
            r@ == self@.0,
    {
        &self.consumer_group
    }

    pub fn topic(&self) -> (r: &String)
        ensures
            r@ == self@.1,
    {
        &self.topic
    }

    pub fn partition(&self) -> (r: i32)
        ensures
            r == self@.2,
    {
        self.partition
    }

    /// The display form: group, topic and partition, joined by `-`.
    pub fn to_display_string(&self) -> (r: String)
        ensures
            r@ == self@.0 + "-"@ + self@.1 + "-"@ + decimal(self@.2 as int),
    {
        let mut s = self.consumer_group.clone();
        s.append("-");
        s.append(self.topic.as_str());
        s.append("-");
        let p = decimal_string(self.partition as i64);
        s.append(p.as_str());
        s
    }

    /// Service-style receivers need their deduplication proxied, so that the
    /// ids (topic partition offsets) are not scattered over all partitions.
    pub fn requires_proxying(subscription: &Subscription) -> (r: bool)
        ensures
            r == sink_requires_proxying(subscription.sink_view()),
    {
        match subscription.sink() {
            Sink::DeprecatedService { ty: EventReceiverServiceType::Service, .. } => true,
            Sink::Invocation {
                event_invocation_target_template: EventInvocationTargetTemplate::Service { .. },
            } => true,
            _ => false,
        }
    }
}

} // verus!
