use vstd::prelude::*;
use vstd::string::StringExecFns;
use crate::dedup::KafkaDeduplicationId;
use crate::error::Error;
use crate::subscription::Subscription;
use crate::types::{MessageIndex, SpanContext, SpanRelation};

verus! {

/// The decimal digits of a natural number.
pub open spec fn nat_decimal(n: nat) -> Seq<char>
    decreases n,
{
    let d = ((n % 10) as u8 + 48u8) as char;
    if n < 10 {
        seq![d]
    } else {
        nat_decimal(n / 10).push(d)
    }
}

/// The decimal form of an integer, with a leading `-` when it is negative.
pub open spec fn decimal(v: int) -> Seq<char> {
    if v < 0 {
        seq!['-'] + nat_decimal((-v) as nat)
    } else {
        nat_decimal(v as nat)
    }
}

/// What base64 with the URL-safe alphabet and padding makes of some bytes.
pub uninterp spec fn base64_url_of(b: Seq<u8>) -> Seq<char>;

/// Relies on `ToString` through `Display` for `i64`: the decimal digits, after
/// a `-` for a negative number.
#[verifier::external_body]
pub(crate) fn decimal_string(v: i64) -> (r: String)
    ensures
        r@ == decimal(v as int),
{
    v.to_string()
}

/// Relies on `ToString` through `Display` for `u64`: the decimal digits.
#[verifier::external_body]
pub(crate) fn decimal_u64_string(v: u64) -> (r: String)
    ensures
        r@ == decimal(v as int),
{
    v.to_string()
}

/// Relies on `base64::Engine::encode` with the `URL_SAFE` engine of
/// `base64::engine::general_purpose` (URL-safe alphabet, with padding).
#[verifier::external_body]
fn base64_url_safe(bytes: &Vec<u8>) -> (r: String)
    ensures
        r@ == base64_url_of(bytes@),
{
    base64::Engine::encode(&base64::prelude::BASE64_URL_SAFE, bytes.as_slice())
}

/// A broker message, its contents copied out of the client's buffers.
#[derive(Debug, Clone)]
pub struct KafkaMessage {
    pub topic: String,
    pub partition: i32,
    pub offset: i64,
    /// Milliseconds since the epoch, where the broker gives a time.
    pub timestamp: Option<i64>,
    pub key: Option<Vec<u8>>,
    pub payload: Option<Vec<u8>>,
}

/// An attribute of an event: a name and a value.
#[derive(Debug, Clone, PartialEq, Eq)]
pub struct Header {
    pub name: String,
    pub value: String,
}

impl View for Header {
    type V = (Seq<char>, Seq<char>);

    open spec fn view(&self) -> (Seq<char>, Seq<char>) {
        (self.name@, self.value@)
    }
}

impl Header {
    pub fn new(name: String, value: String) -> (r: Self)
        ensures
            r@ == (name@, value@),
    {
        Header { name, value }
    }
}

/// The attributes as pairs of name and value.
pub open spec fn headers_view(h: Seq<Header>) -> Seq<(Seq<char>, Seq<char>)> {
    h.map_values(|x: Header| x@)
}

/// The bytes of an optional field, empty where it is absent.
pub open spec fn bytes_or_empty(b: Option<Vec<u8>>) -> Seq<u8> {
    match b {
        Some(v) => v@,
        None => Seq::empty(),
    }
}

/// The attributes of the event made from a message, in this order: offset,
/// topic, partition, timestamp where there is one, subscription id, and the
/// key in base64 where there is one.
pub open spec fn event_attributes(msg: KafkaMessage, subscription_id: Seq<char>) -> Seq<
    (Seq<char>, Seq<char>),
> {
    seq![
        ("kafka.offset"@, decimal(msg.offset as int)),
        ("kafka.topic"@, msg.topic@),
        ("kafka.partition"@, decimal(msg.partition as int)),
    ] + match msg.timestamp {
        Some(t) => seq![("kafka.timestamp"@, decimal(t as int))],
        None => Seq::empty(),
    } + seq![("restate.subscription.id"@, subscription_id)] + match msg.key {
        Some(k) => seq![("kafka.key"@, base64_url_of(k@))],
        None => Seq::empty(),
    }
}

/// The deduplication scope of a message read by `group`, and its sequence
/// number in that scope: its offset.
pub open spec fn deduplication_of(group: Seq<char>, msg: KafkaMessage) -> (
    (Seq<char>, Seq<char>, i32),
    u64,
) {
    ((group, msg.topic@, msg.partition), msg.offset as u64)
}

/// Deriving a deduplication id depends on nothing but its inputs: one group
/// reading one topic partition always gets the same scope, and the same
/// offset there always gets the same sequence number.
pub proof fn lemma_deduplication_deterministic(group: Seq<char>, a: KafkaMessage, b: KafkaMessage)
    requires
        a.topic@ == b.topic@,
        a.partition == b.partition,
    ensures
        deduplication_of(group, a).0 == deduplication_of(group, b).0,
        a.offset == b.offset ==> deduplication_of(group, a) == deduplication_of(group, b),
{
}

/// The event handed to the dispatcher for one message.
#[derive(Debug, Clone)]
pub struct KafkaIngressEvent {
    pub subscription: Subscription,
    pub key: Vec<u8>,
    pub payload: Vec<u8>,
    pub related_span: SpanRelation,
    pub deduplication_id: KafkaDeduplicationId,
    pub deduplication_index: MessageIndex,
    pub headers: Vec<Header>,
    pub experimental_feature_kafka_ingress_next: bool,
}

/// Turns the messages of one subscription into events.
#[derive(Debug, Clone)]
pub struct MessageSender {
    subscription: Subscription,
    experimental_feature_kafka_ingress_next: bool,
    subscription_id: String,
}

impl MessageSender {
    pub closed spec fn subscription_view(&self) -> Subscription {
        self.subscription
    }

    pub closed spec fn subscription_id_view(&self) -> Seq<char> {
        self.subscription_id@
    }

    pub closed spec fn feature_view(&self) -> bool {
        self.experimental_feature_kafka_ingress_next
    }

    pub fn new(subscription: Subscription, experimental_feature_kafka_ingress_next: bool) -> (r:
        Self)
        ensures
            r.subscription_view() == subscription,
            r.subscription_id_view() == subscription.id_view(),
            r.feature_view() == experimental_feature_kafka_ingress_next,
    {
        let subscription_id = subscription.id().clone();
        MessageSender { subscription, experimental_feature_kafka_ingress_next, subscription_id }
    }

    pub fn subscription(&self) -> (r: &Subscription)
        ensures
            *r == self.subscription_view(),
    {
        &self.subscription
    }

    pub fn subscription_id(&self) -> (r: &String)
        ensures
            r@ == self.subscription_id_view(),
    {
        &self.subscription_id
    }

    /// The attributes of the event for `msg`.
    pub fn generate_events_attributes(msg: &KafkaMessage, subscription_id: &str) -> (r: Vec<
        Header,
    >)
        ensures
            headers_view(r@) == event_attributes(*msg, subscription_id@),
    {
        let mut headers: Vec<Header> = Vec::with_capacity(6);
        headers.push(Header::new(String::from_str("kafka.offset"), decimal_string(msg.offset)));
        headers.push(Header::new(String::from_str("kafka.topic"), msg.topic.clone()));
        headers.push(
            Header::new(String::from_str("kafka.partition"), decimal_string(msg.partition as i64)),
        );
        if let Some(timestamp) = msg.timestamp {
            headers.push(Header::new(String::from_str("kafka.timestamp"), decimal_string(timestamp)));
        }
        headers.push(
            Header::new(String::from_str("restate.subscription.id"), String::from_str(subscription_id)),
        );
        if let Some(key) = &msg.key {
            headers.push(Header::new(String::from_str("kafka.key"), base64_url_safe(key)));
        }
        assert(headers_view(headers@) =~= event_attributes(*msg, subscription_id@));
        headers
    }

    /// The deduplication scope of `msg` under `consumer_group`, and its offset
    /// as the sequence number in that scope.
    pub fn generate_deduplication_id(consumer_group: &str, msg: &KafkaMessage) -> (r: (
        KafkaDeduplicationId,
        MessageIndex,
    ))
        ensures
            (r.0@, r.1) == deduplication_of(consumer_group@, *msg),
    {
        (
            KafkaDeduplicationId::new(String::from_str(consumer_group), msg.topic.clone(), msg.partition),
            msg.offset as u64,
        )
    }

    /// The event for `msg`, read by `consumer_group_id`, whose ingress span
    /// has the context `span_context`.
    pub fn build_event(&self, consumer_group_id: &str, msg: &KafkaMessage, span_context: SpanContext) -> (r:
        KafkaIngressEvent)
        ensures
            r.subscription.id_view() == self.subscription_view().id_view(),
            r.subscription.sink_view() == self.subscription_view().sink_view(),
            r.key@ == bytes_or_empty(msg.key),
            r.payload@ == bytes_or_empty(msg.payload),
            r.related_span == SpanRelation::Parent(span_context),
            r.deduplication_id@ == (consumer_group_id@, msg.topic@, msg.partition),
            r.deduplication_index == msg.offset as u64,
            headers_view(r.headers@) == event_attributes(*msg, self.subscription_id_view()),
            r.experimental_feature_kafka_ingress_next == self.feature_view(),
    {
        let key = match &msg.key {
            Some(k) => k.clone(),
            None => Vec::new(),
        };
        let payload = match &msg.payload {
            Some(p) => p.clone(),
            None => Vec::new(),
        };
        let headers = Self::generate_events_attributes(msg, self.subscription_id.as_str());
        let (deduplication_id, deduplication_index) = Self::generate_deduplication_id(
            consumer_group_id,
            msg,
        );
        KafkaIngressEvent {
            subscription: self.subscription.copied(),
            key,
            payload,
            related_span: SpanRelation::Parent(span_context),
            deduplication_id,
            deduplication_index,
            headers,
            experimental_feature_kafka_ingress_next: self.experimental_feature_kafka_ingress_next,
        }
    }

    /// The error for a message that the dispatcher's mapping rejected with
    /// `cause`.
    pub fn event_error(msg: &KafkaMessage, cause: String) -> (r: Error)
        ensures
            match r {
                Error::Event { topic, partition, offset, cause: c } => topic@ == msg.topic@
                    && partition == msg.partition && offset == msg.offset && c@ == cause@,
                _ => false,
            },
    {
        Error::Event { topic: msg.topic.clone(), partition: msg.partition, offset: msg.offset, cause }
    }
}

} // verus!
