use vstd::prelude::*;
use crate::error::Error;
use crate::sender::{KafkaMessage, MessageSender};
use vstd::string::StringExecFns;

verus! {

/// Identifies a spawned partition worker to the task supervisor.
#[derive(Debug, Clone, Copy, PartialEq, Eq, Structural, Hash)]
pub struct TaskId(pub u64);

/// What a consumer loop is waiting for.
#[derive(Debug, Clone, Copy, PartialEq, Eq, Structural)]
pub enum LoopPhase {
    /// The next message, or the shutdown signal.
    Receiving,
    /// The outcome of splitting off the queue of the current message's partition.
    Splitting,
    /// The outcome of spawning the worker for the split queue.
    Spawning,
    /// The outcome of forwarding the current message downstream.
    Forwarding,
    /// The outcome of storing the current message's offset.
    Storing,
    /// Nothing: the loop is over.
    Finished,
}

/// What happened since the supervisor last chose an action.
#[derive(Debug)]
pub enum ConsumerEvent {
    /// The shutdown signal fired.
    Shutdown,
    /// The shared queue delivered a message.
    Received(KafkaMessage),
    /// The shared queue failed.
    ReceiveFailed(rdkafka::error::KafkaError),
    /// The split was attempted: whether it gave a queue.
    Split(bool),
    /// The worker was spawned under this id, or the supervisor refused it.
    Spawned(Option<TaskId>),
    /// The message went through the sender.
    Forwarded(Result<(), Error>),
    /// The offset was stored with the broker client.
    OffsetStored(Result<(), rdkafka::error::KafkaError>),
}

/// What the supervisor asks to be done next.
#[derive(Debug)]
pub enum ConsumerAction {
    /// Wait for the next message or the shutdown signal.
    Receive,
    /// Split the queue of this topic partition out of the shared consumer.
    SplitPartitionQueue { topic: String, partition: i32 },
    /// Spawn a worker on the queue just split off for this topic partition.
    SpawnWorker { topic: String, partition: i32 },
    /// Send this message through the sender.
    Forward(KafkaMessage),
    /// Store this offset as consumed.
    StoreOffset { topic: String, partition: i32, offset: i64 },
    /// Cancel these workers and end with this result.
    Finish { cancel: Vec<TaskId>, result: Result<(), Error> },
}

/// An entry of the partition assignment: a topic partition and its worker.
pub open spec fn entry_view(t: (String, i32, TaskId)) -> (Seq<char>, i32, TaskId) {
    (t.0@, t.1, t.2)
}

/// The workers' ids, in the order of the entries.
pub open spec fn entry_tasks(e: Seq<(Seq<char>, i32, TaskId)>) -> Seq<TaskId> {
    e.map_values(|x: (Seq<char>, i32, TaskId)| x.2)
}

/// Whether a topic partition has an entry.
pub open spec fn has_pair(e: Seq<(Seq<char>, i32, TaskId)>, topic: Seq<char>, partition: i32) -> bool {
    exists|i: int| 0 <= i < e.len() && (#[trigger] e[i]).0 == topic && e[i].1 == partition
}

/// No topic partition has two entries.
pub open spec fn pairs_unique(e: Seq<(Seq<char>, i32, TaskId)>) -> bool {
    forall|i: int, j: int|
        0 <= i < j < e.len() ==> !((#[trigger] e[i]).0 == (#[trigger] e[j]).0 && e[i].1 == e[j].1)
}

/// The state of the supervisor loop of one consumer task: the partition
/// assignment, and the message in hand.
#[derive(Debug)]
pub struct ConsumerLoop {
    tasks: Vec<(String, i32, TaskId)>,
    phase: LoopPhase,
    held: Option<KafkaMessage>,
    topic: String,
    partition: i32,
    offset: i64,
}

impl ConsumerLoop {
    /// The partition assignment: each split topic partition with its worker,
    /// in the order the workers were spawned.
    pub closed spec fn assignment(&self) -> Seq<(Seq<char>, i32, TaskId)> {
        self.tasks@.map_values(|t: (String, i32, TaskId)| entry_view(t))
    }

    pub closed spec fn phase_view(&self) -> LoopPhase {
        self.phase
    }

    /// The topic, partition and offset of the message in hand.
    pub closed spec fn current(&self) -> (Seq<char>, i32, i64) {
        (self.topic@, self.partition, self.offset)
    }

    /// The message in hand while its partition is being split off.
    pub closed spec fn held_view(&self) -> Option<KafkaMessage> {
        self.held
    }

    pub closed spec fn wf(&self) -> bool {
        &&& pairs_unique(self.assignment())
        &&& (self.phase == LoopPhase::Splitting || self.phase == LoopPhase::Spawning) ==> {
            &&& self.held is Some
            &&& self.held->0.topic@ == self.topic@
            &&& self.held->0.partition == self.partition
            &&& self.held->0.offset == self.offset
            &&& !has_pair(self.assignment(), self.topic@, self.partition)
        }
    }

    /// Whether `ev` is an event that the loop waits for now.
    pub open spec fn expects(&self, ev: ConsumerEvent) -> bool {
        match self.phase_view() {
            LoopPhase::Receiving => ev is Shutdown || ev is Received || ev is ReceiveFailed,
            LoopPhase::Splitting => ev is Split,
            LoopPhase::Spawning => ev is Spawned,
            LoopPhase::Forwarding => ev is Forwarded,
            LoopPhase::Storing => ev is OffsetStored,
            LoopPhase::Finished => false,
        }
    }

    /// A loop that has split off no partition and waits for its first message.
    pub fn new() -> (r: Self)
        ensures
            r.wf(),
            r.assignment() == Seq::<(Seq<char>, i32, TaskId)>::empty(),
            r.phase_view() == LoopPhase::Receiving,
    {
        let r = ConsumerLoop {
            tasks: Vec::new(),
            phase: LoopPhase::Receiving,
            held: None,
            topic: String::new(),
            partition: 0,
            offset: 0,
        };
        assert(r.assignment() =~= Seq::empty());
        r
    }

    pub fn phase(&self) -> (r: LoopPhase)
        ensures
            r == self.phase_view(),
    {
        self.phase
    }

    /// The workers of the partition assignment, in the order they were spawned.
    pub fn task_ids(&self) -> (r: Vec<TaskId>)
        ensures
            r@ == entry_tasks(self.assignment()),
    {
        let mut ids: Vec<TaskId> = Vec::new();
        let mut i: usize = 0;
        while i < self.tasks.len()
            invariant
                i <= self.tasks.len(),
                ids@ == entry_tasks(self.assignment()).take(i as int),
            decreases self.tasks.len() - i,
        {
            ids.push(self.tasks[i].2);
            i = i + 1;
            assert(ids@ =~= entry_tasks(self.assignment()).take(i as int));
        }
        assert(entry_tasks(self.assignment()).take(i as int) =~= entry_tasks(self.assignment()));
        ids
    }

    /// Whether the queue of this topic partition was split off already.
    pub fn is_split(&self, topic: &String, partition: i32) -> (r: bool)
        ensures
            r == has_pair(self.assignment(), topic@, partition),
    {
        let mut i: usize = 0;
        while i < self.tasks.len()
            invariant
                i <= self.tasks.len(),
                forall|k: int|
                    0 <= k < i ==> !((#[trigger] self.assignment()[k]).0 == topic@
                        && self.assignment()[k].1 == partition),
            decreases self.tasks.len() - i,
        {
            if self.tasks[i].1 == partition && self.tasks[i].0 == *topic {
                assert(self.assignment()[i as int].0 == topic@);
                return true;
            }
            i = i + 1;
        }
        false
    }

    fn finish(&mut self, result: Result<(), Error>) -> (r: ConsumerAction)
        ensures
            final(self).tasks == old(self).tasks,
            final(self).phase == LoopPhase::Finished,
            final(self).held is None,
            final(self).topic == old(self).topic,
            final(self).partition == old(self).partition,
            final(self).offset == old(self).offset,
            r == (ConsumerAction::Finish { cancel: r->cancel, result }),
            r->cancel@ == entry_tasks(old(self).assignment()),
    {
        let cancel = self.task_ids();
        self.phase = LoopPhase::Finished;
        self.held = None;
        ConsumerAction::Finish { cancel, result }
    }

    /// The supervisor's decision on `ev`: its next state and the action to
    /// take. A message is stored as consumed only once it was forwarded; a
    /// topic partition is split off once, at its first message, which the
    /// loop forwards itself.
    pub fn step(&mut self, ev: ConsumerEvent) -> (r: ConsumerAction)
        requires
            old(self).wf(),
            old(self).expects(ev),
        ensures
            final(self).wf(),
            old(self).assignment().is_prefix_of(final(self).assignment()),
            match ev {
                ConsumerEvent::Shutdown => r == (ConsumerAction::Finish {
                    cancel: r->cancel,
                    result: Ok(()),
                }) && r->cancel@ == entry_tasks(old(self).assignment())
                    && final(self).assignment() == old(self).assignment()
                    && final(self).phase_view() == LoopPhase::Finished,
                ConsumerEvent::ReceiveFailed(e) => r == (ConsumerAction::Finish {
                    cancel: r->cancel,
                    result: Err(Error::Kafka(e)),
                }) && r->cancel@ == entry_tasks(old(self).assignment())
                    && final(self).assignment() == old(self).assignment()
                    && final(self).phase_view() == LoopPhase::Finished,
                ConsumerEvent::Received(m) => {
                    &&& final(self).assignment() == old(self).assignment()
                    &&& final(self).current() == (m.topic@, m.partition, m.offset)
                    &&& if has_pair(old(self).assignment(), m.topic@, m.partition) {
                        r == ConsumerAction::Forward(m) && final(self).phase_view()
                            == LoopPhase::Forwarding
                    } else {
                        r is SplitPartitionQueue && r->SplitPartitionQueue_topic@ == m.topic@
                            && r->SplitPartitionQueue_partition == m.partition
                            && final(self).phase_view() == LoopPhase::Splitting
                            && final(self).held_view() == Some(m)
                    }
                },
                ConsumerEvent::Split(ok) => {
                    &&& final(self).assignment() == old(self).assignment()
                    &&& if ok {
                        r is SpawnWorker && r->SpawnWorker_topic@ == old(self).current().0
                            && r->SpawnWorker_partition == old(self).current().1
                            && final(self).phase_view() == LoopPhase::Spawning
                            && final(self).current() == old(self).current()
                            && final(self).held_view() == old(self).held_view()
                    } else {
                        r is Finish && r->cancel@ == entry_tasks(old(self).assignment())
                            && (match r->result {
                            Err(Error::TopicPartitionSplit(t, p)) => t@ == old(self).current().0
                                && p == old(self).current().1,
                            _ => false,
                        }) && final(self).phase_view() == LoopPhase::Finished
                    }
                },
                ConsumerEvent::Spawned(id) => match id {
                    Some(id) => {
                        &&& final(self).assignment() == old(self).assignment().push(
                            (old(self).current().0, old(self).current().1, id),
                        )
                        &&& has_pair(final(self).assignment(), old(self).current().0, old(self).current().1)
                        &&& r == ConsumerAction::Forward(old(self).held_view()->0)
                        &&& final(self).phase_view() == LoopPhase::Forwarding
                        &&& final(self).current() == old(self).current()
                    },
                    None => r == (ConsumerAction::Finish { cancel: r->cancel, result: Ok(()) })
                        && r->cancel@ == entry_tasks(old(self).assignment())
                        && final(self).assignment() == old(self).assignment()
                        && final(self).phase_view() == LoopPhase::Finished,
                },
                ConsumerEvent::Forwarded(res) => {
                    &&& final(self).assignment() == old(self).assignment()
                    &&& match res {
                        Ok(()) => r is StoreOffset && r->StoreOffset_topic@ == old(self).current().0
                            && r->StoreOffset_partition == old(self).current().1
                            && r->StoreOffset_offset == old(self).current().2
                            && final(self).phase_view() == LoopPhase::Storing
                            && final(self).current() == old(self).current(),
                        Err(e) => r == (ConsumerAction::Finish { cancel: r->cancel, result: Err(e) })
                            && r->cancel@ == entry_tasks(old(self).assignment())
                            && final(self).phase_view() == LoopPhase::Finished,
                    }
                },
                ConsumerEvent::OffsetStored(res) => {
                    &&& final(self).assignment() == old(self).assignment()
                    &&& match res {
                        Ok(()) => r is Receive && final(self).phase_view() == LoopPhase::Receiving,
                        Err(e) => r == (ConsumerAction::Finish {
                            cancel: r->cancel,
                            result: Err(Error::Kafka(e)),
                        }) && r->cancel@ == entry_tasks(old(self).assignment())
                            && final(self).phase_view() == LoopPhase::Finished,
                    }
                },
            },
    {
        proof {
            assert(old(self).assignment().is_prefix_of(old(self).assignment())) by {
                assert(old(self).assignment().subrange(0, old(self).assignment().len() as int)
                    =~= old(self).assignment());
            }
        }
        match ev {
            ConsumerEvent::Shutdown => self.finish(Ok(())),
            ConsumerEvent::ReceiveFailed(e) => self.finish(Err(Error::Kafka(e))),
            ConsumerEvent::Received(m) => {
                self.topic = m.topic.clone();
                self.partition = m.partition;
                self.offset = m.offset;
                if self.is_split(&m.topic, m.partition) {
                    self.phase = LoopPhase::Forwarding;
                    ConsumerAction::Forward(m)
                } else {
                    let topic = m.topic.clone();
                    self.held = Some(m);
                    self.phase = LoopPhase::Splitting;
                    ConsumerAction::SplitPartitionQueue { topic, partition: self.partition }
                }
            },
            ConsumerEvent::Split(ok) => {
                if ok {
                    self.phase = LoopPhase::Spawning;
                    ConsumerAction::SpawnWorker { topic: self.topic.clone(), partition: self.partition }
                } else {
                    let topic = self.topic.clone();
                    let partition = self.partition;
                    self.finish(Err(Error::TopicPartitionSplit(topic, partition)))
                }
            },
            ConsumerEvent::Spawned(id) => match id {
                Some(id) => {
                    let ghost before = self.assignment();
                    self.tasks.push((self.topic.clone(), self.partition, id));
                    assert(self.assignment() =~= before.push((self.topic@, self.partition, id)));
                    assert(self.assignment()[before.len() as int] == (self.topic@, self.partition, id));
                    assert(before.is_prefix_of(self.assignment())) by {
                        assert(self.assignment().subrange(0, before.len() as int) =~= before);
                    }
                    let m = self.held.take().unwrap();
                    self.phase = LoopPhase::Forwarding;
                    ConsumerAction::Forward(m)
                },
                None => self.finish(Ok(())),
            },
            ConsumerEvent::Forwarded(res) => match res {
                Ok(()) => {
                    self.phase = LoopPhase::Storing;
                    ConsumerAction::StoreOffset {
                        topic: self.topic.clone(),
                        partition: self.partition,
                        offset: self.offset,
                    }
                },
                Err(e) => self.finish(Err(e)),
            },
            ConsumerEvent::OffsetStored(res) => match res {
                Ok(()) => {
                    self.phase = LoopPhase::Receiving;
                    ConsumerAction::Receive
                },
                Err(e) => self.finish(Err(Error::Kafka(e))),
            },
        }
    }
}

/// What a partition worker is waiting for.
#[derive(Debug, Clone, Copy, PartialEq, Eq, Structural)]
pub enum WorkerPhase {
    /// The next message of its queue, or cancellation.
    Receiving,
    /// The outcome of forwarding the current message.
    Forwarding,
    /// The outcome of storing the current message's offset.
    Storing,
    /// Nothing: the worker has terminated.
    Terminated,
}

/// What happened since a partition worker last chose an action.
#[derive(Debug)]
pub enum WorkerEvent {
    /// The supervisor cancelled the worker.
    Cancelled,
    /// The partition's queue delivered a message.
    Received(KafkaMessage),
    /// The partition's queue failed.
    ReceiveFailed(rdkafka::error::KafkaError),
    /// The message went through the sender.
    Forwarded(Result<(), Error>),
    /// The offset was stored with the broker client.
    OffsetStored(Result<(), rdkafka::error::KafkaError>),
}

/// What a partition worker asks to be done next.
#[derive(Debug)]
pub enum WorkerAction {
    /// Wait for the next message of the queue, or cancellation.
    Receive,
    /// Send this message through the sender.
    Forward(KafkaMessage),
    /// Store this offset of the worker's topic partition as consumed.
    StoreOffset { topic: String, partition: i32, offset: i64 },
    /// Terminate with this result.
    Terminate(Result<(), Error>),
}

/// The state of a worker that consumes the split-off queue of one topic
/// partition: it forwards each message, then stores its offset, and stops at
/// the first error or when cancelled.
#[derive(Debug)]
pub struct PartitionWorker {
    topic: String,
    partition: i32,
    phase: WorkerPhase,
    offset: i64,
}

impl PartitionWorker {
    pub closed spec fn topic_view(&self) -> Seq<char> {
        self.topic@
    }

    pub closed spec fn partition_view(&self) -> i32 {
        self.partition
    }

    pub closed spec fn phase_view(&self) -> WorkerPhase {
        self.phase
    }

    /// The offset of the message in hand.
    pub closed spec fn offset_view(&self) -> i64 {
        self.offset
    }

    /// Whether `ev` is an event that the worker waits for now.
    pub open spec fn expects(&self, ev: WorkerEvent) -> bool {
        match self.phase_view() {
            WorkerPhase::Receiving => ev is Cancelled || ev is Received || ev is ReceiveFailed,
            WorkerPhase::Forwarding => ev is Forwarded,
            WorkerPhase::Storing => ev is OffsetStored,
            WorkerPhase::Terminated => false,
        }
    }

    /// A worker for the queue of `topic` and `partition`, waiting for its
    /// first message.
    pub fn new(topic: String, partition: i32) -> (r: Self)
        ensures
            r.topic_view() == topic@,
            r.partition_view() == partition,
            r.phase_view() == WorkerPhase::Receiving,
    {
        PartitionWorker { topic, partition, phase: WorkerPhase::Receiving, offset: 0 }
    }

    pub fn phase(&self) -> (r: WorkerPhase)
        ensures
            r == self.phase_view(),
    {
        self.phase
    }

    /// The worker's decision on `ev`. An offset is stored only once its
    /// message was forwarded, and any error ends the worker.
    pub fn step(&mut self, ev: WorkerEvent) -> (r: WorkerAction)
        requires
            old(self).expects(ev),
        ensures
            final(self).topic_view() == old(self).topic_view(),
            final(self).partition_view() == old(self).partition_view(),
            match ev {
                WorkerEvent::Cancelled => r == WorkerAction::Terminate(Ok(()))
                    && final(self).phase_view() == WorkerPhase::Terminated,
                WorkerEvent::ReceiveFailed(e) => r == WorkerAction::Terminate(Err(Error::Kafka(e)))
                    && final(self).phase_view() == WorkerPhase::Terminated,
                WorkerEvent::Received(m) => r == WorkerAction::Forward(m) && final(self).phase_view()
                    == WorkerPhase::Forwarding && final(self).offset_view() == m.offset,
                WorkerEvent::Forwarded(res) => match res {
                    Ok(()) => r is StoreOffset && r->StoreOffset_topic@ == old(self).topic_view()
                        && r->StoreOffset_partition == old(self).partition_view()
                        && r->StoreOffset_offset == old(self).offset_view()
                        && final(self).phase_view() == WorkerPhase::Storing
                        && final(self).offset_view() == old(self).offset_view(),
                    Err(e) => r == WorkerAction::Terminate(Err(e)) && final(self).phase_view()
                        == WorkerPhase::Terminated,
                },
                WorkerEvent::OffsetStored(res) => match res {
                    Ok(()) => r is Receive && final(self).phase_view() == WorkerPhase::Receiving,
                    Err(e) => r == WorkerAction::Terminate(Err(Error::Kafka(e)))
                        && final(self).phase_view() == WorkerPhase::Terminated,
                },
            },
    {
        match ev {
            WorkerEvent::Cancelled => {
                self.phase = WorkerPhase::Terminated;
                WorkerAction::Terminate(Ok(()))
            },
            WorkerEvent::ReceiveFailed(e) => {
                self.phase = WorkerPhase::Terminated;
                WorkerAction::Terminate(Err(Error::Kafka(e)))
            },
            WorkerEvent::Received(m) => {
                self.offset = m.offset;
                self.phase = WorkerPhase::Forwarding;
                WorkerAction::Forward(m)
            },
            WorkerEvent::Forwarded(res) => match res {
                Ok(()) => {
                    self.phase = WorkerPhase::Storing;
                    WorkerAction::StoreOffset {
                        topic: self.topic.clone(),
                        partition: self.partition,
                        offset: self.offset,
                    }
                },
                Err(e) => {
                    self.phase = WorkerPhase::Terminated;
                    WorkerAction::Terminate(Err(e))
                },
            },
            WorkerEvent::OffsetStored(res) => match res {
                Ok(()) => {
                    self.phase = WorkerPhase::Receiving;
                    WorkerAction::Receive
                },
                Err(e) => {
                    self.phase = WorkerPhase::Terminated;
                    WorkerAction::Terminate(Err(Error::Kafka(e)))
                },
            },
        }
    }
}

/// In a sequence without duplicates, the index of an element is its place.
proof fn lemma_index_of_unique<A>(s: Seq<A>, i: int)
    requires
        s.no_duplicates(),
        0 <= i < s.len(),
    ensures
        s.index_of(s[i]) == i,
{
    assert(s.contains(s[i]));
}

/// The settings of a broker client, by name; setting a name again replaces
/// its value.
#[derive(Debug, Clone)]
pub struct ClientConfig {
    entries: Vec<(String, String)>,
}

/// The names of the settings, in the order they were first set.
pub open spec fn config_keys(e: Seq<(Seq<char>, Seq<char>)>) -> Seq<Seq<char>> {
    e.map_values(|x: (Seq<char>, Seq<char>)| x.0)
}

impl ClientConfig {
    /// The settings, each name once.
    pub closed spec fn entries_view(&self) -> Seq<(Seq<char>, Seq<char>)> {
        self.entries@.map_values(|x: (String, String)| (x.0@, x.1@))
    }

    /// The settings as a map from name to value.
    pub open spec fn settings(&self) -> Map<Seq<char>, Seq<char>> {
        Map::new(
            |k: Seq<char>| config_keys(self.entries_view()).contains(k),
            |k: Seq<char>| self.entries_view()[config_keys(self.entries_view()).index_of(k)].1,
        )
    }

    pub closed spec fn wf(&self) -> bool {
        config_keys(self.entries_view()).no_duplicates()
    }

    pub fn new() -> (r: Self)
        ensures
            r.wf(),
            r.settings() == Map::<Seq<char>, Seq<char>>::empty(),
    {
        let r = ClientConfig { entries: Vec::new() };
        assert(r.settings() =~= Map::empty());
        r
    }

    fn position(&self, key: &str) -> (r: Option<usize>)
        ensures
            match r {
                Some(i) => i < self.entries@.len() && self.entries_view()[i as int].0 == key@,
                None => !config_keys(self.entries_view()).contains(key@),
            },
    {
        let wanted = String::from_str(key);
        let mut i: usize = 0;
        while i < self.entries.len()
            invariant
                i <= self.entries.len(),
                wanted@ == key@,
                forall|k: int| 0 <= k < i ==> (#[trigger] self.entries_view()[k]).0 != key@,
            decreases self.entries.len() - i,
        {
            if self.entries[i].0 == wanted {
                return Some(i);
            }
            i = i + 1;
        }
        proof {
            if config_keys(self.entries_view()).contains(key@) {
                let k = choose|k: int|
                    0 <= k < config_keys(self.entries_view()).len()
                        && config_keys(self.entries_view())[k] == key@;
                assert(self.entries_view()[k].0 == key@);
            }
        }
        None
    }

    /// The settings, each name once, in the order they were first set.
    pub fn entries(&self) -> (r: &Vec<(String, String)>)
        ensures
            r@.map_values(|x: (String, String)| (x.0@, x.1@)) == self.entries_view(),
    {
        &self.entries
    }

    /// The value set for `key`, if any.
    pub fn get(&self, key: &str) -> (r: Option<&String>)
        requires
            self.wf(),
        ensures
            match r {
                Some(v) => self.settings().contains_key(key@) && self.settings()[key@] == v@,
                None => !self.settings().contains_key(key@),
            },
    {
        match self.position(key) {
            Some(i) => {
                proof {
                    let keys = config_keys(self.entries_view());
                    assert(keys[i as int] == key@);
                    lemma_index_of_unique(keys, i as int);
                }
                Some(&self.entries[i].1)
            },
            None => None,
        }
    }

    /// Sets `key` to `value`, replacing the value it had.
    pub fn set(&mut self, key: &str, value: &str)
        requires
            old(self).wf(),
        ensures
            final(self).wf(),
            final(self).settings() == old(self).settings().insert(key@, value@),
    {
        let ghost before = self.entries_view();
        let ghost keys0 = config_keys(before);
        let entry = (String::from_str(key), String::from_str(value));
        match self.position(key) {
            Some(i) => {
                self.entries.set(i, entry);
                assert(self.entries_view() =~= before.update(i as int, (key@, value@)));
                assert(config_keys(self.entries_view()) =~= keys0);
                proof {
                    let keys = config_keys(self.entries_view());
                    assert forall|k: Seq<char>| keys.contains(k) implies self.settings()[k]
                        == old(self).settings().insert(key@, value@)[k] by {
                        let j = choose|j: int| 0 <= j < keys.len() && keys[j] == k;
                        lemma_index_of_unique(keys, j);
                        if k == key@ {
                            assert(keys[i as int] == key@);
                            assert(j == i as int);
                        } else {
                            assert(j != i as int);
                            assert(self.entries_view()[j] == before[j]);
                        }
                    }
                    assert(keys0[i as int] == key@);
                }
            },
            None => {
                self.entries.push(entry);
                assert(self.entries_view() =~= before.push((key@, value@)));
                assert(config_keys(self.entries_view()) =~= keys0.push(key@));
                proof {
                    let keys = config_keys(self.entries_view());
                    assert(keys.no_duplicates()) by {
                        assert forall|a: int, b: int|
                            0 <= a < keys.len() && 0 <= b < keys.len() && a != b implies keys[a]
                            != keys[b] by {
                            if a == keys0.len() {
                                assert(keys0[b] == keys[b]);
                            } else if b == keys0.len() {
                                assert(keys0[a] == keys[a]);
                            }
                        }
                    }
                    assert forall|k: Seq<char>| keys.contains(k) implies self.settings()[k]
                        == old(self).settings().insert(key@, value@)[k] by {
                        let j = choose|j: int| 0 <= j < keys.len() && keys[j] == k;
                        lemma_index_of_unique(keys, j);
                        if j < keys0.len() {
                            assert(keys0[j] == k);
                            lemma_index_of_unique(keys0, j);
                        }
                    }
                    assert forall|k: Seq<char>| #[trigger] keys0.contains(k) implies keys.contains(k) by {
                        let j = choose|j: int| 0 <= j < keys0.len() && keys0[j] == k;
                        assert(keys[j] == k);
                    }
                    assert(keys[keys0.len() as int] == key@);
                }
            },
        }
        proof {
            assert(self.settings() =~= old(self).settings().insert(key@, value@));
        }
    }
}

/// A consumer of a list of topics for one subscription: its client settings,
/// its topics, and the sender its messages go through.
#[derive(Debug, Clone)]
pub struct ConsumerTask {
    client_config: ClientConfig,
    topics: Vec<String>,
    sender: MessageSender,
}

/// The setting that names the consumer group.
pub open spec fn group_id_key() -> Seq<char> {
    "group.id"@
}

impl ConsumerTask {
    pub closed spec fn config_view(&self) -> ClientConfig {
        self.client_config
    }

    pub closed spec fn topics_view(&self) -> Seq<Seq<char>> {
        self.topics@.map_values(|t: String| t@)
    }

    pub closed spec fn sender_view(&self) -> MessageSender {
        self.sender
    }

    pub fn new(client_config: ClientConfig, topics: Vec<String>, sender: MessageSender) -> (r:
        Self)
        ensures
            r.config_view() == client_config,
            r.topics_view() == topics@.map_values(|t: String| t@),
            r.sender_view() == sender,
    {
        ConsumerTask { client_config, topics, sender }
    }

    pub fn client_config(&self) -> (r: &ClientConfig)
        ensures
            *r == self.config_view(),
    {
        &self.client_config
    }

    pub fn topics(&self) -> (r: &Vec<String>)
        ensures
            r@.map_values(|t: String| t@) == self.topics_view(),
    {
        &self.topics
    }

    pub fn sender(&self) -> (r: &MessageSender)
        ensures
            *r == self.sender_view(),
    {
        &self.sender
    }

    /// The consumer group that the client settings name, if they name one.
    pub fn consumer_group_id(&self) -> (r: Option<String>)
        requires
            self.config_view().wf(),
        ensures
            match r {
                Some(g) => self.config_view().settings().contains_key(group_id_key())
                    && g@ == self.config_view().settings()[group_id_key()],
                None => !self.config_view().settings().contains_key(group_id_key()),
            },
    {
        match self.client_config.get("group.id") {
            Some(g) => Some(g.clone()),
            None => None,
        }
    }
}

/// Once a topic partition is in the assignment it stays there, so no later
/// message of it leads to a second split or a second worker.
pub proof fn lemma_split_at_most_once(
    before: Seq<(Seq<char>, i32, TaskId)>,
    after: Seq<(Seq<char>, i32, TaskId)>,
    topic: Seq<char>,
    partition: i32,
)
    requires
        before.is_prefix_of(after),
        has_pair(before, topic, partition),
    ensures
        has_pair(after, topic, partition),
{
    let i = choose|i: int|
        0 <= i < before.len() && (#[trigger] before[i]).0 == topic && before[i].1 == partition;
    assert(after[i] == before[i]);
}

} // verus!
