use vstd::prelude::*;
use vstd::string::StringExecFns;

use crate::ident::{format_uuid, fresh_uuid, uuid_text};
use crate::message_store::{payload_text, record_message, VecStoreGetter};
use crate::write_path::MESSAGES_TOPIC;

verus! {

/// Seconds to wait before building a new consumer after a failure.
pub const RECONNECT_BACKOFF_SECS: u64 = 10;

/// The broker's address.
pub const BOOTSTRAP_SERVERS: &'static str = "kafka-service:9092";

/// Where the consumer loop stands.
#[derive(Debug, Clone, Copy, PartialEq, Eq, Structural)]
pub enum ConsumerPhase {
    /// A consumer is being built.
    Disconnected,
    /// The consumer is subscribing to the topic.
    Subscribing,
    /// Records are being delivered.
    Streaming,
    /// Waiting out the backoff before the next consumer is built.
    BackingOff,
}

/// What the caller reports back after performing a step.
#[derive(Debug)]
pub enum ConsumerEvent {
    /// Building the consumer succeeded or failed.
    Created(Result<(), String>),
    /// Subscribing succeeded or failed.
    Subscribed(Result<(), String>),
    /// A record, with its payload if it has one, or a delivery error.
    Delivered(Result<Option<Vec<u8>>, String>),
    /// Committing a record's offset finished, well or not.
    Committed(Result<(), String>),
    /// The stream of records ended.
    StreamEnded,
    /// The backoff interval is over.
    BackoffElapsed,
}

/// What the caller is to do next.
#[derive(Debug)]
pub enum ConsumerStep {
    /// Build a consumer with these settings.
    CreateConsumer { settings: Vec<(String, String)> },
    Subscribe { topic: String },
    /// Wait for the next record.
    Poll,
    /// Commit the offset of the record just recorded, without waiting.
    Commit,
    /// Wait this many seconds.
    Wait { secs: u64 },
}

/// The settings of a consumer in the group `group_id`: offsets are committed
/// by hand, and only committed transactions are read.
pub open spec fn consumer_settings_spec(group_id: Seq<char>) -> Seq<(Seq<char>, Seq<char>)> {
    seq![
        ("bootstrap.servers"@, BOOTSTRAP_SERVERS@),
        ("group.id"@, group_id),
        ("enable.auto.commit"@, "false"@),
        ("isolation.level"@, "read_committed"@),
    ]
}

pub open spec fn pairs_view(v: Seq<(String, String)>) -> Seq<(Seq<char>, Seq<char>)> {
    v.map_values(|p: (String, String)| (p.0@, p.1@))
}

pub fn consumer_settings(group_id: &str) -> (r: Vec<(String, String)>)
    ensures
        pairs_view(r@) == consumer_settings_spec(group_id@),
{
    let mut r: Vec<(String, String)> = Vec::new();
    r.push((String::from_str("bootstrap.servers"), String::from_str(BOOTSTRAP_SERVERS)));
    r.push((String::from_str("group.id"), String::from_str(group_id)));
    r.push((String::from_str("enable.auto.commit"), String::from_str("false")));
    r.push((String::from_str("isolation.level"), String::from_str("read_committed")));
    proof {
        reveal_strlit("kafka-service:9092");
    }
    assert(pairs_view(r@) =~= consumer_settings_spec(group_id@));
    r
}

/// The phase that follows `p` on `ev`.
pub open spec fn next_consumer_phase(p: ConsumerPhase, ev: ConsumerEvent) -> ConsumerPhase {
    match (p, ev) {
        (ConsumerPhase::Disconnected, ConsumerEvent::Created(Ok(_))) => ConsumerPhase::Subscribing,
        (ConsumerPhase::Subscribing, ConsumerEvent::Subscribed(Ok(_))) => ConsumerPhase::Streaming,
        (ConsumerPhase::Streaming, ConsumerEvent::Delivered(_)) => ConsumerPhase::Streaming,
        (ConsumerPhase::Streaming, ConsumerEvent::Committed(_)) => ConsumerPhase::Streaming,
        (ConsumerPhase::BackingOff, ConsumerEvent::BackoffElapsed) => ConsumerPhase::Disconnected,
        _ => ConsumerPhase::BackingOff,
    }
}

/// The consumer group that each new consumer joins.
#[derive(Debug, Clone, Copy, PartialEq, Eq, Structural)]
pub enum GroupPolicy {
    /// A fresh random group each time: a rebuilt consumer does not resume
    /// from offsets committed before, and reads what the broker retains.
    Ephemeral,
    /// Always this group: a rebuilt consumer resumes from the group's
    /// committed offsets.
    Stable(u128),
}

/// The settings of consumers built under `policy`: for a stable group its
/// settings, for an ephemeral one those of some group.
pub open spec fn settings_follow(policy: GroupPolicy, step: ConsumerStep) -> bool {
    step matches ConsumerStep::CreateConsumer { settings } && match policy {
        GroupPolicy::Stable(g) => pairs_view(settings@) == consumer_settings_spec(uuid_text(g)),
        GroupPolicy::Ephemeral => exists|id: u128|
            pairs_view(settings@) == consumer_settings_spec(#[trigger] uuid_text(id)),
    }
}

/// The consumer loop of the broker-consuming store.
pub struct Ingestion {
    pub phase: ConsumerPhase,
    pub policy: GroupPolicy,
}

impl Ingestion {
    /// A loop about to build its first consumer, in a fresh group each time.
    pub fn new() -> (r: Ingestion)
        ensures
            r.phase == ConsumerPhase::Disconnected,
            r.policy == GroupPolicy::Ephemeral,
    {
        Ingestion { phase: ConsumerPhase::Disconnected, policy: GroupPolicy::Ephemeral }
    }

    /// A loop about to build its first consumer, under `policy`.
    pub fn with_policy(policy: GroupPolicy) -> (r: Ingestion)
        ensures
            r.phase == ConsumerPhase::Disconnected,
            r.policy == policy,
    {
        Ingestion { phase: ConsumerPhase::Disconnected, policy }
    }

    /// The settings of a new consumer, in the group that the policy gives.
    fn create_consumer(&self) -> (r: ConsumerStep)
        ensures
            settings_follow(self.policy, r),
    {
        let id = match self.policy {
            GroupPolicy::Stable(g) => g,
            GroupPolicy::Ephemeral => fresh_uuid(),
        };
        let group_id = format_uuid(id);
        ConsumerStep::CreateConsumer { settings: consumer_settings(group_id.as_str()) }
    }

    /// The step that the loop starts with.
    pub fn first_step(&self) -> (r: ConsumerStep)
        ensures
            settings_follow(self.policy, r),
    {
        self.create_consumer()
    }

    /// Takes the result of the last step, records a delivered message in
    /// `store`, and says what to do next.
    pub fn step(&mut self, ev: ConsumerEvent, store: &mut VecStoreGetter) -> (r: ConsumerStep)
        ensures
            final(self).phase == next_consumer_phase(old(self).phase, ev),
            final(self).policy == old(self).policy,
            match (old(self).phase, ev) {
                (ConsumerPhase::Streaming, ConsumerEvent::Delivered(Ok(p))) => r is Commit
                    && final(store)@ == old(store)@.push(
                    payload_text(
                        match p {
                            Some(b) => Some(b@),
                            None => None,
                        },
                    ),
                ),
                (ConsumerPhase::Streaming, ConsumerEvent::Delivered(Err(_)))
                | (ConsumerPhase::Streaming, ConsumerEvent::Committed(_)) => r is Poll
                    && final(store)@ == old(store)@,
                (ConsumerPhase::Disconnected, ConsumerEvent::Created(Ok(_))) => (r matches ConsumerStep::Subscribe { topic } && topic@ == MESSAGES_TOPIC@)
                    && final(store)@ == old(store)@,
                (ConsumerPhase::Subscribing, ConsumerEvent::Subscribed(Ok(_))) => r is Poll
                    && final(store)@ == old(store)@,
                (ConsumerPhase::BackingOff, ConsumerEvent::BackoffElapsed) => settings_follow(
                    old(self).policy,
                    r,
                ) && final(store)@ == old(store)@,
                _ => r == (ConsumerStep::Wait { secs: RECONNECT_BACKOFF_SECS })
                    && final(store)@ == old(store)@,
            },
    {
        match (self.phase, ev) {
            (ConsumerPhase::Disconnected, ConsumerEvent::Created(Ok(_))) => {
                self.phase = ConsumerPhase::Subscribing;
                proof {
                    reveal_strlit("messages");
                }
                ConsumerStep::Subscribe { topic: String::from_str(MESSAGES_TOPIC) }
            },
            (ConsumerPhase::Subscribing, ConsumerEvent::Subscribed(Ok(_))) => {
                self.phase = ConsumerPhase::Streaming;
                ConsumerStep::Poll
            },
            (ConsumerPhase::Streaming, ConsumerEvent::Delivered(Ok(p))) => {
                match p {
                    Some(b) => record_message(store, Some(b.as_slice())),
                    None => record_message(store, None),
                }
                ConsumerStep::Commit
            },
            (ConsumerPhase::Streaming, ConsumerEvent::Delivered(Err(_))) => ConsumerStep::Poll,
            (ConsumerPhase::Streaming, ConsumerEvent::Committed(_)) => ConsumerStep::Poll,
            (ConsumerPhase::BackingOff, ConsumerEvent::BackoffElapsed) => {
                self.phase = ConsumerPhase::Disconnected;
                self.create_consumer()
            },
            _ => {
                self.phase = ConsumerPhase::BackingOff;
                ConsumerStep::Wait { secs: RECONNECT_BACKOFF_SECS }
            },
        }
    }
}

} // verus!
