use vstd::prelude::*;
use vstd::string::StringExecFns;

use crate::error::UserError;
use crate::ident::{format_uuid, fresh_uuid, uuid_parse, uuid_text};

verus! {

/// The broker topic that every accepted message is published to.
pub const MESSAGES_TOPIC: &'static str = "messages";

/// Which stores hold a message once its write has finished.
#[derive(Debug, Clone, Copy, PartialEq, Eq, Structural)]
pub enum WriteOutcome {
    /// The broker transaction committed and the direct write succeeded.
    BothCommitted,
    /// The broker transaction committed; the direct write did not succeed.
    BrokerOnlyCommitted,
    /// Nothing was committed to the broker.
    Neither,
}

/// Where a write request stands.
#[derive(Debug, Clone, Copy, PartialEq, Eq, Structural)]
pub enum WritePhase {
    /// Waiting for the broker transaction to begin.
    Beginning,
    /// Waiting for the record to be published.
    Publishing,
    /// Publishing failed; waiting for the transaction to be aborted.
    Aborting,
    /// Waiting for the transaction to commit.
    Committing,
    /// Waiting for the direct-write store to take the message.
    Logging,
    /// The request has its answer.
    Finished(WriteOutcome),
}

/// What the caller reports back after performing a step.
#[derive(Debug)]
pub enum WriteEvent {
    /// The result of a broker operation; an error holds the broker's text.
    Broker(Result<(), String>),
    /// The result of the direct write.
    Log(Result<(), UserError>),
}

/// What the caller is to do next.
#[derive(Debug)]
pub enum WriteStep {
    BeginTransaction,
    Publish { topic: String, key: String, payload: String },
    AbortTransaction,
    CommitTransaction,
    LogMessage { uuid: String, message: String },
    /// The answer to the client.
    Finish(Result<(), UserError>),
}

/// The shape of an event, without its data.
#[derive(Debug, Clone, Copy, PartialEq, Eq, Structural)]
pub enum EventKind {
    BrokerOk,
    BrokerFailed,
    LogOk,
    LogFailed,
}

/// The shape of a step, without its data.
#[derive(Debug, Clone, Copy, PartialEq, Eq, Structural)]
pub enum StepKind {
    Begin,
    Publish,
    Abort,
    Commit,
    Log,
    FinishOk,
    FinishErr,
}

pub open spec fn event_kind(ev: WriteEvent) -> EventKind {
    match ev {
        WriteEvent::Broker(Ok(_)) => EventKind::BrokerOk,
        WriteEvent::Broker(Err(_)) => EventKind::BrokerFailed,
        WriteEvent::Log(Ok(_)) => EventKind::LogOk,
        WriteEvent::Log(Err(_)) => EventKind::LogFailed,
    }
}

pub open spec fn step_kind(s: WriteStep) -> StepKind {
    match s {
        WriteStep::BeginTransaction => StepKind::Begin,
        WriteStep::Publish { .. } => StepKind::Publish,
        WriteStep::AbortTransaction => StepKind::Abort,
        WriteStep::CommitTransaction => StepKind::Commit,
        WriteStep::LogMessage { .. } => StepKind::Log,
        WriteStep::Finish(Ok(_)) => StepKind::FinishOk,
        WriteStep::Finish(Err(_)) => StepKind::FinishErr,
    }
}

/// The phase that follows `p` on an event of kind `k`.
pub open spec fn next_phase(p: WritePhase, k: EventKind) -> WritePhase {
    match p {
        WritePhase::Beginning => if k == EventKind::BrokerOk {
            WritePhase::Publishing
        } else {
            WritePhase::Finished(WriteOutcome::Neither)
        },
        WritePhase::Publishing => if k == EventKind::BrokerOk {
            WritePhase::Committing
        } else if k == EventKind::BrokerFailed {
            WritePhase::Aborting
        } else {
            WritePhase::Finished(WriteOutcome::Neither)
        },
        WritePhase::Aborting => WritePhase::Finished(WriteOutcome::Neither),
        WritePhase::Committing => if k == EventKind::BrokerOk {
            WritePhase::Logging
        } else {
            WritePhase::Finished(WriteOutcome::Neither)
        },
        WritePhase::Logging => if k == EventKind::LogOk {
            WritePhase::Finished(WriteOutcome::BothCommitted)
        } else {
            WritePhase::Finished(WriteOutcome::BrokerOnlyCommitted)
        },
        WritePhase::Finished(o) => WritePhase::Finished(o),
    }
}

/// The kind of step that is asked for when a request in phase `p` gets an
/// event of kind `k`.
pub open spec fn next_step_kind(p: WritePhase, k: EventKind) -> StepKind {
    match p {
        WritePhase::Beginning => if k == EventKind::BrokerOk {
            StepKind::Publish
        } else {
            StepKind::FinishErr
        },
        WritePhase::Publishing => if k == EventKind::BrokerOk {
            StepKind::Commit
        } else if k == EventKind::BrokerFailed {
            StepKind::Abort
        } else {
            StepKind::FinishErr
        },
        WritePhase::Aborting => StepKind::FinishErr,
        WritePhase::Committing => if k == EventKind::BrokerOk {
            StepKind::Log
        } else {
            StepKind::FinishErr
        },
        WritePhase::Logging => if k == EventKind::LogOk {
            StepKind::FinishOk
        } else {
            StepKind::FinishErr
        },
        WritePhase::Finished(_) => StepKind::FinishErr,
    }
}

/// The error that a finishing step reports, given the request's phase, the
/// event, and the error met while publishing. After a failed publish the
/// publish error is reported, whatever the abort gave.
pub open spec fn finish_error(
    p: WritePhase,
    ev: WriteEvent,
    publish_error: Seq<char>,
    e: UserError,
) -> bool {
    match (p, ev) {
        (WritePhase::Aborting, WriteEvent::Broker(_)) => e matches UserError::KafkaError(m)
            && m@ == publish_error,
        (WritePhase::Beginning, WriteEvent::Broker(Err(b)))
        | (WritePhase::Committing, WriteEvent::Broker(Err(b))) => e matches UserError::KafkaError(
            m,
        ) && m@ == b@,
        (WritePhase::Logging, WriteEvent::Log(Err(u))) => e == u,
        _ => e is ServiceInternalError,
    }
}

/// One write request: publish the message in a broker transaction, then hand
/// it to the direct-write store.
pub struct WritePath {
    pub id: u128,
    pub body: String,
    pub phase: WritePhase,
    /// What the broker said when publishing failed.
    pub publish_error: String,
}

impl WritePath {
    /// A request for `body` under the identifier `id`, before its transaction
    /// begins.
    pub fn with_id(id: u128, body: String) -> (r: WritePath)
        ensures
            r.id == id,
            r.body@ == body@,
            r.phase == WritePhase::Beginning,
    {
        WritePath { id, body, phase: WritePhase::Beginning, publish_error: String::new() }
    }

    /// A request for `body` under a fresh random identifier.
    pub fn new(body: String) -> (r: WritePath)
        ensures
            r.body@ == body@,
            r.phase == WritePhase::Beginning,
    {
        WritePath::with_id(fresh_uuid(), body)
    }

    /// The step that every request starts with.
    pub fn first_step(&self) -> (r: WriteStep)
        ensures
            r is BeginTransaction,
    {
        WriteStep::BeginTransaction
    }

    /// Which stores hold the message, once the request has finished.
    pub fn outcome(&self) -> (r: Option<WriteOutcome>)
        ensures
            r == (match self.phase {
                WritePhase::Finished(o) => Some(o),
                _ => None,
            }),
    {
        match self.phase {
            WritePhase::Finished(o) => Some(o),
            _ => None,
        }
    }

    /// Takes the result of the last step and says what to do next.
    pub fn step(&mut self, ev: WriteEvent) -> (r: WriteStep)
        ensures
            final(self).id == old(self).id,
            final(self).body@ == old(self).body@,
            final(self).phase == next_phase(old(self).phase, event_kind(ev)),
            step_kind(r) == next_step_kind(old(self).phase, event_kind(ev)),
            r matches WriteStep::Publish { topic, key, payload } ==> topic@ == MESSAGES_TOPIC@
                && key@ == uuid_text(old(self).id) && payload@ == old(self).body@,
            r matches WriteStep::LogMessage { uuid, message } ==> uuid@ == uuid_text(old(self).id)
                && uuid_parse(uuid@) == Some(old(self).id) && message@ == old(self).body@,
            r matches WriteStep::Finish(Err(e)) ==> finish_error(
                old(self).phase,
                ev,
                old(self).publish_error@,
                e,
            ),
            old(self).phase == WritePhase::Publishing ==> (ev matches WriteEvent::Broker(Err(b))
                ==> final(self).publish_error@ == b@),
    {
        match (self.phase, ev) {
            (WritePhase::Beginning, WriteEvent::Broker(Ok(_))) => {
                self.phase = WritePhase::Publishing;
                proof {
                    reveal_strlit("messages");
                }
                WriteStep::Publish {
                    topic: String::from_str(MESSAGES_TOPIC),
                    key: format_uuid(self.id),
                    payload: self.body.clone(),
                }
            },
            (WritePhase::Beginning, WriteEvent::Broker(Err(b))) => {
                self.phase = WritePhase::Finished(WriteOutcome::Neither);
                WriteStep::Finish(Err(UserError::KafkaError(b)))
            },
            (WritePhase::Publishing, WriteEvent::Broker(Ok(_))) => {
                self.phase = WritePhase::Committing;
                WriteStep::CommitTransaction
            },
            (WritePhase::Publishing, WriteEvent::Broker(Err(b))) => {
                self.phase = WritePhase::Aborting;
                self.publish_error = b;
                WriteStep::AbortTransaction
            },
            (WritePhase::Aborting, WriteEvent::Broker(_)) => {
                // whether or not the abort went through, the publish error is reported
                self.phase = WritePhase::Finished(WriteOutcome::Neither);
                WriteStep::Finish(Err(UserError::KafkaError(self.publish_error.clone())))
            },
            (WritePhase::Committing, WriteEvent::Broker(Ok(_))) => {
                self.phase = WritePhase::Logging;
                WriteStep::LogMessage { uuid: format_uuid(self.id), message: self.body.clone() }
            },
            (WritePhase::Committing, WriteEvent::Broker(Err(b))) => {
                self.phase = WritePhase::Finished(WriteOutcome::Neither);
                WriteStep::Finish(Err(UserError::KafkaError(b)))
            },
            (WritePhase::Logging, WriteEvent::Log(Ok(_))) => {
                self.phase = WritePhase::Finished(WriteOutcome::BothCommitted);
                WriteStep::Finish(Ok(()))
            },
            (WritePhase::Logging, WriteEvent::Log(Err(u))) => {
                self.phase = WritePhase::Finished(WriteOutcome::BrokerOnlyCommitted);
                WriteStep::Finish(Err(u))
            },
            (WritePhase::Logging, WriteEvent::Broker(_)) => {
                self.phase = WritePhase::Finished(WriteOutcome::BrokerOnlyCommitted);
                WriteStep::Finish(Err(UserError::ServiceInternalError))
            },
            (WritePhase::Finished(o), _) => {
                WriteStep::Finish(Err(UserError::ServiceInternalError))
            },
            (_, WriteEvent::Log(_)) => {
                self.phase = WritePhase::Finished(WriteOutcome::Neither);
                WriteStep::Finish(Err(UserError::ServiceInternalError))
            },
        }
    }
}

} // verus!
