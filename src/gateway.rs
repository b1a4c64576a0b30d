use vstd::prelude::*;
use vstd::string::StringExecFns;

use crate::error::UserError;
use crate::ingest::{pairs_view, BOOTSTRAP_SERVERS};

verus! {

/// Seconds that committing or aborting a transaction may take.
pub const TRANSACTION_TIMEOUT_SECS: u64 = 10;

/// The settings of the gateway's producer: idempotent, with a fixed
/// transactional identity.
pub open spec fn producer_settings_spec() -> Seq<(Seq<char>, Seq<char>)> {
    seq![
        ("bootstrap.servers"@, BOOTSTRAP_SERVERS@),
        ("enable.idempotence"@, "true"@),
        ("transactional.id"@, "facade"@),
    ]
}

pub fn producer_settings() -> (r: Vec<(String, String)>)
    ensures
        pairs_view(r@) == producer_settings_spec(),
{
    let mut r: Vec<(String, String)> = Vec::new();
    r.push((String::from_str("bootstrap.servers"), String::from_str(BOOTSTRAP_SERVERS)));
    r.push((String::from_str("enable.idempotence"), String::from_str("true")));
    r.push((String::from_str("transactional.id"), String::from_str("facade")));
    assert(pairs_view(r@) =~= producer_settings_spec());
    r
}

/// The body of a read: the broker-consuming store's text, then the
/// direct-write store's text, each under its heading.
pub open spec fn read_body(sequence: Seq<char>, logged: Seq<char>) -> Seq<char> {
    "Message sequence:\n"@ + sequence + "\nLogged messages:\n"@ + logged + "\n"@
}

/// Composes the reply to a read from what the two stores returned.
pub fn get_messages(sequence: &str, logged: &str) -> (r: String)
    ensures
        r@ == read_body(sequence@, logged@),
{
    String::from_str("Message sequence:\n").concat(sequence).concat("\nLogged messages:\n").concat(
        logged,
    ).concat("\n")
}

/// Where a read request stands.
#[derive(Debug, Clone, Copy, PartialEq, Eq, Structural)]
pub enum ReadPhase {
    /// Waiting for the broker-consuming store.
    FetchingSequence,
    /// Waiting for the direct-write store.
    FetchingLogged,
    /// The request has its answer.
    Finished,
}

/// What the caller is to do next.
#[derive(Debug)]
pub enum ReadStep {
    FetchSequence,
    FetchLogged,
    /// The answer to the client.
    Finish(Result<String, UserError>),
}

/// One read request: ask both stores in turn and compose their answers.
pub struct ReadPath {
    pub phase: ReadPhase,
    /// What the broker-consuming store returned.
    pub sequence: String,
}

impl ReadPath {
    pub fn new() -> (r: ReadPath)
        ensures
            r.phase == ReadPhase::FetchingSequence,
    {
        ReadPath { phase: ReadPhase::FetchingSequence, sequence: String::new() }
    }

    /// The step that every read starts with.
    pub fn first_step(&self) -> (r: ReadStep)
        ensures
            r is FetchSequence,
    {
        ReadStep::FetchSequence
    }

    /// Takes a store's answer and says what to do next. A failed answer
    /// ends the read with that failure.
    pub fn step(&mut self, reply: Result<String, UserError>) -> (r: ReadStep)
        ensures
            match old(self).phase {
                ReadPhase::FetchingSequence => match reply {
                    Ok(s) => r is FetchLogged && final(self).phase == ReadPhase::FetchingLogged
                        && final(self).sequence@ == s@,
                    Err(e) => r == ReadStep::Finish(Err(e)) && final(self).phase
                        == ReadPhase::Finished,
                },
                ReadPhase::FetchingLogged => final(self).phase == ReadPhase::Finished && match reply {
                    Ok(l) => r matches ReadStep::Finish(Ok(body)) && body@ == read_body(
                        old(self).sequence@,
                        l@,
                    ),
                    Err(e) => r == ReadStep::Finish(Err(e)),
                },
                ReadPhase::Finished => final(self).phase == ReadPhase::Finished && r
                    == ReadStep::Finish(Err(UserError::ServiceInternalError)),
            },
    {
        match self.phase {
            ReadPhase::FetchingSequence => match reply {
                Ok(s) => {
                    self.phase = ReadPhase::FetchingLogged;
                    self.sequence = s;
                    ReadStep::FetchLogged
                },
                Err(e) => {
                    self.phase = ReadPhase::Finished;
                    ReadStep::Finish(Err(e))
                },
            },
            ReadPhase::FetchingLogged => {
                self.phase = ReadPhase::Finished;
                match reply {
                    Ok(l) => ReadStep::Finish(Ok(get_messages(self.sequence.as_str(), l.as_str()))),
                    Err(e) => ReadStep::Finish(Err(e)),
                }
            },
            ReadPhase::Finished => ReadStep::Finish(Err(UserError::ServiceInternalError)),
        }
    }
}

/// The two stores that the gateway calls.
#[derive(Debug, Clone, Copy, PartialEq, Eq, Structural)]
pub enum Service {
    /// The broker-consuming store.
    Messaging,
    /// The direct-write store.
    Logging,
}

pub open spec fn base_url(service: Service) -> Seq<char> {
    match service {
        Service::Messaging => "http://nginx-messages-proxy-service:"@,
        Service::Logging => "http://nginx-logging-proxy-service:"@,
    }
}

pub open spec fn port_variable_spec(service: Service) -> Seq<char> {
    match service {
        Service::Messaging => "NGINX_MESSAGES_SERVICE_PORT"@,
        Service::Logging => "NGINX_LOGGING_SERVICE_PORT"@,
    }
}

/// The configuration entry that holds the port of `service`.
pub fn port_variable(service: Service) -> (r: String)
    ensures
        r@ == port_variable_spec(service),
{
    match service {
        Service::Messaging => String::from_str("NGINX_MESSAGES_SERVICE_PORT"),
        Service::Logging => String::from_str("NGINX_LOGGING_SERVICE_PORT"),
    }
}

/// The address of `service`, from its configured port; a missing port is a
/// connection error.
pub fn endpoint(service: Service, port: Option<String>) -> (r: Result<String, UserError>)
    ensures
        match port {
            Some(p) => r matches Ok(u) && u@ == base_url(service) + p@,
            None => r == Err::<String, UserError>(UserError::ServiceConnectionError),
        },
{
    match port {
        Some(p) => {
            let base = match service {
                Service::Messaging => String::from_str("http://nginx-messages-proxy-service:"),
                Service::Logging => String::from_str("http://nginx-logging-proxy-service:"),
            };
            Ok(base.concat(p.as_str()))
        },
        None => Err(UserError::ServiceConnectionError),
    }
}

/// The state of the gateway's connection to one service.
#[derive(Debug)]
pub enum ConnectionState<H> {
    Unconnected,
    Connected(H),
    /// The last attempt failed, for this reason.
    Failed(String),
}

/// How to get a client for a service.
#[derive(Debug)]
pub enum ConnectPlan {
    /// Use the cached client.
    UseCached,
    /// Connect to this address.
    Dial(String),
}

impl<H> ConnectionState<H> {
    pub fn new() -> (r: ConnectionState<H>)
        ensures
            r is Unconnected,
    {
        ConnectionState::Unconnected
    }

    pub fn is_connected(&self) -> (r: bool)
        ensures
            r == self is Connected,
    {
        match self {
            ConnectionState::Connected(_) => true,
            _ => false,
        }
    }

    /// A cached client is used as it is; otherwise the service is dialled at
    /// the address made from its configured port.
    pub fn plan(&self, service: Service, port: Option<String>) -> (r: Result<ConnectPlan, UserError>)
        ensures
            self is Connected ==> r matches Ok(ConnectPlan::UseCached),
            !(self is Connected) ==> match port {
                Some(p) => r matches Ok(ConnectPlan::Dial(u)) && u@ == base_url(service) + p@,
                None => r == Err::<ConnectPlan, UserError>(UserError::ServiceConnectionError),
            },
    {
        if self.is_connected() {
            Ok(ConnectPlan::UseCached)
        } else {
            match endpoint(service, port) {
                Ok(u) => Ok(ConnectPlan::Dial(u)),
                Err(e) => Err(e),
            }
        }
    }

    /// Takes the result of dialling: a client is cached, a failure is kept
    /// and reported as a connection error.
    pub fn install(&mut self, conn: Result<H, String>) -> (r: Result<(), UserError>)
        ensures
            match conn {
                Ok(h) => r is Ok && *final(self) == ConnectionState::Connected(h),
                Err(m) => r == Err::<(), UserError>(UserError::ServiceConnectionError)
                    && *final(self) == ConnectionState::<H>::Failed(m),
            },
    {
        match conn {
            Ok(h) => {
                *self = ConnectionState::Connected(h);
                Ok(())
            },
            Err(m) => {
                *self = ConnectionState::Failed(m);
                Err(UserError::ServiceConnectionError)
            },
        }
    }

    /// The cached client; its absence is an internal error.
    pub fn handle(&self) -> (r: Result<&H, UserError>)
        ensures
            match self {
                ConnectionState::Connected(h) => r == Ok::<&H, UserError>(h),
                _ => r == Err::<&H, UserError>(UserError::ServiceInternalError),
            },
    {
        match self {
            ConnectionState::Connected(h) => Ok(h),
            _ => Err(UserError::ServiceInternalError),
        }
    }
}

/// The gateway's connections to the two stores.
#[derive(Debug)]
pub struct ServiceClients<M, L> {
    pub messaging_client: ConnectionState<M>,
    pub logging_client: ConnectionState<L>,
}

impl<M, L> ServiceClients<M, L> {
    pub fn new() -> (r: ServiceClients<M, L>)
        ensures
            r.messaging_client is Unconnected,
            r.logging_client is Unconnected,
    {
        ServiceClients {
            messaging_client: ConnectionState::new(),
            logging_client: ConnectionState::new(),
        }
    }
}

} // verus!
