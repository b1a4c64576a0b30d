use vstd::prelude::*;
use vstd::string::StringExecFns;

verus! {

/// HTTP status for a dependency that could not be reached.
pub const SERVICE_UNAVAILABLE: u16 = 503;

/// HTTP status for every failure inside the gateway or behind it.
pub const INTERNAL_SERVER_ERROR: u16 = 500;

/// The failures that the gateway reports to its clients.
#[derive(Debug, Clone)]
pub enum UserError {
    /// A downstream service or the broker could not be reached or configured.
    ServiceConnectionError,
    /// An invariant of the gateway itself did not hold.
    ServiceInternalError,
    /// A downstream call answered with a failure; holds the remote message.
    GrpcError(String),
    /// Beginning, publishing, committing or aborting a transaction failed;
    /// holds the broker's description of the failure.
    KafkaError(String),
}

/// The suffix that every client-visible error message ends with.
pub open spec fn standby_suffix() -> Seq<char> {
    seq!['\n', 'P', 'l', 'e', 'a', 's', 'e', ' ', 's', 't', 'a', 'n', 'd', 'b', 'y', '\n']
}

impl UserError {
    /// The HTTP status that each kind of failure maps to.
    pub open spec fn spec_status(&self) -> u16 {
        match self {
            UserError::ServiceConnectionError => SERVICE_UNAVAILABLE,
            _ => INTERNAL_SERVER_ERROR,
        }
    }

    /// The human-readable cause, before the standby suffix.
    pub open spec fn cause(&self) -> Seq<char> {
        match self {
            UserError::ServiceConnectionError => "At least one of the required services is down"@,
            UserError::ServiceInternalError => "An error inside the facade service occured"@,
            UserError::GrpcError(m) => "A grpc error occured: "@ + m@,
            UserError::KafkaError(_) => "A kafka error occured"@,
        }
    }

    /// The text shown to the client.
    pub open spec fn text(&self) -> Seq<char> {
        self.cause() + standby_suffix()
    }

    pub fn status_code(&self) -> (r: u16)
        ensures
            r == self.spec_status(),
    {
        match self {
            UserError::ServiceConnectionError => SERVICE_UNAVAILABLE,
            UserError::ServiceInternalError => INTERNAL_SERVER_ERROR,
            UserError::GrpcError(_) => INTERNAL_SERVER_ERROR,
            UserError::KafkaError(_) => INTERNAL_SERVER_ERROR,
        }
    }

    pub fn message(&self) -> (r: String)
        ensures
            r@ == self.text(),
    {
        let cause = match self {
            UserError::ServiceConnectionError => String::from_str(
                "At least one of the required services is down",
            ),
            UserError::ServiceInternalError => String::from_str(
                "An error inside the facade service occured",
            ),
            UserError::GrpcError(m) => String::from_str("A grpc error occured: ").concat(
                m.as_str(),
            ),
            UserError::KafkaError(_) => String::from_str("A kafka error occured"),
        };
        let r = cause.concat("\nPlease standby\n");
        proof {
            reveal_strlit("\nPlease standby\n");
        }
        r
    }

    pub fn error_response(&self) -> (r: ErrorReply)
        ensures
            r.status == self.spec_status(),
            r.body@ == self.text(),
    {
        ErrorReply { status: self.status_code(), body: self.message() }
    }
}

/// A status and a plain-text body, ready to be sent to the client.
#[derive(Debug, Clone)]
pub struct ErrorReply {
    pub status: u16,
    pub body: String,
}

} // verus!
