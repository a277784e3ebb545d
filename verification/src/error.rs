//! Error types of the library and the human-readable text of each.
use vstd::prelude::*;
use vstd::string::*;

verus! {

/// Errors of the client side: deploying, finding, connecting to and removing
/// the simulator pod.
#[derive(Debug)]
pub enum Error {
    ConnectionError(String),
    PodCreate(String),
    PodConnect(String),
    PodList(String),
    PodDelete(String),
}

impl Error {
    /// The text that describes the error, as it is displayed.
    pub open spec fn spec_message(&self) -> Seq<char> {
        match self {
            Error::ConnectionError(s) => "Connection failure: "@ + s@,
            Error::PodCreate(s) => "Error creating pod: "@ + s@,
            Error::PodConnect(s) => "Error connecting to pod: "@ + s@,
            Error::PodList(s) => "Failed to fetch k8s pods: "@ + s@,
            Error::PodDelete(s) => "Error deleting pod: "@ + s@,
        }
    }

    /// Renders the error as text.
    pub fn message(&self) -> (res: String)
        ensures
            res@ == self.spec_message(),
    {
        let (prefix, detail) = match self {
            Error::ConnectionError(s) => ("Connection failure: ", s),
            Error::PodCreate(s) => ("Error creating pod: ", s),
            Error::PodConnect(s) => ("Error connecting to pod: ", s),
            Error::PodList(s) => ("Failed to fetch k8s pods: ", s),
            Error::PodDelete(s) => ("Error deleting pod: ", s),
        };
        let mut res = prefix.to_owned();
        res.append(detail.as_str());
        res
    }
}

/// Errors raised while handling a message that a websocket client sent.
#[derive(Debug)]
pub enum VoodooError {
    NonStringWebsocketMessageReceived,
    /// The parser's error text, then the message as received.
    WebsocketMessageDeserializeFailed(String, String),
    HostIpNotFound,
    /// No random generator could be seeded to name new participants.
    RandomSourceUnavailable,
    /// A request to the switch failed; holds the failure's text.
    ClientError(String),
}

impl VoodooError {
    /// The text that describes the error, as it is displayed.
    pub open spec fn spec_message(&self) -> Seq<char> {
        match self {
            VoodooError::NonStringWebsocketMessageReceived =>
                "Received a non-string websocket message from client"@,
            VoodooError::WebsocketMessageDeserializeFailed(e, m) =>
                "Unrecognised message received from client. Error: "@ + e@ + ". Message: "@ + m@,
            VoodooError::HostIpNotFound => "HOST_IP environment variable not set"@,
            VoodooError::RandomSourceUnavailable => "No random source available to name participants"@,
            VoodooError::ClientError(s) => "Switch client error: "@ + s@,
        }
    }

    /// Renders the error as text.
    pub fn message(&self) -> (res: String)
        ensures
            res@ == self.spec_message(),
    {
        match self {
            VoodooError::NonStringWebsocketMessageReceived => {
                "Received a non-string websocket message from client".to_owned()
            },
            VoodooError::WebsocketMessageDeserializeFailed(e, m) => {
                let mut res = "Unrecognised message received from client. Error: ".to_owned();
                res.append(e.as_str());
                res.append(". Message: ");
                res.append(m.as_str());
                res
            },
            VoodooError::HostIpNotFound => "HOST_IP environment variable not set".to_owned(),
            VoodooError::RandomSourceUnavailable => "No random source available to name participants".to_owned(),
            VoodooError::ClientError(s) => {
                let mut res = "Switch client error: ".to_owned();
                res.append(s.as_str());
                res
            },
        }
    }

    /// Wraps the text of a failed request to the switch.
    pub fn from_client_error(text: String) -> (res: VoodooError)
        ensures
            res == VoodooError::ClientError(text),
    {
        VoodooError::ClientError(text)
    }
}

/// Errors in requests that the switch sends to the simulator's HTTP endpoints.
#[derive(Debug)]
pub enum FspiopError {
    /// The body could not be parsed; holds the parser's error text.
    MalformedRequestBody(String),
}

impl FspiopError {
    /// The text that describes the error, as it is displayed.
    pub open spec fn spec_message(&self) -> Seq<char> {
        match self {
            FspiopError::MalformedRequestBody(s) => "Request body couldn't be deserialized: "@ + s@,
        }
    }

    /// Renders the error as text.
    pub fn message(&self) -> (res: String)
        ensures
            res@ == self.spec_message(),
    {
        match self {
            FspiopError::MalformedRequestBody(s) => {
                let mut res = "Request body couldn't be deserialized: ".to_owned();
                res.append(s.as_str());
                res
            },
        }
    }
}

} // verus!
