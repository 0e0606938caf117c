//! What can go wrong while talking to the queue.
use vstd::prelude::*;

verus! {

/// A CI coordinate that a request needs.
#[derive(Clone, Copy, Debug, PartialEq, Eq, Structural)]
pub enum Coordinate {
    NodeTotal,
    NodeIndex,
    Branch,
    CommitHash,
}

/// A required coordinate could not be found.
#[derive(Clone, Debug, PartialEq, Eq)]
pub enum ConfigError {
    /// Neither the CI provider nor the fallback variable gave a value.
    Missing(Coordinate),
    /// The fallback variable holds something that is not a count.
    Unparsable(Coordinate, String),
}

/// The queue service answered in a way the protocol does not allow.
#[derive(Clone, Debug, PartialEq, Eq)]
pub enum ProtocolError {
    /// A status outside 2xx, with the raw body.
    Status(u16, String),
    /// The body does not have the shape the protocol expects.
    UnexpectedBody(String),
}

#[derive(Clone, Debug, PartialEq, Eq)]
pub enum KnapsackError {
    Config(ConfigError),
    /// The request could not be carried out at the transport level.
    Network(String),
    Protocol(ProtocolError),
    /// A wire token that is not `unit|group|case`.
    Parse(String),
    /// The runner reported a test that was not asked for.
    UnknownTest(String),
}

impl KnapsackError {
    /// The coordinate whose absence or bad value this error reports.
    pub open spec fn config_coordinate(self) -> Option<Coordinate> {
        match self {
            KnapsackError::Config(ConfigError::Missing(c)) => Some(c),
            KnapsackError::Config(ConfigError::Unparsable(c, _)) => Some(c),
            _ => None,
        }
    }

    /// A one-line description of the error.
    pub fn describe(&self) -> (r: String) {
        match self {
            KnapsackError::Config(ConfigError::Missing(c)) => {
                let mut s = String::from_str("missing CI coordinate: ");
                s.append(c.label());
                s
            },
            KnapsackError::Config(ConfigError::Unparsable(c, v)) => {
                let mut s = String::from_str("cannot read CI coordinate ");
                s.append(c.label());
                s.append(" from: ");
                s.append(v.as_str());
                s
            },
            KnapsackError::Network(m) => {
                let mut s = String::from_str("request failed: ");
                s.append(m.as_str());
                s
            },
            KnapsackError::Protocol(ProtocolError::Status(_, body)) => {
                let mut s = String::from_str("queue service refused the request: ");
                s.append(body.as_str());
                s
            },
            KnapsackError::Protocol(ProtocolError::UnexpectedBody(body)) => {
                let mut s = String::from_str("unexpected response from the queue service: ");
                s.append(body.as_str());
                s
            },
            KnapsackError::Parse(token) => {
                let mut s = String::from_str("invalid test file format: ");
                s.append(token.as_str());
                s
            },
            KnapsackError::UnknownTest(name) => {
                let mut s = String::from_str("unknown test: ");
                s.append(name.as_str());
                s
            },
        }
    }
}

impl Coordinate {
    pub fn label(&self) -> (r: &'static str) {
        match self {
            Coordinate::NodeTotal => "node total",
            Coordinate::NodeIndex => "node index",
            Coordinate::Branch => "branch",
            Coordinate::CommitHash => "commit hash",
        }
    }
}

} // verus!
