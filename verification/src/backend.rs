//! What the backend reports of the work that the engine hands to it. Loading
//! an executor, running a query and driving a transaction happen outside this
//! library; the values here say how each of them ended.

use crate::schema::{Configuration, Diagnostics};
use std::sync::Arc;
use vstd::prelude::*;

verus! {

/// A failure of a connector.
#[derive(Debug, Clone, PartialEq, Eq)]
pub struct ConnectorError {
    /// The message meant for the user, where the backend knows the failure.
    pub user_facing: Option<String>,
    /// The backend's own description of the failure.
    pub message: String,
}

impl ConnectorError {
    /// The text under which the failure crosses the boundary: the message
    /// meant for the user where there is one.
    pub open spec fn text(&self) -> Seq<char> {
        match self.user_facing {
            Some(message) => message@,
            None => self.message@,
        }
    }
}

/// A failure of the query core.
#[derive(Debug, Clone, PartialEq, Eq)]
pub struct CoreError {
    /// For a failure that the backend knows: its user-facing form, serialized.
    pub known: Option<String>,
    /// The backend's formatted message.
    pub message: String,
}

/// How the attempt to connect ended.
#[derive(Debug)]
pub enum ConnectOutcome<Q, X> {
    /// The executor is loaded, a connection was had, the query schema is built.
    Connected { query_schema: Arc<Q>, executor: X },
    /// The executor could not be loaded or gave no connection.
    Failed(ConnectorError),
    /// The work was aborted.
    Fault(Option<String>),
}

/// How parsing the configuration anew ended.
#[derive(Debug)]
pub enum ReparseOutcome {
    Parsed { configuration: Configuration, diagnostics: Diagnostics },
    /// The work was aborted.
    Fault(Option<String>),
}

/// How a query ended.
#[derive(Debug)]
pub enum QueryOutcome {
    /// The response, serialized.
    Response(String),
    /// The body is no query request, or the response could not be serialized.
    Json(String),
    /// The handler failed.
    Failed(CoreError),
    /// The work was aborted.
    Fault(Option<String>),
}

/// How starting a transaction ended.
#[derive(Debug)]
pub enum StartTransactionOutcome {
    /// The transaction is open under this id.
    Started(String),
    /// The input is no transaction input, or the failure could not be serialized.
    Json(String),
    /// The executor refused.
    Failed(CoreError),
    /// The work was aborted.
    Fault(Option<String>),
}

/// How committing a transaction ended.
#[derive(Debug)]
pub enum CommitTransactionOutcome {
    Committed,
    /// The failure could not be serialized.
    Json(String),
    /// The executor refused.
    Failed(CoreError),
    /// The work was aborted.
    Fault(Option<String>),
}

} // verus!
