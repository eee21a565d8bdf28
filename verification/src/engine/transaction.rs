//! Transactions on a connected engine. The id of a transaction is a token of
//! the executor's: it is handed on as it is.

use crate::backend::{CommitTransactionOutcome, CoreError, StartTransactionOutcome};
use crate::engine::instance::Registry;
use crate::engine::state::{Engine, EngineModel};
use crate::error::{
    known_error_model, not_found_text, panic_text, text_result_model, ErrorModel, PrismaError,
};
use vstd::prelude::*;

verus! {

/// What the caller reads after a commit that went through.
pub open spec fn committed_text() -> Seq<char> {
    "{}"@
}

/// A failure of the query core while a transaction is started or committed:
/// one that the backend knows goes to the caller as a payload, in place of
/// the result; any other is an error.
pub fn map_known_error(error: CoreError) -> (result: Result<String, PrismaError>)
    ensures
        text_result_model(result) == known_error_model(error),
{
    match error.known {
        Some(payload) => Ok(payload),
        None => Err(PrismaError::Core(error.message)),
    }
}

/// What `start_transaction` returns on an engine in `state`.
pub open spec fn start_transaction_result<S, Q, X>(
    state: EngineModel<S, Q, X>,
    outcome: StartTransactionOutcome,
) -> Result<Seq<char>, ErrorModel> {
    match state {
        EngineModel::Builder { .. } => Err(ErrorModel::NotConnected),
        EngineModel::Connected { .. } => match outcome {
            StartTransactionOutcome::Started(tx_id) => Ok(tx_id@),
            StartTransactionOutcome::Json(message) => Err(ErrorModel::JsonDecode(message@)),
            StartTransactionOutcome::Failed(error) => known_error_model(error),
            StartTransactionOutcome::Fault(message) => Err(ErrorModel::Core(panic_text(message))),
        },
    }
}

/// What `commit_transaction` returns on an engine in `state`.
pub open spec fn commit_transaction_result<S, Q, X>(
    state: EngineModel<S, Q, X>,
    outcome: CommitTransactionOutcome,
) -> Result<Seq<char>, ErrorModel> {
    match state {
        EngineModel::Builder { .. } => Err(ErrorModel::NotConnected),
        EngineModel::Connected { .. } => match outcome {
            CommitTransactionOutcome::Committed => Ok(committed_text()),
            CommitTransactionOutcome::Json(message) => Err(ErrorModel::JsonDecode(message@)),
            CommitTransactionOutcome::Failed(error) => known_error_model(error),
            CommitTransactionOutcome::Fault(message) => Err(ErrorModel::Core(panic_text(message))),
        },
    }
}

impl<S, Q, X> Engine<S, Q, X> {
    /// The id of the transaction that was started, given how the backend
    /// fared with starting it; for a failure that the backend knows, its
    /// payload.
    pub fn start_transaction(&self, outcome: StartTransactionOutcome) -> (result: Result<
        String,
        PrismaError,
    >)
        ensures
            text_result_model(result) == start_transaction_result(self@, outcome),
    {
        let _ = self.inner().as_engine()?;
        match outcome {
            StartTransactionOutcome::Started(tx_id) => Ok(tx_id),
            StartTransactionOutcome::Json(message) => Err(PrismaError::json_decode(message)),
            StartTransactionOutcome::Failed(error) => map_known_error(error),
            StartTransactionOutcome::Fault(message) => Err(PrismaError::fault(message)),
        }
    }

    /// An empty JSON object for a commit that went through, given how the
    /// backend fared with it; for a failure that the backend knows, its
    /// payload.
    pub fn commit_transaction(&self, outcome: CommitTransactionOutcome) -> (result: Result<
        String,
        PrismaError,
    >)
        ensures
            text_result_model(result) == commit_transaction_result(self@, outcome),
    {
        let _ = self.inner().as_engine()?;
        match outcome {
            CommitTransactionOutcome::Committed => Ok("{}".to_owned()),
            CommitTransactionOutcome::Json(message) => Err(PrismaError::json_decode(message)),
            CommitTransactionOutcome::Failed(error) => map_known_error(error),
            CommitTransactionOutcome::Fault(message) => Err(PrismaError::fault(message)),
        }
    }
}

/// What `start_transaction` returns on the handle `id`.
pub open spec fn start_transaction_at<S, Q, X>(
    engines: Seq<EngineModel<S, Q, X>>,
    id: i64,
    outcome: StartTransactionOutcome,
) -> Result<Seq<char>, ErrorModel> {
    if 0 <= id < engines.len() {
        start_transaction_result(engines[id as int], outcome)
    } else {
        Err(ErrorModel::Connector(not_found_text()))
    }
}

/// What `commit_transaction` returns on the handle `id`.
pub open spec fn commit_transaction_at<S, Q, X>(
    engines: Seq<EngineModel<S, Q, X>>,
    id: i64,
    outcome: CommitTransactionOutcome,
) -> Result<Seq<char>, ErrorModel> {
    if 0 <= id < engines.len() {
        commit_transaction_result(engines[id as int], outcome)
    } else {
        Err(ErrorModel::Connector(not_found_text()))
    }
}

/// Starts a transaction on the engine behind `id`, given how the backend
/// fared with it.
pub fn start_transaction<S, Q, X>(
    registry: &Registry<S, Q, X>,
    id: i64,
    outcome: StartTransactionOutcome,
) -> (result: Result<String, PrismaError>)
    requires
        registry.wf(),
    ensures
        text_result_model(result) == start_transaction_at(registry@, id, outcome),
{
    match registry.get(id) {
        Some(engine) => engine.start_transaction(outcome),
        None => Err(PrismaError::not_found()),
    }
}

/// Commits a transaction on the engine behind `id`, given how the backend
/// fared with it.
pub fn commit_transaction<S, Q, X>(
    registry: &Registry<S, Q, X>,
    id: i64,
    outcome: CommitTransactionOutcome,
) -> (result: Result<String, PrismaError>)
    requires
        registry.wf(),
    ensures
        text_result_model(result) == commit_transaction_at(registry@, id, outcome),
{
    match registry.get(id) {
        Some(engine) => engine.commit_transaction(outcome),
        None => Err(PrismaError::not_found()),
    }
}

} // verus!
