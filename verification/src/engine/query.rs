//! Answering a query on a connected engine.

use crate::backend::QueryOutcome;
use crate::engine::instance::Registry;
use crate::engine::state::{Engine, EngineModel};
use crate::error::{not_found_text, panic_text, text_result_model, ErrorModel, PrismaError};
use vstd::prelude::*;

verus! {

/// What `query` returns on an engine in `state`: the response of the
/// backend, or the error that its failure comes to; on an engine that is not
/// connected, that it is not, whatever the outcome.
pub open spec fn query_result<S, Q, X>(state: EngineModel<S, Q, X>, outcome: QueryOutcome) -> Result<
    Seq<char>,
    ErrorModel,
> {
    match state {
        EngineModel::Builder { .. } => Err(ErrorModel::NotConnected),
        EngineModel::Connected { .. } => match outcome {
            QueryOutcome::Response(response) => Ok(response@),
            QueryOutcome::Json(message) => Err(ErrorModel::JsonDecode(message@)),
            QueryOutcome::Failed(error) => Err(ErrorModel::Core(error.message@)),
            QueryOutcome::Fault(message) => Err(ErrorModel::Core(panic_text(message))),
        },
    }
}

impl<S, Q, X> Engine<S, Q, X> {
    /// The answer to a query, given how the backend fared with it. The state
    /// of the engine is read, never changed.
    pub fn query(&self, outcome: QueryOutcome) -> (result: Result<String, PrismaError>)
        ensures
            text_result_model(result) == query_result(self@, outcome),
    {
        let _ = self.inner().as_engine()?;
        match outcome {
            QueryOutcome::Response(response) => Ok(response),
            QueryOutcome::Json(message) => Err(PrismaError::json_decode(message)),
            QueryOutcome::Failed(error) => Err(PrismaError::from_core(error)),
            QueryOutcome::Fault(message) => Err(PrismaError::fault(message)),
        }
    }
}

/// What `query` returns on the handle `id`.
pub open spec fn query_at<S, Q, X>(
    engines: Seq<EngineModel<S, Q, X>>,
    id: i64,
    outcome: QueryOutcome,
) -> Result<Seq<char>, ErrorModel> {
    if 0 <= id < engines.len() {
        query_result(engines[id as int], outcome)
    } else {
        Err(ErrorModel::Connector(not_found_text()))
    }
}

/// The answer of the engine behind `id` to a query, given how the backend
/// fared with it.
pub fn query<S, Q, X>(registry: &Registry<S, Q, X>, id: i64, outcome: QueryOutcome) -> (result:
    Result<String, PrismaError>)
    requires
        registry.wf(),
    ensures
        text_result_model(result) == query_at(registry@, id, outcome),
{
    match registry.get(id) {
        Some(engine) => engine.query(outcome),
        None => Err(PrismaError::not_found()),
    }
}

} // verus!
