//! Connecting the engine behind a handle.

use crate::backend::ConnectOutcome;
use crate::engine::instance::Registry;
use crate::engine::state::{connect_plan_of, connect_step, ConnectPlan, EngineModel};
use crate::error::{fails_with, not_found_text, result_model, ErrorModel, PrismaError};
use vstd::prelude::*;

verus! {

/// What to connect to, for the engine behind `id`.
pub fn connect_plan<'a, S, Q, X>(registry: &'a Registry<S, Q, X>, id: i64) -> (result: Result<
    ConnectPlan<'a, S>,
    PrismaError,
>)
    requires
        registry.wf(),
    ensures
        registry.contains(id) ==> connect_plan_of(registry@[id as int], result),
        !registry.contains(id) ==> fails_with(result, ErrorModel::Connector(not_found_text())),
{
    match registry.get(id) {
        Some(engine) => engine.connect_plan(),
        None => Err(PrismaError::not_found()),
    }
}

/// The engines after `connect` on the handle `id` and what it returns: the
/// step of the engine behind `id`, with every other engine as it was; for an
/// unknown handle, no step at all.
pub open spec fn connect_at<S, Q, X>(
    engines: Seq<EngineModel<S, Q, X>>,
    id: i64,
    outcome: ConnectOutcome<Q, X>,
) -> (Seq<EngineModel<S, Q, X>>, Result<(), ErrorModel>) {
    if 0 <= id < engines.len() {
        let step = connect_step(engines[id as int], outcome);
        (engines.update(id as int, step.0), step.1)
    } else {
        (engines, Err(ErrorModel::Connector(not_found_text())))
    }
}

/// Connects the engine behind `id`, given how the backend fared with the
/// plan. No other engine is touched, and none at all for an unknown handle.
pub fn connect<S, Q, X>(registry: &mut Registry<S, Q, X>, id: i64, outcome: ConnectOutcome<Q, X>) -> (result:
    Result<(), PrismaError>)
    requires
        old(registry).wf(),
    ensures
        final(registry).wf(),
        (final(registry)@, result_model(result)) == connect_at(old(registry)@, id, outcome),
{
    match registry.get_mut(id) {
        Some(engine) => engine.connect(outcome),
        None => Err(PrismaError::not_found()),
    }
}

} // verus!
