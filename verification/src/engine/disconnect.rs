//! Disconnecting the engine behind a handle.

use crate::backend::ReparseOutcome;
use crate::engine::instance::Registry;
use crate::engine::state::{disconnect_plan_of, disconnect_step, EngineModel};
use crate::error::{fails_with, not_found_text, result_model, ErrorModel, PrismaError};
use vstd::prelude::*;

verus! {

/// The schema text to parse anew, for the engine behind `id`.
pub fn disconnect_plan<'a, S, Q, X>(registry: &'a Registry<S, Q, X>, id: i64) -> (result: Result<
    &'a String,
    PrismaError,
>)
    requires
        registry.wf(),
    ensures
        registry.contains(id) ==> disconnect_plan_of(registry@[id as int], result),
        !registry.contains(id) ==> fails_with(result, ErrorModel::Connector(not_found_text())),
{
    match registry.get(id) {
        Some(engine) => engine.disconnect_plan(),
        None => Err(PrismaError::not_found()),
    }
}

/// The engines after `disconnect` on the handle `id` and what it returns:
/// the step of the engine behind `id`, with every other engine as it was; for
/// an unknown handle, no step at all.
pub open spec fn disconnect_at<S, Q, X>(
    engines: Seq<EngineModel<S, Q, X>>,
    id: i64,
    outcome: ReparseOutcome,
) -> (Seq<EngineModel<S, Q, X>>, Result<(), ErrorModel>) {
    if 0 <= id < engines.len() {
        let step = disconnect_step(engines[id as int], outcome);
        (engines.update(id as int, step.0), step.1)
    } else {
        (engines, Err(ErrorModel::Connector(not_found_text())))
    }
}

/// Disconnects the engine behind `id`, given how parsing its schema text
/// anew ended. The handle stays good for a later `connect`. No other engine
/// is touched, and none at all for an unknown handle.
pub fn disconnect<S, Q, X>(registry: &mut Registry<S, Q, X>, id: i64, outcome: ReparseOutcome) -> (result:
    Result<(), PrismaError>)
    requires
        old(registry).wf(),
    ensures
        final(registry).wf(),
        (final(registry)@, result_model(result)) == disconnect_at(old(registry)@, id, outcome),
{
    match registry.get_mut(id) {
        Some(engine) => engine.disconnect(outcome),
        None => Err(PrismaError::not_found()),
    }
}

} // verus!
