//! Creating an engine and registering it.

use crate::engine::instance::{insert, spec_capacity, Registry};
use crate::engine::state::{create_step, Engine, EngineModel};
use crate::error::{ErrorModel, PrismaError};
use crate::schema::ValidatedSchema;
use vstd::prelude::*;

verus! {

/// What creating an engine came to.
#[derive(Debug, PartialEq, Eq)]
pub enum EngineCreateResult {
    /// The engine was created; it answers to this handle.
    Success(i64),
    /// No engine was created.
    Failure(PrismaError),
}

/// The engines after `create_engine` and the handle that it issues: the new
/// engine stands behind the others, under the number of engines that were
/// there before. Where no engine comes about, none is added.
pub open spec fn create_at<S, Q, X>(
    engines: Seq<EngineModel<S, Q, X>>,
    datamodel: Seq<char>,
    datasource_url: Seq<char>,
    schema: ValidatedSchema<S>,
) -> (Seq<EngineModel<S, Q, X>>, Result<i64, ErrorModel>) {
    match create_step::<S, Q, X>(datamodel, datasource_url, schema) {
        Ok(model) => (engines.push(model), Ok(engines.len() as i64)),
        Err(error) => (engines, Err(error)),
    }
}

/// What creating an engine came to, as a model.
pub open spec fn create_result_model(result: EngineCreateResult) -> Result<i64, ErrorModel> {
    match result {
        EngineCreateResult::Success(id) => Ok(id),
        EngineCreateResult::Failure(error) => Err(error@),
    }
}

/// Creates an engine from a schema text, the connection URL and what
/// validating the text found, and registers it. The handle is the number of
/// engines registered before; on failure the registry stays as it is.
pub fn create_engine<S, Q, X>(
    registry: &mut Registry<S, Q, X>,
    datamodel: String,
    datasource_url: String,
    schema: ValidatedSchema<S>,
) -> (result: EngineCreateResult)
    requires
        old(registry).wf(),
        old(registry)@.len() < spec_capacity(),
    ensures
        final(registry).wf(),
        (final(registry)@, create_result_model(result)) == create_at(
            old(registry)@,
            datamodel@,
            datasource_url@,
            schema,
        ),
{
    match Engine::new(datamodel, datasource_url, schema) {
        Ok(engine) => EngineCreateResult::Success(insert(registry, engine)),
        Err(error) => EngineCreateResult::Failure(error),
    }
}

} // verus!
