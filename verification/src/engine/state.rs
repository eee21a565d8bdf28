//! One engine instance: a machine of two states, waiting to connect or
//! connected, and the transitions between them.

use crate::backend::{ConnectOutcome, ReparseOutcome};
use crate::error::{
    conversion_model, fails_with, panic_text, result_model, ErrorModel, PrismaError,
};
use crate::schema::{one_datasource_text, Configuration, Datasource, DatasourceModel, ValidatedSchema};
use std::sync::Arc;
use vstd::prelude::*;

verus! {

/// `Arc::clone`: one more pointer to the value that `shared` points to.
#[verifier::external_body]
fn share<T>(shared: &Arc<T>) -> (other: Arc<T>)
    ensures
        other == *shared,
{
    Arc::clone(shared)
}

/// The schema of an engine: what is needed to connect it again.
#[derive(Debug)]
pub struct EngineDatamodel<S> {
    /// The backend's own form of the schema.
    pub ast: Arc<S>,
    /// The schema text as the caller gave it.
    pub raw: String,
}

impl<S> Clone for EngineDatamodel<S> {
    fn clone(&self) -> (copy: Self)
        ensures
            copy == *self,
    {
        EngineDatamodel { ast: share(&self.ast), raw: self.raw.clone() }
    }
}

/// Everything needed to connect to the database.
#[derive(Debug)]
pub struct EngineBuilder<S> {
    pub datamodel: EngineDatamodel<S>,
    pub config: Configuration,
}

/// A connected engine: it answers queries, and holds what is needed to
/// disconnect and to connect again.
#[derive(Debug)]
pub struct ConnectedEngine<S, Q, X> {
    pub datamodel: EngineDatamodel<S>,
    pub query_schema: Arc<Q>,
    pub executor: X,
}

/// The state of an engine.
#[derive(Debug)]
pub enum Inner<S, Q, X> {
    /// Not connected, holding all data to form a connection.
    Builder(EngineBuilder<S>),
    /// Connected, holding all data to disconnect and to form a new
    /// connection. Queries are answered in this state only.
    Connected(ConnectedEngine<S, Q, X>),
}

/// The state of an engine, with its texts as sequences of characters.
pub enum EngineModel<S, Q, X> {
    Builder { ast: Arc<S>, raw: Seq<char>, datasources: Seq<DatasourceModel> },
    Connected { ast: Arc<S>, raw: Seq<char>, query_schema: Arc<Q>, executor: X },
}

impl<S, Q, X> View for Inner<S, Q, X> {
    type V = EngineModel<S, Q, X>;

    open spec fn view(&self) -> EngineModel<S, Q, X> {
        match self {
            Inner::Builder(builder) => EngineModel::Builder {
                ast: builder.datamodel.ast,
                raw: builder.datamodel.raw@,
                datasources: builder.config@,
            },
            Inner::Connected(engine) => EngineModel::Connected {
                ast: engine.datamodel.ast,
                raw: engine.datamodel.raw@,
                query_schema: engine.query_schema,
                executor: engine.executor,
            },
        }
    }
}

impl<S, Q, X> ConnectedEngine<S, Q, X> {
    /// The live executor.
    pub fn executor(&self) -> (executor: &X)
        ensures
            *executor == self.executor,
    {
        &self.executor
    }

    /// The query schema that was built when the engine connected.
    pub fn query_schema(&self) -> (query_schema: &Arc<Q>)
        ensures
            *query_schema == self.query_schema,
    {
        &self.query_schema
    }
}

impl<S, Q, X> Inner<S, Q, X> {
    /// The builder, if the engine is not connected.
    pub fn as_builder(&self) -> (result: Result<&EngineBuilder<S>, PrismaError>)
        ensures
            match *self {
                Inner::Builder(builder) => result matches Ok(found) && *found == builder,
                Inner::Connected(_) => fails_with(result, ErrorModel::AlreadyConnected),
            },
    {
        match self {
            Inner::Builder(builder) => Ok(builder),
            Inner::Connected(_) => Err(PrismaError::AlreadyConnected),
        }
    }

    /// The connected engine, if the engine is connected.
    pub fn as_engine(&self) -> (result: Result<&ConnectedEngine<S, Q, X>, PrismaError>)
        ensures
            match *self {
                Inner::Builder(_) => fails_with(result, ErrorModel::NotConnected),
                Inner::Connected(engine) => result matches Ok(found) && *found == engine,
            },
    {
        match self {
            Inner::Builder(_) => Err(PrismaError::NotConnected),
            Inner::Connected(engine) => Ok(engine),
        }
    }
}

/// The message of the error for a configuration without a datasource.
pub open spec fn no_datasource_text() -> Seq<char> {
    "No valid data source found"@
}

/// The message of the error for a datasource without a connection URL.
pub open spec fn no_url_text() -> Seq<char> {
    "No valid data source url found"@
}

/// The URL that an engine with these datasources connects to: that of the
/// first datasource.
pub open spec fn connect_target(datasources: Seq<DatasourceModel>) -> Result<Seq<char>, ErrorModel> {
    if datasources.len() == 0 {
        Err(ErrorModel::Configuration(no_datasource_text()))
    } else {
        match datasources[0].url {
            Some(url) => Ok(url),
            None => Err(ErrorModel::Configuration(no_url_text())),
        }
    }
}

/// What to connect to: the datasource, its URL, and the schema to build the
/// query schema from.
#[derive(Debug)]
pub struct ConnectPlan<'a, S> {
    pub datasource: &'a Datasource,
    pub url: &'a String,
    pub datamodel: &'a EngineDatamodel<S>,
}

impl<S> EngineBuilder<S> {
    /// The datasource to connect to, with its URL.
    pub fn connect_plan(&self) -> (result: Result<ConnectPlan<'_, S>, PrismaError>)
        ensures
            match connect_target(self.config@) {
                Ok(url) => result matches Ok(plan) && plan.url@ == url && *plan.datasource
                    == self.config.datasources@[0] && *plan.datamodel == self.datamodel,
                Err(expected) => fails_with(result, expected),
            },
    {
        if self.config.datasources.len() == 0 {
            return Err(PrismaError::configuration("No valid data source found"));
        }
        let datasource = &self.config.datasources[0];
        match &datasource.url {
            Some(url) => Ok(ConnectPlan { datasource, url, datamodel: &self.datamodel }),
            None => Err(PrismaError::configuration("No valid data source url found")),
        }
    }
}

/// The engine that `Engine::new` makes of a schema text, the connection URL
/// that overrides what the schema says, and what validation found.
pub open spec fn create_step<S, Q, X>(
    datamodel: Seq<char>,
    datasource_url: Seq<char>,
    schema: ValidatedSchema<S>,
) -> Result<EngineModel<S, Q, X>, ErrorModel> {
    if schema.diagnostics.error_texts().len() > 0 {
        Err(conversion_model(schema.diagnostics, datamodel))
    } else if schema.configuration@.len() != 1 {
        Err(ErrorModel::Configuration(one_datasource_text()))
    } else {
        Ok(
            EngineModel::Builder {
                ast: schema.ast,
                raw: datamodel,
                datasources: schema.configuration@.map_values(
                    |d: DatasourceModel| d.with_url(datasource_url),
                ),
            },
        )
    }
}

/// The state after `Engine::connect` and what it returns: a transition to
/// the connected state where the engine waits to connect, has a datasource
/// with a URL, and the backend got through; no transition otherwise.
pub open spec fn connect_step<S, Q, X>(
    state: EngineModel<S, Q, X>,
    outcome: ConnectOutcome<Q, X>,
) -> (EngineModel<S, Q, X>, Result<(), ErrorModel>) {
    match state {
        EngineModel::Connected { .. } => (state, Err(ErrorModel::AlreadyConnected)),
        EngineModel::Builder { ast, raw, datasources } => match connect_target(datasources) {
            Err(error) => (state, Err(error)),
            Ok(_) => match outcome {
                ConnectOutcome::Connected { query_schema, executor } => (
                    EngineModel::Connected { ast, raw, query_schema, executor },
                    Ok(()),
                ),
                ConnectOutcome::Failed(error) => (state, Err(ErrorModel::Connector(error.text()))),
                ConnectOutcome::Fault(message) => (
                    state,
                    Err(ErrorModel::Core(panic_text(message))),
                ),
            },
        },
    }
}

/// The state after `Engine::disconnect` and what it returns: a transition
/// back to the waiting state, with the configuration as it was parsed anew,
/// where the engine is connected and the schema text still validates; no
/// transition otherwise.
pub open spec fn disconnect_step<S, Q, X>(
    state: EngineModel<S, Q, X>,
    outcome: ReparseOutcome,
) -> (EngineModel<S, Q, X>, Result<(), ErrorModel>) {
    match state {
        EngineModel::Builder { .. } => (state, Err(ErrorModel::NotConnected)),
        EngineModel::Connected { ast, raw, .. } => match outcome {
            ReparseOutcome::Parsed { configuration, diagnostics } => {
                if diagnostics.error_texts().len() > 0 {
                    (state, Err(conversion_model(diagnostics, raw)))
                } else {
                    (EngineModel::Builder { ast, raw, datasources: configuration@ }, Ok(()))
                }
            },
            ReparseOutcome::Fault(message) => (state, Err(ErrorModel::Core(panic_text(message)))),
        },
    }
}

/// Whether `result` is the plan for connecting an engine in `state`: for one
/// that waits to connect, its first datasource and that datasource's URL, or
/// the error that says what is missing.
pub open spec fn connect_plan_of<'a, S, Q, X>(
    state: EngineModel<S, Q, X>,
    result: Result<ConnectPlan<'a, S>, PrismaError>,
) -> bool {
    match state {
        EngineModel::Connected { .. } => fails_with(result, ErrorModel::AlreadyConnected),
        EngineModel::Builder { ast, raw, datasources } => match connect_target(datasources) {
            Ok(url) => result matches Ok(plan) && plan.url@ == url && plan.datasource@
                == datasources[0] && plan.datamodel.ast == ast && plan.datamodel.raw@ == raw,
            Err(expected) => fails_with(result, expected),
        },
    }
}

/// Whether `result` is the plan for disconnecting an engine in `state`: for
/// one that is connected, its schema text.
pub open spec fn disconnect_plan_of<'a, S, Q, X>(
    state: EngineModel<S, Q, X>,
    result: Result<&'a String, PrismaError>,
) -> bool {
    match state {
        EngineModel::Builder { .. } => fails_with(result, ErrorModel::NotConnected),
        EngineModel::Connected { raw, .. } => result matches Ok(text) && text@ == raw,
    }
}

/// An engine instance.
#[derive(Debug)]
pub struct Engine<S, Q, X> {
    inner: Inner<S, Q, X>,
}

impl<S, Q, X> View for Engine<S, Q, X> {
    type V = EngineModel<S, Q, X>;

    closed spec fn view(&self) -> EngineModel<S, Q, X> {
        self.inner@
    }
}

impl<S, Q, X> Engine<S, Q, X> {
    /// Whether the engine waits to connect.
    pub fn is_builder(&self) -> (waiting: bool)
        ensures
            waiting == (self@ is Builder),
    {
        match self.inner {
            Inner::Builder(_) => true,
            Inner::Connected(_) => false,
        }
    }

    /// Whether the engine is connected.
    pub fn is_connected(&self) -> (connected: bool)
        ensures
            connected == (self@ is Connected),
    {
        match self.inner {
            Inner::Builder(_) => false,
            Inner::Connected(_) => true,
        }
    }

    /// The state of the engine.
    pub fn inner(&self) -> (inner: &Inner<S, Q, X>)
        ensures
            inner@ == self@,
    {
        &self.inner
    }

    /// Creates a new engine, waiting to connect, from a schema text, the
    /// connection URL and what validating the text found.
    ///
    /// Every datasource is given the connection URL, whatever the schema says
    /// of its own.
    pub fn new(datamodel: String, datasource_url: String, schema: ValidatedSchema<S>) -> (result:
        Result<Self, PrismaError>)
        ensures
            match create_step::<S, Q, X>(datamodel@, datasource_url@, schema) {
                Ok(model) => result matches Ok(engine) && engine@ == model,
                Err(expected) => fails_with(result, expected),
            },
    {
        if schema.diagnostics.has_errors() {
            return Err(PrismaError::conversion(&schema.diagnostics, datamodel.as_str()));
        }
        let mut config = schema.configuration;
        config.override_urls(&datasource_url);
        match config.validate_that_one_datasource_is_provided() {
            Ok(()) => {},
            Err(error) => {
                return Err(error);
            },
        }
        let datamodel = EngineDatamodel { ast: schema.ast, raw: datamodel };
        let builder = EngineBuilder { datamodel, config };
        Ok(Engine { inner: Inner::Builder(builder) })
    }

    /// What to connect to, for an engine that waits to connect.
    pub fn connect_plan(&self) -> (result: Result<ConnectPlan<'_, S>, PrismaError>)
        ensures
            connect_plan_of(self@, result),
    {
        let builder = self.inner.as_builder()?;
        builder.connect_plan()
    }

    /// Connects the engine, given how the backend fared with the plan.
    ///
    /// Whatever the outcome, an engine that is connected already stays as it
    /// is, and so does one whose configuration names nothing to connect to.
    pub fn connect(&mut self, outcome: ConnectOutcome<Q, X>) -> (result: Result<(), PrismaError>)
        ensures
            (final(self)@, result_model(result)) == connect_step(old(self)@, outcome),
    {
        let builder = self.inner.as_builder()?;
        let _ = builder.connect_plan()?;
        match outcome {
            ConnectOutcome::Connected { query_schema, executor } => {
                let datamodel = builder.datamodel.clone();
                self.inner = Inner::Connected(ConnectedEngine { datamodel, query_schema, executor });
                Ok(())
            },
            ConnectOutcome::Failed(error) => Err(PrismaError::from_connector(error)),
            ConnectOutcome::Fault(message) => Err(PrismaError::fault(message)),
        }
    }

    /// The schema text to parse anew, for an engine that is connected.
    pub fn disconnect_plan(&self) -> (result: Result<&String, PrismaError>)
        ensures
            disconnect_plan_of(self@, result),
    {
        let engine = self.inner.as_engine()?;
        Ok(&engine.datamodel.raw)
    }

    /// Disconnects the engine, given how parsing its schema text anew ended.
    /// The executor and the query schema go with the connected state.
    pub fn disconnect(&mut self, outcome: ReparseOutcome) -> (result: Result<(), PrismaError>)
        ensures
            (final(self)@, result_model(result)) == disconnect_step(old(self)@, outcome),
    {
        let engine = self.inner.as_engine()?;
        match outcome {
            ReparseOutcome::Parsed { configuration, diagnostics } => {
                if diagnostics.has_errors() {
                    return Err(PrismaError::conversion(&diagnostics, engine.datamodel.raw.as_str()));
                }
                let builder = EngineBuilder {
                    datamodel: engine.datamodel.clone(),
                    config: configuration,
                };
                self.inner = Inner::Builder(builder);
                Ok(())
            },
            ReparseOutcome::Fault(message) => Err(PrismaError::fault(message)),
        }
    }
}

} // verus!
