//! What the engine reads of a validated schema: its diagnostics and its
//! datasources. Parsing and validating the schema text is the backend's work;
//! the values here carry its findings.

use crate::error::{result_model, ErrorModel, PrismaError};
use std::sync::Arc;
use vstd::prelude::*;

verus! {

/// One `datasource` block of a schema.
#[derive(Debug, Clone, PartialEq, Eq)]
pub struct Datasource {
    pub name: String,
    pub provider: String,
    /// The connection URL, once it is known.
    pub url: Option<String>,
    /// The environment variable that the schema names for the URL, as long as
    /// it has not been resolved.
    pub url_from_env_var: Option<String>,
}

/// A `Datasource` with its texts as sequences of characters.
pub struct DatasourceModel {
    pub name: Seq<char>,
    pub provider: Seq<char>,
    pub url: Option<Seq<char>>,
    pub url_from_env_var: Option<Seq<char>>,
}

impl View for Datasource {
    type V = DatasourceModel;

    open spec fn view(&self) -> DatasourceModel {
        DatasourceModel {
            name: self.name@,
            provider: self.provider@,
            url: self.url.deep_view(),
            url_from_env_var: self.url_from_env_var.deep_view(),
        }
    }
}

impl DatasourceModel {
    /// The datasource with `url` as its connection URL and no reference to
    /// the environment left.
    pub open spec fn with_url(self, url: Seq<char>) -> DatasourceModel {
        DatasourceModel { url: Some(url), url_from_env_var: None, ..self }
    }
}

/// The datasources of a schema, in the order in which it declares them.
#[derive(Debug, Clone, PartialEq, Eq)]
pub struct Configuration {
    pub datasources: Vec<Datasource>,
}

impl View for Configuration {
    type V = Seq<DatasourceModel>;

    open spec fn view(&self) -> Seq<DatasourceModel> {
        Seq::new(self.datasources@.len(), |i: int| self.datasources@[i]@)
    }
}

/// The message of the error for a schema that does not declare exactly one
/// datasource.
pub open spec fn one_datasource_text() -> Seq<char> {
    "Exactly one datasource must be provided"@
}

impl Configuration {
    /// Gives every datasource the connection URL `url`, in place of whatever
    /// the schema said of it.
    pub fn override_urls(&mut self, url: &String)
        ensures
            final(self)@ == old(self)@.map_values(|d: DatasourceModel| d.with_url(url@)),
    {
        let ghost before = self@;
        let count = self.datasources.len();
        let mut i: usize = 0;
        while i < count
            invariant
                i <= count,
                count == before.len(),
                self@.len() == before.len(),
                forall|j: int| 0 <= j < i ==> self@[j] == before[j].with_url(url@),
                forall|j: int| i <= j < count ==> self@[j] == before[j],
            decreases count - i,
        {
            let ghost previous = self.datasources@;
            let ghost previous_view = self@;
            let datasource = &mut self.datasources[i];
            datasource.url = Some(url.clone());
            datasource.url_from_env_var = None;
            assert forall|j: int| 0 <= j < count && j != i implies self@[j] == previous_view[j] by {
                assert(self.datasources@[j] == previous[j]);
            }
            assert(self@[i as int] == before[i as int].with_url(url@));
            assert forall|j: int| 0 <= j < i implies self@[j] == before[j].with_url(url@) by {
                assert(self@[j] == previous_view[j]);
            }
            i += 1;
        }
        assert(self@ =~= before.map_values(|d: DatasourceModel| d.with_url(url@)));
    }

    /// Succeeds for a schema that declares exactly one datasource.
    pub fn validate_that_one_datasource_is_provided(&self) -> (result: Result<(), PrismaError>)
        ensures
            result_model(result) == if self@.len() == 1 {
                Ok(())
            } else {
                Err(ErrorModel::Configuration(one_datasource_text()))
            },
    {
        if self.datasources.len() == 1 {
            Ok(())
        } else {
            Err(PrismaError::configuration("Exactly one datasource must be provided"))
        }
    }
}

/// What validating a schema found.
#[derive(Debug, Clone, PartialEq, Eq)]
pub struct Diagnostics {
    pub errors: Vec<String>,
    pub warnings: Vec<String>,
}

impl Diagnostics {
    /// The messages of the errors, in the order in which they were found.
    pub open spec fn error_texts(&self) -> Seq<Seq<char>> {
        self.errors.deep_view()
    }

    /// Whether validation found an error.
    pub fn has_errors(&self) -> (has: bool)
        ensures
            has == (self.error_texts().len() > 0),
    {
        self.errors.len() > 0
    }
}

/// A schema as the backend hands it back from validation.
#[derive(Debug, Clone)]
pub struct ValidatedSchema<S> {
    /// The backend's own form of the schema.
    pub ast: Arc<S>,
    pub configuration: Configuration,
    pub diagnostics: Diagnostics,
}

} // verus!
