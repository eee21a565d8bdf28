//! Engine instances and the operations that the boundary offers on them.

use crate::engine::instance::Registry;
use crate::engine::state::{ConnectedEngine, EngineModel};
use crate::error::{fails_with, not_found_text, ErrorModel, PrismaError};
use crate::marshal::{c_str_bytes, c_str_end, lemma_decode_of_encoding, utf8_text};
use vstd::prelude::*;
use vstd::slice::slice_subrange;
use vstd::utf8::*;

pub mod connect;
pub mod create;
pub mod disconnect;
pub mod instance;
pub mod laws;
pub mod query;
pub mod state;
pub mod transaction;

verus! {

/// The transaction id in `buffer`, read as a C string: nothing where the
/// string is empty or is not well-formed UTF-8.
pub fn tx_id_parse(buffer: &[u8]) -> (tx_id: Option<String>)
    ensures
        match tx_id {
            Some(text) => valid_utf8(c_str_bytes(buffer@)) && text@ == decode_utf8(
                c_str_bytes(buffer@),
            ) && text@.len() > 0,
            None => !valid_utf8(c_str_bytes(buffer@)) || decode_utf8(c_str_bytes(buffer@)).len()
                == 0,
        },
{
    let end = c_str_end(buffer);
    let bytes = slice_subrange(buffer, 0, end);
    assert(bytes@ == c_str_bytes(buffer@));
    match utf8_text(bytes) {
        Some(text) => {
            proof {
                lemma_decode_of_encoding(text@, bytes@);
            }
            if text.is_empty() {
                None
            } else {
                Some(text.to_owned())
            }
        },
        None => None,
    }
}

/// The connected engine behind `id`, with its executor and query schema: what
/// the backend needs to answer a query or to drive a transaction.
pub fn connected_engine<S, Q, X>(registry: &Registry<S, Q, X>, id: i64) -> (result: Result<
    &ConnectedEngine<S, Q, X>,
    PrismaError,
>)
    requires
        registry.wf(),
    ensures
        !registry.contains(id) ==> fails_with(result, ErrorModel::Connector(not_found_text())),
        registry.contains(id) ==> match registry@[id as int] {
            EngineModel::Builder { .. } => fails_with(result, ErrorModel::NotConnected),
            EngineModel::Connected { ast, raw, query_schema, executor } => result matches Ok(engine)
                && engine.datamodel.ast == ast && engine.datamodel.raw@ == raw
                && engine.query_schema == query_schema && engine.executor == executor,
        },
{
    match registry.get(id) {
        Some(engine) => engine.inner().as_engine(),
        None => Err(PrismaError::not_found()),
    }
}

} // verus!
