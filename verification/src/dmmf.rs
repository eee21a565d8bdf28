//! The metadata of a schema, rendered as JSON for client generators. The
//! rendering is the backend's work; what is decided here is what the caller
//! gets to see of it.

use crate::error::{conversion_model, text_result_model, ErrorModel, PrismaError};
use crate::marshal::string_to_c_char;
use crate::schema::Diagnostics;
use vstd::prelude::*;
use vstd::utf8::*;

verus! {

/// What the caller gets for a schema text, given what validating it found and
/// how rendering its metadata ended: the rendered text, the error for a
/// schema that does not validate, or the error for a rendering that could not
/// be serialized.
pub open spec fn dmmf_result(
    datamodel: Seq<char>,
    diagnostics: Diagnostics,
    rendered: Result<String, String>,
) -> Result<Seq<char>, ErrorModel> {
    if diagnostics.error_texts().len() > 0 {
        Err(conversion_model(diagnostics, datamodel))
    } else {
        match rendered {
            Ok(text) => Ok(text@),
            Err(message) => Err(ErrorModel::JsonDecode(message@)),
        }
    }
}

/// The rendered metadata of a schema, or the error that stands in its place.
pub fn inner_dmmf_parser(
    datamodel_string: String,
    diagnostics: &Diagnostics,
    rendered: Result<String, String>,
) -> (result: Result<String, PrismaError>)
    ensures
        text_result_model(result) == dmmf_result(datamodel_string@, *diagnostics, rendered),
{
    if diagnostics.has_errors() {
        return Err(PrismaError::conversion(diagnostics, datamodel_string.as_str()));
    }
    match rendered {
        Ok(text) => Ok(text),
        Err(message) => Err(PrismaError::json_decode(message)),
    }
}

/// The rendered metadata of a schema as a C string for the caller, or the
/// error that stands in its place.
///
/// A C string cannot hold a NUL byte, so the caller hands over a rendering
/// without one.
pub fn dmmf(datamodel_string: String, diagnostics: &Diagnostics, rendered: Result<String, String>) -> (result:
    Result<Vec<u8>, PrismaError>)
    requires
        rendered matches Ok(text) ==> !encode_utf8(text@).contains(0u8),
    ensures
        match dmmf_result(datamodel_string@, *diagnostics, rendered) {
            Ok(text) => result matches Ok(buffer) && buffer@ == encode_utf8(text).push(0u8),
            Err(expected) => result matches Err(error) && error@ == expected,
        },
{
    match inner_dmmf_parser(datamodel_string, diagnostics, rendered) {
        Ok(text) => Ok(string_to_c_char(text.as_str())),
        Err(error) => Err(error),
    }
}

} // verus!
