//! The boundary between a foreign caller and a database query engine:
//! engine instances behind integer handles, their connect and disconnect
//! life cycle, the errors that cross the boundary and the text buffers
//! that carry them.

pub mod backend;
pub mod dmmf;
pub mod engine;
pub mod error;
pub mod marshal;
pub mod schema;

pub use marshal::{c_char_to_string, string_to_c_char};
