use prisma_engine::backend::{ConnectorError, CoreError};
use prisma_engine::engine::transaction::map_known_error;
use prisma_engine::error::{panic_to_error, PrismaError};
use prisma_engine::schema::Diagnostics;

fn text(s: &str) -> String {
    s.to_string()
}

#[test]
fn already_connected_to_json() {
    let json = PrismaError::AlreadyConnected.to_json();
    assert_eq!(json.len(), 2);
    assert_eq!(json.get("code"), Some(&text("AlreadyConnected")));
    assert_eq!(json.get("message"), Some(&text("Already connected to database")));
    assert_eq!(json.get("data"), None);
}

#[test]
fn not_connected_to_json() {
    let json = PrismaError::NotConnected.to_json();
    assert_eq!(json.len(), 2);
    assert_eq!(json.get("code"), Some(&text("NotConnected")));
    assert_eq!(json.get("message"), Some(&text("Not connected to database")));
    assert_eq!(json.get("data"), None);
}

#[test]
fn configuration_to_json() {
    let json = PrismaError::Configuration(text("No datasource provided")).to_json();
    assert_eq!(json.len(), 2);
    assert_eq!(json.get("code"), Some(&text("Configuration")));
    assert_eq!(json.get("message"), Some(&text("No datasource provided")));
    assert_eq!(json.get("data"), None);
}

#[test]
fn conversion_to_json_carries_the_source_as_data() {
    let json = PrismaError::Conversion(text("unexpected token"), text("model {")).to_json();
    assert_eq!(json.len(), 3);
    assert_eq!(json.get("code"), Some(&text("Conversion")));
    assert_eq!(json.get("message"), Some(&text("unexpected token")));
    assert_eq!(json.get("data"), Some(&text("model {")));
}

#[test]
fn core_connector_and_json_decode_to_json() {
    let json = PrismaError::Core(text("boom")).to_json();
    assert_eq!(json.get("code"), Some(&text("Core")));
    assert_eq!(json.get("message"), Some(&text("boom")));
    assert_eq!(json.len(), 2);
    let json = PrismaError::Connector(text("Engine not found")).to_json();
    assert_eq!(json.get("code"), Some(&text("Connector")));
    assert_eq!(json.get("message"), Some(&text("Engine not found")));
    assert_eq!(json.len(), 2);
    let json = PrismaError::JsonDecode(text("expected value at line 1 column 1")).to_json();
    assert_eq!(json.get("code"), Some(&text("JsonDecode")));
    assert_eq!(json.get("message"), Some(&text("expected value at line 1 column 1")));
    assert_eq!(json.len(), 2);
}

#[test]
fn not_found_is_a_connector_error() {
    assert_eq!(PrismaError::not_found(), PrismaError::Connector(text("Engine not found")));
}

#[test]
fn configuration_takes_the_message() {
    assert_eq!(
        PrismaError::configuration("No valid data source found"),
        PrismaError::Configuration(text("No valid data source found"))
    );
}

#[test]
fn fault_with_a_message_is_marked() {
    assert_eq!(
        PrismaError::fault(Some(text("index out of bounds"))),
        PrismaError::Core(text("PANIC: index out of bounds"))
    );
}

#[test]
fn fault_without_a_message_is_marked() {
    assert_eq!(PrismaError::fault(None), PrismaError::Core(text("PANIC: unknown panic")));
}

#[test]
fn panic_to_error_hands_on_what_was_returned() {
    assert_eq!(panic_to_error::<u32>(Ok(Ok(7))), Ok(7));
    assert_eq!(
        panic_to_error::<u32>(Ok(Err(PrismaError::NotConnected))),
        Err(PrismaError::NotConnected)
    );
}

#[test]
fn panic_to_error_contains_a_fault() {
    assert_eq!(
        panic_to_error::<u32>(Err(Some(text("called `Option::unwrap()` on a `None` value")))),
        Err(PrismaError::Core(text("PANIC: called `Option::unwrap()` on a `None` value")))
    );
    assert_eq!(
        panic_to_error::<u32>(Err(None)),
        Err(PrismaError::Core(text("PANIC: unknown panic")))
    );
}

#[test]
fn conversion_carries_the_first_diagnostic_and_the_source() {
    let diagnostics = Diagnostics {
        errors: vec![text("first"), text("second")],
        warnings: vec![text("a warning")],
    };
    assert_eq!(
        PrismaError::conversion(&diagnostics, "model User {"),
        PrismaError::Conversion(text("first"), text("model User {"))
    );
}

#[test]
fn connector_error_prefers_the_user_facing_message() {
    let error = ConnectorError {
        user_facing: Some(text("Can't reach database server at `bad-host`")),
        message: text("io error: failed to lookup address information"),
    };
    assert_eq!(
        PrismaError::from_connector(error),
        PrismaError::Connector(text("Can't reach database server at `bad-host`"))
    );
}

#[test]
fn connector_error_falls_back_to_its_own_message() {
    let error = ConnectorError { user_facing: None, message: text("timed out") };
    assert_eq!(PrismaError::from_connector(error), PrismaError::Connector(text("timed out")));
}

#[test]
fn core_error_keeps_the_formatted_message() {
    let error = CoreError { known: Some(text("{\"error_code\":\"2028\"}")), message: text("tx") };
    assert_eq!(PrismaError::from_core(error), PrismaError::Core(text("tx")));
}

#[test]
fn json_decode_takes_the_message() {
    assert_eq!(
        PrismaError::json_decode(text("EOF while parsing")),
        PrismaError::JsonDecode(text("EOF while parsing"))
    );
}

#[test]
fn known_error_is_a_payload() {
    let error = CoreError {
        known: Some(text("{\"is_panic\":false,\"error_code\":\"2028\"}")),
        message: text("Transaction API error"),
    };
    assert_eq!(map_known_error(error), Ok(text("{\"is_panic\":false,\"error_code\":\"2028\"}")));
}

#[test]
fn unknown_error_is_a_core_error() {
    let error = CoreError { known: None, message: text("something broke") };
    assert_eq!(map_known_error(error), Err(PrismaError::Core(text("something broke"))));
}
