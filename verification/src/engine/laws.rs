//! What holds of every engine and of every registry, whatever the caller and
//! the backend do.

use crate::backend::{
    CommitTransactionOutcome, ConnectOutcome, QueryOutcome, ReparseOutcome, StartTransactionOutcome,
};
use crate::engine::connect::connect_at;
use crate::engine::create::create_at;
use crate::engine::disconnect::disconnect_at;
use crate::engine::query::{query_at, query_result};
use crate::engine::state::{
    connect_step, connect_target, create_step, disconnect_step, EngineModel,
};
use crate::engine::transaction::{
    commit_transaction_at, commit_transaction_result, start_transaction_at,
    start_transaction_result,
};
use crate::error::{error_of, not_found_text, panic_text, ErrorModel};
use crate::schema::ValidatedSchema;
use vstd::prelude::*;

verus! {

/// An engine is in exactly one of its two states: it waits to connect or it
/// is connected.
pub proof fn lemma_state_exclusive<S, Q, X>(engines: Seq<EngineModel<S, Q, X>>, id: i64)
    requires
        0 <= id < engines.len(),
    ensures
        (engines[id as int] is Builder) != (engines[id as int] is Connected),
{
}

/// A handle is issued once: the handle of a new engine is the number of
/// engines that were there before, so it is larger than every handle issued
/// earlier, and the engines behind the earlier handles stay where they are.
pub proof fn lemma_handles_issued_once<S, Q, X>(
    engines: Seq<EngineModel<S, Q, X>>,
    datamodel: Seq<char>,
    datasource_url: Seq<char>,
    schema: ValidatedSchema<S>,
    earlier: i64,
)
    requires
        engines.len() < i64::MAX,
        0 <= earlier < engines.len(),
    ensures
        ({
            let created = create_at(engines, datamodel, datasource_url, schema);
            &&& created.0[earlier as int] == engines[earlier as int]
            &&& created.1 matches Ok(id) ==> {
                &&& id == engines.len()
                &&& earlier < id
                &&& created.0.len() == engines.len() + 1
                &&& create_step::<S, Q, X>(datamodel, datasource_url, schema) matches Ok(model)
                    && model == created.0[id as int]
            }
            &&& created.1 is Err ==> created.0 == engines
        }),
{
}

/// `connect` on a connected engine fails with `AlreadyConnected` and leaves
/// the engine as it is, whatever the backend reports.
pub proof fn lemma_connect_when_connected<S, Q, X>(
    state: EngineModel<S, Q, X>,
    outcome: ConnectOutcome<Q, X>,
)
    requires
        state is Connected,
    ensures
        connect_step(state, outcome).0 == state,
        error_of(connect_step(state, outcome).1) == Some(ErrorModel::AlreadyConnected),
{
}

/// `disconnect` on an engine that waits to connect fails with `NotConnected`
/// and leaves the engine as it is, whatever the backend reports.
pub proof fn lemma_disconnect_when_not_connected<S, Q, X>(
    state: EngineModel<S, Q, X>,
    outcome: ReparseOutcome,
)
    requires
        state is Builder,
    ensures
        disconnect_step(state, outcome).0 == state,
        error_of(disconnect_step(state, outcome).1) == Some(ErrorModel::NotConnected),
{
}

/// Queries and transactions are refused with `NotConnected` on an engine that
/// waits to connect, whatever the backend reports.
pub proof fn lemma_work_needs_connection<S, Q, X>(
    state: EngineModel<S, Q, X>,
    query: QueryOutcome,
    start: StartTransactionOutcome,
    commit: CommitTransactionOutcome,
)
    requires
        state is Builder,
    ensures
        error_of(query_result(state, query)) == Some(ErrorModel::NotConnected),
        error_of(start_transaction_result(state, start)) == Some(ErrorModel::NotConnected),
        error_of(commit_transaction_result(state, commit)) == Some(ErrorModel::NotConnected),
{
}

/// No handle is used up: an engine with a datasource to connect to connects,
/// disconnects and connects again, each time with success, as long as the
/// backend gets through and the schema text still gives a datasource with a
/// URL when it is parsed anew.
pub proof fn lemma_round_trip<S, Q, X>(
    state: EngineModel<S, Q, X>,
    first: ConnectOutcome<Q, X>,
    reparse: ReparseOutcome,
    second: ConnectOutcome<Q, X>,
)
    requires
        state matches EngineModel::Builder { datasources, .. } && connect_target(datasources)
            is Ok,
        first is Connected,
        reparse matches ReparseOutcome::Parsed { configuration, diagnostics }
            && diagnostics.error_texts().len() == 0 && connect_target(configuration@) is Ok,
        second is Connected,
    ensures
        ({
            let connected = connect_step(state, first);
            let waiting = disconnect_step(connected.0, reparse);
            let again = connect_step(waiting.0, second);
            &&& connected.1 is Ok && connected.0 is Connected
            &&& waiting.1 is Ok && waiting.0 is Builder
            &&& again.1 is Ok && again.0 is Connected
        }),
{
}

/// What is done to the engine behind one handle leaves the engine behind
/// every other handle as it is.
pub proof fn lemma_other_engines_untouched<S, Q, X>(
    engines: Seq<EngineModel<S, Q, X>>,
    id: i64,
    other: i64,
    connect: ConnectOutcome<Q, X>,
    reparse: ReparseOutcome,
)
    requires
        0 <= other < engines.len(),
        other != id,
    ensures
        connect_at(engines, id, connect).0.len() == engines.len(),
        connect_at(engines, id, connect).0[other as int] == engines[other as int],
        disconnect_at(engines, id, reparse).0.len() == engines.len(),
        disconnect_at(engines, id, reparse).0[other as int] == engines[other as int],
{
}

/// Two engines are worked on independently: whichever of two handles is
/// connected first, both `connect`s return the same and the engines end up
/// the same. The same holds of two `disconnect`s and of a `connect` on one
/// handle and a `disconnect` on the other.
pub proof fn lemma_handles_independent<S, Q, X>(
    engines: Seq<EngineModel<S, Q, X>>,
    a: i64,
    b: i64,
    connect_a: ConnectOutcome<Q, X>,
    connect_b: ConnectOutcome<Q, X>,
    reparse_a: ReparseOutcome,
    reparse_b: ReparseOutcome,
)
    requires
        a != b,
    ensures
        ({
            let a_first = connect_at(engines, a, connect_a);
            let b_first = connect_at(engines, b, connect_b);
            &&& connect_at(a_first.0, b, connect_b).1 == b_first.1
            &&& connect_at(b_first.0, a, connect_a).1 == a_first.1
            &&& connect_at(a_first.0, b, connect_b).0 == connect_at(b_first.0, a, connect_a).0
        }),
        ({
            let a_first = disconnect_at(engines, a, reparse_a);
            let b_first = disconnect_at(engines, b, reparse_b);
            &&& disconnect_at(a_first.0, b, reparse_b).1 == b_first.1
            &&& disconnect_at(b_first.0, a, reparse_a).1 == a_first.1
            &&& disconnect_at(a_first.0, b, reparse_b).0 == disconnect_at(b_first.0, a, reparse_a).0
        }),
        ({
            let a_first = connect_at(engines, a, connect_a);
            let b_first = disconnect_at(engines, b, reparse_b);
            &&& disconnect_at(a_first.0, b, reparse_b).1 == b_first.1
            &&& connect_at(b_first.0, a, connect_a).1 == a_first.1
            &&& disconnect_at(a_first.0, b, reparse_b).0 == connect_at(b_first.0, a, connect_a).0
        }),
{
    let connect_a_first = connect_at(engines, a, connect_a);
    let connect_b_first = connect_at(engines, b, connect_b);
    let disconnect_a_first = disconnect_at(engines, a, reparse_a);
    let disconnect_b_first = disconnect_at(engines, b, reparse_b);
    assert(connect_at(connect_a_first.0, b, connect_b).0 =~= connect_at(
        connect_b_first.0,
        a,
        connect_a,
    ).0);
    assert(disconnect_at(disconnect_a_first.0, b, reparse_b).0 =~= disconnect_at(
        disconnect_b_first.0,
        a,
        reparse_a,
    ).0);
    assert(disconnect_at(connect_a_first.0, b, reparse_b).0 =~= connect_at(
        disconnect_b_first.0,
        a,
        connect_a,
    ).0);
}

/// Every operation on a handle that the registry did not issue fails with
/// the `Connector` error that says that the engine was not found, and
/// touches no engine.
pub proof fn lemma_unknown_handle<S, Q, X>(
    engines: Seq<EngineModel<S, Q, X>>,
    id: i64,
    connect: ConnectOutcome<Q, X>,
    reparse: ReparseOutcome,
    query: QueryOutcome,
    start: StartTransactionOutcome,
    commit: CommitTransactionOutcome,
)
    requires
        !(0 <= id < engines.len()),
    ensures
        ({
            let not_found = Some(ErrorModel::Connector(not_found_text()));
            &&& connect_at(engines, id, connect).0 == engines
            &&& error_of(connect_at(engines, id, connect).1) == not_found
            &&& disconnect_at(engines, id, reparse).0 == engines
            &&& error_of(disconnect_at(engines, id, reparse).1) == not_found
            &&& error_of(query_at(engines, id, query)) == not_found
            &&& error_of(start_transaction_at(engines, id, start)) == not_found
            &&& error_of(commit_transaction_at(engines, id, commit)) == not_found
        }),
{
}

/// The marker that the message of every contained fault begins with.
pub open spec fn fault_marker() -> Seq<char> {
    "PANIC: "@
}

/// The message of a contained fault begins with the marker.
pub proof fn lemma_fault_is_marked(message: Option<String>)
    ensures
        fault_marker().is_prefix_of(panic_text(message)),
{
    reveal_strlit("PANIC: ");
    reveal_strlit("PANIC: unknown panic");
    match message {
        Some(said) => {
            assert(("PANIC: "@ + said@).subrange(0, 7) =~= "PANIC: "@);
        },
        None => {
            assert("PANIC: unknown panic"@.subrange(0, 7) =~= "PANIC: "@);
        },
    }
}

/// A fault in the work handed to the backend leaves the engine exactly as it
/// was. Where the operation got as far as the backend, it returns the `Core`
/// error whose message carries the fault marker.
pub proof fn lemma_fault_contained<S, Q, X>(state: EngineModel<S, Q, X>, message: Option<String>)
    ensures
        ({
            let connect = connect_step::<S, Q, X>(state, ConnectOutcome::Fault(message));
            let disconnect = disconnect_step(state, ReparseOutcome::Fault(message));
            let query = query_result(state, QueryOutcome::Fault(message));
            let start = start_transaction_result(state, StartTransactionOutcome::Fault(message));
            let commit = commit_transaction_result(state, CommitTransactionOutcome::Fault(message));
            let contained = Some(ErrorModel::Core(panic_text(message)));
            &&& connect.0 == state
            &&& disconnect.0 == state
            &&& (state matches EngineModel::Builder { datasources, .. } && connect_target(
                datasources,
            ) is Ok) ==> error_of(connect.1) == contained
            &&& state is Connected ==> {
                &&& error_of(disconnect.1) == contained
                &&& error_of(query) == contained
                &&& error_of(start) == contained
                &&& error_of(commit) == contained
            }
            &&& fault_marker().is_prefix_of(panic_text(message))
        }),
{
    lemma_fault_is_marked(message);
}

} // verus!
