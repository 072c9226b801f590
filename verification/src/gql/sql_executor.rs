//! The query-execution orchestrator's decision logic.
//!
//! The execution service is reached over the network by the surrounding
//! program; every reply it hands back is modelled here as a plain value, and
//! the classification of each reply — success handle, intrinsic SQL
//! rejection, runtime failure, protocol violation or transport failure — is
//! a verified, total function of that value.

use vstd::prelude::*;

use crate::gql::error;

verus! {

/// The oneof body of a run-query reply: a handle for a started execution, a
/// message for SQL that failed at execution time, or an absent body.
#[derive(Debug)]
pub enum RunQueryReply {
    Id(String),
    Error(String),
    Missing,
}

/// The transport-level outcome of a run-query call: a reply, a rejection of
/// the submitted SQL (the service's distinguished invalid-argument status,
/// with its message), or any other transport failure (cause kept for logs).
#[derive(Debug)]
pub enum RunQueryOutcome {
    Reply(RunQueryReply),
    InvalidArgument(String),
    Transport(String),
}

/// One message of a retrieve-query stream: the column-name header, a row of
/// nullable cells, or a message whose body is absent.
#[derive(Debug)]
pub enum StreamEvent {
    Header(Vec<String>),
    Row(Vec<Option<String>>),
    Missing,
}

/// The transport-level outcome of an equivalence check: the service's
/// verdict, or a transport failure (cause kept for logs).
#[derive(Debug)]
pub enum CompareOutcome {
    Same(bool),
    Transport(String),
}

/// The caller-facing result of a submission: either a started execution or
/// a first-class failure intrinsic to the submitted SQL.
#[derive(Debug)]
pub enum ExecuteResult {
    Success(ExecuteSuccessResult),
    Failed(ExecuteFailedResult),
}

/// A started execution: the schema-setup script it ran under and the handle
/// for retrieving its rows or comparing it against a reference.
#[derive(Debug)]
pub struct ExecuteSuccessResult {
    pub initial_sql: String,
    pub user_query_id: String,
}

/// Semantically valid SQL whose execution failed at runtime; the service's
/// message is passed through verbatim.
#[derive(Debug)]
pub struct ExecuteFailedResult {
    pub error: String,
}

/// An ordered column-name header plus ordered rows of nullable cells.
#[derive(Debug)]
pub struct Table {
    pub column: Vec<String>,
    pub rows: Vec<Vec<Option<String>>>,
}

/// A failure of the orchestrator, before normalization.
#[derive(Debug)]
pub enum Error {
    /// SQL rejected by the service; its message is user-facing.
    InvalidQuery(String),
    /// A transport failure; the cause is kept for logs only.
    RetrieveFailed(String),
    /// A malformed reply or stream: an unexpected message sequence.
    InvalidResponseType,
    /// No execution service is configured.
    DbrunnerUnavailable,
    /// The stored reference answer itself failed to run.
    AnswerInvalid { error: String },
}

/// The classification of a run-query outcome for a user submission.
pub open spec fn run_query_classification(initial_sql: String, outcome: RunQueryOutcome) -> Result<
    ExecuteResult,
    Error,
> {
    match outcome {
        RunQueryOutcome::Reply(RunQueryReply::Id(id)) => Ok(
            ExecuteResult::Success(ExecuteSuccessResult { initial_sql, user_query_id: id }),
        ),
        RunQueryOutcome::Reply(RunQueryReply::Error(e)) => Ok(
            ExecuteResult::Failed(ExecuteFailedResult { error: e }),
        ),
        RunQueryOutcome::Reply(RunQueryReply::Missing) => Err(Error::InvalidResponseType),
        RunQueryOutcome::InvalidArgument(m) => Err(Error::InvalidQuery(m)),
        RunQueryOutcome::Transport(c) => Err(Error::RetrieveFailed(c)),
    }
}

/// Classify the service's reply to a user submission. A rejection of the
/// SQL keeps the service's message verbatim; a runtime failure is a
/// first-class `Failed` result, never a rejection; any other transport
/// failure withholds its cause from the caller.
pub fn classify_run_query(initial_sql: String, outcome: RunQueryOutcome) -> (r: Result<
    ExecuteResult,
    Error,
>)
    ensures
        r == run_query_classification(initial_sql, outcome),
{
    match outcome {
        RunQueryOutcome::Reply(RunQueryReply::Id(id)) => Ok(
            ExecuteResult::Success(ExecuteSuccessResult { initial_sql, user_query_id: id }),
        ),
        RunQueryOutcome::Reply(RunQueryReply::Error(e)) => Ok(
            ExecuteResult::Failed(ExecuteFailedResult { error: e }),
        ),
        RunQueryOutcome::Reply(RunQueryReply::Missing) => Err(Error::InvalidResponseType),
        RunQueryOutcome::InvalidArgument(m) => Err(Error::InvalidQuery(m)),
        RunQueryOutcome::Transport(c) => Err(Error::RetrieveFailed(c)),
    }
}

/// Classifying a submission outcome is a pure function of the outcome: two
/// equal outcomes always classify alike, so resubmitting the same SQL and
/// receiving the same reply yields the same classification, message
/// included.
pub proof fn classification_is_deterministic(
    initial_sql: String,
    a: RunQueryOutcome,
    b: RunQueryOutcome,
)
    requires
        a == b,
    ensures
        run_query_classification(initial_sql, a) == run_query_classification(initial_sql, b),
{
}

/// A runtime failure is surfaced as a `Failed` result carrying the
/// service's message, never as a rejection; a rejection is surfaced as an
/// `InvalidQuery` error carrying the service's message verbatim.
pub proof fn runtime_failure_is_not_rejection(initial_sql: String, message: String)
    ensures
        run_query_classification(
            initial_sql,
            RunQueryOutcome::Reply(RunQueryReply::Error(message)),
        ) == Ok::<ExecuteResult, Error>(
            ExecuteResult::Failed(ExecuteFailedResult { error: message }),
        ),
        run_query_classification(initial_sql, RunQueryOutcome::InvalidArgument(message)) == Err::<
            ExecuteResult,
            Error,
        >(Error::InvalidQuery(message)),
{
}

/// A well-formed retrieval stream: every message has a body, and any
/// non-empty stream is a single header followed only by rows.
pub open spec fn valid_stream(events: Seq<StreamEvent>) -> bool {
    &&& forall|i: int| 0 <= i < events.len() ==> !(#[trigger] events[i] is Missing)
    &&& events.len() > 0 ==> events[0] is Header
    &&& forall|i: int| 1 <= i < events.len() ==> #[trigger] events[i] is Row
}

/// The column header of a well-formed stream; an empty stream has no
/// columns.
pub open spec fn stream_columns(events: Seq<StreamEvent>) -> Seq<String> {
    if events.len() == 0 {
        Seq::empty()
    } else {
        events[0]->Header_0@
    }
}

/// The rows of a well-formed stream, in arrival order.
pub open spec fn stream_rows(events: Seq<StreamEvent>) -> Seq<Vec<Option<String>>> {
    if events.len() == 0 {
        Seq::empty()
    } else {
        events.skip(1).map_values(|e: StreamEvent| e->Row_0)
    }
}

/// Retrieval keeps stream order: in a well-formed stream the assembled
/// table's columns are the header's cells, it has one row per row message,
/// and its k-th row is the payload of the k-th row message — no
/// reordering, dropping or duplication.
pub proof fn retrieval_keeps_order(events: Seq<StreamEvent>)
    requires
        valid_stream(events),
        events.len() > 0,
    ensures
        stream_columns(events) == events[0]->Header_0@,
        stream_rows(events).len() == events.len() - 1,
        forall|k: int| 0 <= k < events.len() - 1 ==> #[trigger] stream_rows(events)[k]
            == events[k + 1]->Row_0,
{
}

/// Fold a fully received retrieval stream into a table. Succeeds exactly on
/// well-formed streams, capturing the header once and appending rows in
/// arrival order; any other sequence of messages is a protocol violation.
pub fn assemble_table(events: Vec<StreamEvent>) -> (r: Result<Table, Error>)
    ensures
        r is Ok <==> valid_stream(events@),
        r matches Ok(t) ==> t.column@ == stream_columns(events@) && t.rows@ == stream_rows(
            events@,
        ),
        r is Err ==> r == Err::<Table, Error>(Error::InvalidResponseType),
{
    let ghost all = events@;
    let mut column: Option<Vec<String>> = None;
    let mut rows: Vec<Vec<Option<String>>> = Vec::new();
    for event in it: events
        invariant
            it.seq() == all,
            0 <= it.index() <= all.len(),
            forall|j: int| 0 <= j < it.index() ==> !((#[trigger] all[j]) is Missing),
            it.index() > 0 ==> all[0] is Header,
            forall|j: int| 1 <= j < it.index() ==> (#[trigger] all[j]) is Row,
            column is Some <==> it.index() > 0,
            column matches Some(c) ==> c@ == all[0]->Header_0@,
            rows@ == (if it.index() > 0 {
                all.subrange(1, it.index()).map_values(|e: StreamEvent| e->Row_0)
            } else {
                Seq::<Vec<Option<String>>>::empty()
            }),
    {
        let ghost k = it.index();
        assert(event == all[k]);
        match event {
            StreamEvent::Header(h) => {
                if column.is_some() {
                    proof {
                        assert(k >= 1);
                        assert(!valid_stream(all)) by {
                            assert(!(all[k] is Row));
                        }
                    }
                    return Err(Error::InvalidResponseType);
                }
                column = Some(h);
                proof {
                    assert(rows@ =~= all.subrange(1, 1).map_values(|e: StreamEvent| e->Row_0));
                }
            },
            StreamEvent::Row(cells) => {
                if column.is_none() {
                    proof {
                        assert(k == 0);
                        assert(!valid_stream(all)) by {
                            assert(!(all[0] is Header));
                        }
                    }
                    return Err(Error::InvalidResponseType);
                }
                rows.push(cells);
                proof {
                    assert(rows@ =~= all.subrange(1, k + 1).map_values(
                        |e: StreamEvent| e->Row_0,
                    ));
                }
            },
            StreamEvent::Missing => {
                proof {
                    assert(!valid_stream(all)) by {
                        assert(all[k] is Missing);
                    }
                }
                return Err(Error::InvalidResponseType);
            },
        }
    }
    match column {
        Some(header) => {
            proof {
                assert(stream_rows(all) =~= all.subrange(1, all.len() as int).map_values(
                    |e: StreamEvent| e->Row_0,
                ));
            }
            Ok(Table { column: header, rows })
        },
        None => {
            proof {
                assert(all.len() == 0);
            }
            Ok(Table { column: Vec::new(), rows })
        },
    }
}

/// The classification of the reference answer's own submission during an
/// equivalence check.
pub open spec fn answer_run_classification(outcome: RunQueryOutcome) -> Result<String, Error> {
    match outcome {
        RunQueryOutcome::Reply(RunQueryReply::Id(id)) => Ok(id),
        RunQueryOutcome::Reply(RunQueryReply::Error(e)) => Err(Error::AnswerInvalid { error: e }),
        RunQueryOutcome::Reply(RunQueryReply::Missing) => Err(Error::InvalidResponseType),
        RunQueryOutcome::InvalidArgument(m) => Err(Error::RetrieveFailed(m)),
        RunQueryOutcome::Transport(c) => Err(Error::RetrieveFailed(c)),
    }
}

/// Classify the service's reply to running the stored reference answer. A
/// failure intrinsic to the reference marks the stored answer itself as
/// invalid — a server-side authoring bug, never blamed on the caller.
pub fn classify_answer_run(outcome: RunQueryOutcome) -> (r: Result<String, Error>)
    ensures
        r == answer_run_classification(outcome),
{
    match outcome {
        RunQueryOutcome::Reply(RunQueryReply::Id(id)) => Ok(id),
        RunQueryOutcome::Reply(RunQueryReply::Error(e)) => Err(Error::AnswerInvalid { error: e }),
        RunQueryOutcome::Reply(RunQueryReply::Missing) => Err(Error::InvalidResponseType),
        RunQueryOutcome::InvalidArgument(m) => Err(Error::RetrieveFailed(m)),
        RunQueryOutcome::Transport(c) => Err(Error::RetrieveFailed(c)),
    }
}

/// The service's equivalence verdict is returned verbatim; a transport
/// failure withholds its cause from the caller.
pub fn comparison_verdict(outcome: CompareOutcome) -> (r: Result<bool, Error>)
    ensures
        r == (match outcome {
            CompareOutcome::Same(b) => Ok::<bool, Error>(b),
            CompareOutcome::Transport(c) => Err::<bool, Error>(Error::RetrieveFailed(c)),
        }),
{
    match outcome {
        CompareOutcome::Same(b) => Ok(b),
        CompareOutcome::Transport(c) => Err(Error::RetrieveFailed(c)),
    }
}

impl error::Error {
    /// Normalization of an orchestrator failure. The two messages that
    /// originate from the caller's own SQL — a rejection and an invalid
    /// stored answer — pass through; every transport failure collapses to a
    /// generic message. The rejection's message and the transport cause are
    /// retained in the log-only field.
    pub fn of_sql_executor(e: Error) -> (r: error::Error)
        ensures
            e matches Error::InvalidQuery(m) ==> {
                &&& r.code == error::ErrorCode::InvalidQuery
                &&& r.title@ == "Invalid query"@
                &&& r.details@ == m@
                &&& (r.error matches Some(c) && c@ == m@)
            },
            e matches Error::RetrieveFailed(c) ==> {
                &&& r.code == error::ErrorCode::InternalError
                &&& r.title@ == "Internal error"@
                &&& r.details@ == "Unable to retrieve results from dbrunner."@
                &&& r.error == Some(c)
            },
            e is InvalidResponseType ==> {
                &&& r.code == error::ErrorCode::InternalError
                &&& r.title@ == "Internal error"@
                &&& r.details@ == "Unknown response type."@
                &&& r.error is None
            },
            e is DbrunnerUnavailable ==> {
                &&& r.code == error::ErrorCode::InternalError
                &&& r.title@ == "Internal error"@
                &&& r.details@ == "Database runner is not available."@
                &&& r.error is None
            },
            e matches Error::AnswerInvalid { error: m } ==> {
                &&& r.code == error::ErrorCode::InternalError
                &&& r.title@ == "Invalid answer"@
                &&& r.details@ == m@
                &&& r.error is None
            },
    {
        match e {
            Error::InvalidQuery(m) => error::Error {
                code: error::ErrorCode::InvalidQuery,
                title: "Invalid query".to_owned(),
                details: m.clone(),
                error: Some(m),
            },
            Error::RetrieveFailed(c) => error::Error {
                code: error::ErrorCode::InternalError,
                title: "Internal error".to_owned(),
                details: "Unable to retrieve results from dbrunner.".to_owned(),
                error: Some(c),
            },
            Error::InvalidResponseType => error::Error {
                code: error::ErrorCode::InternalError,
                title: "Internal error".to_owned(),
                details: "Unknown response type.".to_owned(),
                error: None,
            },
            Error::DbrunnerUnavailable => error::Error {
                code: error::ErrorCode::InternalError,
                title: "Internal error".to_owned(),
                details: "Database runner is not available.".to_owned(),
                error: None,
            },
            Error::AnswerInvalid { error: m } => error::Error {
                code: error::ErrorCode::InternalError,
                title: "Invalid answer".to_owned(),
                details: m,
                error: None,
            },
        }
    }
}

} // verus!
