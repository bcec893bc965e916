//! The four result shapes an executor can hand back, and the protocol-level
//! responses the session normalizes them into.

use vstd::prelude::*;

use crate::error::NexusError;

verus! {

/// Column schema of a result set, as the column names.
pub struct Schema {
    pub columns: Vec<String>,
}

impl Clone for Schema {
    fn clone(&self) -> (r: Self)
        ensures
            r.columns@ =~= self.columns@,
    {
        let mut columns: Vec<String> = Vec::new();
        let mut i: usize = 0;
        while i < self.columns.len()
            invariant
                i <= self.columns@.len(),
                columns@ =~= self.columns@.take(i as int),
            decreases self.columns@.len() - i,
        {
            columns.push(self.columns[i].clone());
            proof {
                assert(self.columns@.take(i as int + 1).drop_last() =~= self.columns@.take(
                    i as int,
                ));
                assert(columns@ =~= self.columns@.take(i as int + 1));
            }
            i = i + 1;
        }
        proof {
            assert(self.columns@.take(self.columns@.len() as int) =~= self.columns@);
        }
        Schema { columns }
    }
}

/// A cursor change reported by an executor.
pub enum CursorModification {
    /// The statement declared a cursor under this name.
    Created(String),
    /// The statement closed the cursors under these names.
    Closed(Vec<String>),
}

/// What an executor returns for one statement.
pub enum QueryOutput {
    /// A statement that changed rows, with the count of rows affected.
    AffectedRows(u64),
    /// A lazy, finite, non-restartable row sequence; `stream` is the handle
    /// under which the caller tracks the row source, which lives outside
    /// the library.
    Stream { schema: Schema, stream: u64 },
    /// Rows the backend already materialized and bounded.
    Records { schema: Schema, rows: Vec<Vec<String>> },
    /// No rows: the statement changed the session's cursors.
    Cursor(CursorModification),
}

/// One response on its way back to the client.
pub enum SessionResponse {
    /// A plain acknowledgment: a command tag, and a row count where the
    /// command reports one.
    Execution { tag: String, rows: Option<u64> },
    /// A streaming response preserving the column schema; rows follow
    /// lazily from the source behind `stream`.
    Stream { schema: Schema, stream: u64 },
    /// An eagerly materialized response.
    Records { schema: Schema, records: Vec<Vec<String>> },
    /// An error surfaced to the client; the failing request aborts, the
    /// session stays usable.
    Error { severity: String, code: String, message: String },
    /// The statement text was empty after substitution.
    EmptyQuery,
}

/// Whether `r` is a plain acknowledgment with this tag and row count.
pub open spec fn is_ack(r: SessionResponse, tag: Seq<char>, rows: Option<u64>) -> bool {
    match r {
        SessionResponse::Execution { tag: t, rows: n } => t@ == tag && n == rows,
        _ => false,
    }
}

/// Whether `r` surfaces exactly the error `e`.
pub open spec fn is_error_for(r: SessionResponse, e: NexusError) -> bool {
    match r {
        SessionResponse::Error { severity, code, message } => {
            &&& severity@ == e.spec_severity()
            &&& code@ == e.spec_code()
            &&& message@ == e.spec_message()
        },
        _ => false,
    }
}

/// Turn a typed error into the response that surfaces it to the client.
pub fn error_response(e: &NexusError) -> (r: SessionResponse)
    ensures
        is_error_for(r, *e),
{
    SessionResponse::Error {
        severity: e.severity().to_owned(),
        code: e.code().to_owned(),
        message: e.message(),
    }
}

} // verus!
