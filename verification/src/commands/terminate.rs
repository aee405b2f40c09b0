//! The `terminate` subcommand: asking the managed application to shut down
//! gracefully, and the row that shows its answer.

use vstd::prelude::*;
use crate::table::{ascii_table, record2, records_view, render_ascii};
use crate::text::{bool_text, bool_to_text, texts};

verus! {

/// Request payload for the Terminate operation.
#[derive(Debug)]
pub struct TerminateRequest {
    pub reason: String,
}

/// Response payload for the Terminate operation.
#[derive(Debug)]
pub struct TerminateResponse {
    pub success: bool,
    pub message: String,
}

/// Table row used when rendering the terminate response.
#[derive(Debug)]
pub struct TerminateResponseRow {
    pub success: bool,
    pub message: String,
}

/// The text of an optional string, empty when it is absent.
pub open spec fn text_or_empty(s: Option<String>) -> Seq<char> {
    match s {
        Some(t) => t@,
        None => Seq::<char>::empty(),
    }
}

/// Builds the Terminate request; without a reason the reason is empty.
pub fn build_terminate_request(reason: Option<String>) -> (r: TerminateRequest)
    ensures
        r.reason@ == text_or_empty(reason),
{
    let reason = match reason {
        Some(t) => t,
        None => String::new(),
    };
    TerminateRequest { reason }
}

/// The table rows that show a Terminate response: a single row with its
/// success flag and message.
pub fn terminate_rows(response: &TerminateResponse) -> (rows: Vec<TerminateResponseRow>)
    ensures
        rows@.len() == 1,
        rows@[0].success == response.success,
        rows@[0].message@ == response.message@,
{
    let mut rows: Vec<TerminateResponseRow> = Vec::new();
    rows.push(TerminateResponseRow { success: response.success, message: response.message.clone() });
    rows
}

/// The records of the table that shows the rows of a Terminate response: the header, then
/// the cells of each row.
pub open spec fn terminate_records(rows: Seq<TerminateResponseRow>) -> Seq<Seq<Seq<char>>> {
    seq![seq!["Success"@, "Message"@]] + rows.map_values(|r: TerminateResponseRow| seq![bool_text(r.success), r.message@])
}

/// The table that shows the rows of a Terminate response.
pub fn terminate_table(rows: &Vec<TerminateResponseRow>) -> (r: String)
    ensures
        r@ == ascii_table(terminate_records(rows@)),
{
    let mut records: Vec<Vec<String>> = Vec::new();
    records.push(record2(String::from_str("Success"), String::from_str("Message")));
    let n = rows.len();
    let mut i: usize = 0;
    while i < n
        invariant
            n == rows@.len(),
            i <= n,
            records_view(records@) == terminate_records(rows@.take(i as int)),
        decreases n - i,
    {
        let ghost before = records_view(records@);
        let row = &rows[i];
        let record = record2(String::from_str(bool_to_text(row.success)), row.message.clone());
        let ghost rv = texts(record@);
        records.push(record);
        assert(records_view(records@) =~= before.push(rv));
        assert(terminate_records(rows@.take(i + 1)) =~= terminate_records(rows@.take(i as int)).push(rv));
        i += 1;
    }
    assert(rows@.take(n as int) =~= rows@);
    render_ascii(&records)
}

/// The Terminate table has the header `Success | Message`, then one record per row in order, with the success flag under `Success` and the message under `Message`.
pub proof fn lemma_terminate_table_columns(rows: Seq<TerminateResponseRow>)
    ensures
        terminate_records(rows).len() == rows.len() + 1,
        terminate_records(rows)[0] == seq!["Success"@, "Message"@],
        forall|i: int|
            0 <= i < rows.len() ==> #[trigger] terminate_records(rows)[i + 1] == seq![bool_text(rows[i].success), rows[i].message@],
{
    assert forall|i: int| 0 <= i < rows.len() implies #[trigger] terminate_records(rows)[i + 1] == seq![bool_text(rows[i].success), rows[i].message@] by {
        let r = rows[i];
        assert(terminate_records(rows)[i + 1] == seq![bool_text(r.success), r.message@]);
    }
}

} // verus!
