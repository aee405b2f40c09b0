//! The `application` subcommands of the ApplicationFactory service:
//! activating an application from YAML configuration and environment
//! variables, listing the active ones, and terminating one.

use vstd::prelude::*;
use crate::table::{ascii_table, record2, record3, records_view, render_ascii};

use crate::commands::deploy::{
    env_pairs, env_var_error, env_vars_result, missing_yaml_error, parse_env_vars, EnvVar,
};
use crate::commands::terminate::text_or_empty;
use crate::text::{split_once, texts, bool_text, bool_to_text};

verus! {

/// Request payload for the ActivateApplication operation.
#[derive(Debug)]
pub struct ActivateApplicationRequest {
    pub yaml_content: String,
    pub env_vars: Vec<EnvVar>,
}

/// Response payload for the ActivateApplication operation.
#[derive(Debug)]
pub struct ActivateApplicationResponse {
    pub success: bool,
    pub application_id: String,
    pub report: Vec<String>,
}

/// An active application instance.
#[derive(Debug)]
pub struct ActiveApplication {
    pub application_id: String,
    pub app_name: String,
}

/// Response payload for the ListActiveApplications operation.
#[derive(Debug)]
pub struct ListActiveApplicationsResponse {
    pub applications: Vec<ActiveApplication>,
}

/// Request payload for the TerminateApplication operation.
#[derive(Debug)]
pub struct TerminateApplicationRequest {
    pub application_id: String,
    pub reason: String,
}

/// Response payload for the TerminateApplication operation.
#[derive(Debug)]
pub struct TerminateApplicationResponse {
    pub success: bool,
    pub message: String,
}

/// Table row used when rendering the activate response.
#[derive(Debug)]
pub struct ActivateResponseRow {
    pub success: bool,
    pub application_id: String,
    pub report: String,
}

/// Table row used when rendering the list of active applications.
#[derive(Debug)]
pub struct ActiveApplicationRow {
    pub application_id: String,
    pub app_name: String,
}

/// Table row used when rendering the terminate response.
#[derive(Debug)]
pub struct TerminateResponseRow {
    pub success: bool,
    pub message: String,
}

/// The message when neither an application identifier nor JSON is given.
pub open spec fn missing_application_id_error() -> Seq<char> {
    "--application-id is required when --json is not provided"@
}

/// Parse a `KEY=VALUE` string into an [`EnvVar`]: the key is what stands
/// before the first `=`, the value what follows it.
pub fn parse_env_var(s: &str) -> (r: Result<EnvVar, String>)
    ensures
        r is Ok <==> split_once(s@, '=') is Some,
        r matches Ok(e) ==> split_once(s@, '=') == Some((e.key@, e.value@)),
        r matches Err(m) ==> m@ == env_var_error(s@),
{
    crate::commands::deploy::parse_env_var(s)
}

/// Builds the ActivateApplication request from the individual command-line
/// values: the YAML content is required, and each environment variable must
/// be `KEY=VALUE`; the YAML content is checked first.
pub fn build_activate_request(yaml_content: Option<String>, env_vars: Vec<String>) -> (r: Result<
    ActivateApplicationRequest,
    String,
>)
    ensures
        match yaml_content {
            None => r matches Err(m) && m@ == missing_yaml_error(),
            Some(y) => match env_vars_result(texts(env_vars@)) {
                Ok(pairs) => r matches Ok(req) && req.yaml_content@ == y@ && env_pairs(
                    req.env_vars@,
                ) == pairs,
                Err(e) => r matches Err(m) && m@ == e,
            },
        },
{
    match yaml_content {
        None => Err(String::from_str("--yaml-content is required when --json is not provided")),
        Some(yaml) => {
            let parsed = parse_env_vars(&env_vars)?;
            Ok(ActivateApplicationRequest { yaml_content: yaml, env_vars: parsed })
        },
    }
}

/// The table rows that show an ActivateApplication response: one row per
/// report line, the first of which carries the success flag and the
/// application identifier; a single row with an empty report when there are
/// no lines.
pub fn activate_rows(response: &ActivateApplicationResponse) -> (rows: Vec<ActivateResponseRow>)
    ensures
        response.report@.len() == 0 ==> rows@.len() == 1 && rows@[0].success == response.success
            && rows@[0].application_id@ == response.application_id@ && rows@[0].report@
            == Seq::<char>::empty(),
        response.report@.len() > 0 ==> rows@.len() == response.report@.len() && forall|i: int|
            0 <= i < rows@.len() ==> (#[trigger] rows@[i]).success == (i == 0 && response.success)
                && rows@[i].application_id@ == (if i == 0 {
                response.application_id@
            } else {
                Seq::<char>::empty()
            }) && rows@[i].report@ == response.report@[i]@,
{
    let mut rows: Vec<ActivateResponseRow> = Vec::new();
    let n = response.report.len();
    let mut i: usize = 0;
    while i < n
        invariant
            n == response.report@.len(),
            i <= n,
            rows@.len() == i,
            forall|j: int|
                0 <= j < i ==> (#[trigger] rows@[j]).success == (j == 0 && response.success)
                    && rows@[j].application_id@ == (if j == 0 {
                    response.application_id@
                } else {
                    Seq::<char>::empty()
                }) && rows@[j].report@ == response.report@[j]@,
        decreases n - i,
    {
        let (success, application_id) = if i == 0 {
            (response.success, response.application_id.clone())
        } else {
            (false, String::new())
        };
        rows.push(
            ActivateResponseRow { success, application_id, report: response.report[i].clone() },
        );
        i += 1;
    }
    if n == 0 {
        rows.push(
            ActivateResponseRow {
                success: response.success,
                application_id: response.application_id.clone(),
                report: String::new(),
            },
        );
    }
    rows
}

/// The table rows that list the active applications, one per application.
pub fn list_rows(response: &ListActiveApplicationsResponse) -> (rows: Vec<ActiveApplicationRow>)
    ensures
        rows@.len() == response.applications@.len(),
        forall|i: int|
            0 <= i < rows@.len() ==> (#[trigger] rows@[i]).application_id@
                == response.applications@[i].application_id@ && rows@[i].app_name@
                == response.applications@[i].app_name@,
{
    let mut rows: Vec<ActiveApplicationRow> = Vec::new();
    let n = response.applications.len();
    let mut i: usize = 0;
    while i < n
        invariant
            n == response.applications@.len(),
            i <= n,
            rows@.len() == i,
            forall|j: int|
                0 <= j < i ==> (#[trigger] rows@[j]).application_id@
                    == response.applications@[j].application_id@ && rows@[j].app_name@
                    == response.applications@[j].app_name@,
        decreases n - i,
    {
        let a = &response.applications[i];
        rows.push(
            ActiveApplicationRow {
                application_id: a.application_id.clone(),
                app_name: a.app_name.clone(),
            },
        );
        i += 1;
    }
    rows
}

/// Builds the TerminateApplication request from the individual command-line
/// values: the application identifier is required, the reason defaults to
/// empty.
pub fn build_terminate_application_request(
    application_id: Option<String>,
    reason: Option<String>,
) -> (r: Result<TerminateApplicationRequest, String>)
    ensures
        r is Ok <==> application_id is Some,
        r matches Err(m) ==> m@ == missing_application_id_error(),
        r matches Ok(req) ==> req.application_id@ == text_or_empty(application_id)
            && req.reason@ == text_or_empty(reason),
{
    match application_id {
        None => Err(String::from_str("--application-id is required when --json is not provided")),
        Some(id) => {
            let reason = match reason {
                Some(t) => t,
                None => String::new(),
            };
            Ok(TerminateApplicationRequest { application_id: id, reason })
        },
    }
}

/// The table rows that show a TerminateApplication response: a single row
/// with its success flag and message.
pub fn terminate_rows(response: &TerminateApplicationResponse) -> (rows: Vec<TerminateResponseRow>)
    ensures
        rows@.len() == 1,
        rows@[0].success == response.success,
        rows@[0].message@ == response.message@,
{
    let mut rows: Vec<TerminateResponseRow> = Vec::new();
    rows.push(TerminateResponseRow { success: response.success, message: response.message.clone() });
    rows
}

/// The records of the table that shows the rows of an ActivateApplication response: the header, then
/// the cells of each row.
pub open spec fn activate_records(rows: Seq<ActivateResponseRow>) -> Seq<Seq<Seq<char>>> {
    seq![seq!["Success"@, "Application ID"@, "Report"@]] + rows.map_values(|r: ActivateResponseRow| seq![bool_text(r.success), r.application_id@, r.report@])
}

/// The table that shows the rows of an ActivateApplication response.
pub fn activate_table(rows: &Vec<ActivateResponseRow>) -> (r: String)
    ensures
        r@ == ascii_table(activate_records(rows@)),
{
    let mut records: Vec<Vec<String>> = Vec::new();
    records.push(record3(String::from_str("Success"), String::from_str("Application ID"), String::from_str("Report")));
    let n = rows.len();
    let mut i: usize = 0;
    while i < n
        invariant
            n == rows@.len(),
            i <= n,
            records_view(records@) == activate_records(rows@.take(i as int)),
        decreases n - i,
    {
        let ghost before = records_view(records@);
        let row = &rows[i];
        let record = record3(String::from_str(bool_to_text(row.success)), row.application_id.clone(), row.report.clone());
        let ghost rv = texts(record@);
        records.push(record);
        assert(records_view(records@) =~= before.push(rv));
        assert(activate_records(rows@.take(i + 1)) =~= activate_records(rows@.take(i as int)).push(rv));
        i += 1;
    }
    assert(rows@.take(n as int) =~= rows@);
    render_ascii(&records)
}

/// The records of the table that shows the list of active applications: the header, then
/// the cells of each row.
pub open spec fn list_records(rows: Seq<ActiveApplicationRow>) -> Seq<Seq<Seq<char>>> {
    seq![seq!["Application ID"@, "Application"@]] + rows.map_values(|r: ActiveApplicationRow| seq![r.application_id@, r.app_name@])
}

/// The table that shows the list of active applications.
pub fn list_table(rows: &Vec<ActiveApplicationRow>) -> (r: String)
    ensures
        r@ == ascii_table(list_records(rows@)),
{
    let mut records: Vec<Vec<String>> = Vec::new();
    records.push(record2(String::from_str("Application ID"), String::from_str("Application")));
    let n = rows.len();
    let mut i: usize = 0;
    while i < n
        invariant
            n == rows@.len(),
            i <= n,
            records_view(records@) == list_records(rows@.take(i as int)),
        decreases n - i,
    {
        let ghost before = records_view(records@);
        let row = &rows[i];
        let record = record2(row.application_id.clone(), row.app_name.clone());
        let ghost rv = texts(record@);
        records.push(record);
        assert(records_view(records@) =~= before.push(rv));
        assert(list_records(rows@.take(i + 1)) =~= list_records(rows@.take(i as int)).push(rv));
        i += 1;
    }
    assert(rows@.take(n as int) =~= rows@);
    render_ascii(&records)
}

/// The records of the table that shows the rows of a TerminateApplication response: the header, then
/// the cells of each row.
pub open spec fn terminate_records(rows: Seq<TerminateResponseRow>) -> Seq<Seq<Seq<char>>> {
    seq![seq!["Success"@, "Message"@]] + rows.map_values(|r: TerminateResponseRow| seq![bool_text(r.success), r.message@])
}

/// The table that shows the rows of a TerminateApplication response.
pub fn terminate_table(rows: &Vec<TerminateResponseRow>) -> (r: String)
    ensures
        r@ == ascii_table(terminate_records(rows@)),
{
    let mut records: Vec<Vec<String>> = Vec::new();
    records.push(record2(String::from_str("Success"), String::from_str("Message")));
    let n = rows.len();
    let mut i: usize = 0;
    while i < n
        invariant
            n == rows@.len(),
            i <= n,
            records_view(records@) == terminate_records(rows@.take(i as int)),
        decreases n - i,
    {
        let ghost before = records_view(records@);
        let row = &rows[i];
        let record = record2(String::from_str(bool_to_text(row.success)), row.message.clone());
        let ghost rv = texts(record@);
        records.push(record);
        assert(records_view(records@) =~= before.push(rv));
        assert(terminate_records(rows@.take(i + 1)) =~= terminate_records(rows@.take(i as int)).push(rv));
        i += 1;
    }
    assert(rows@.take(n as int) =~= rows@);
    render_ascii(&records)
}

/// The ActivateApplication table has the header `Success | Application ID | Report`, then one record per row in order, with the success flag, the application identifier and the report line each under its own header.
pub proof fn lemma_activate_table_columns(rows: Seq<ActivateResponseRow>)
    ensures
        activate_records(rows).len() == rows.len() + 1,
        activate_records(rows)[0] == seq!["Success"@, "Application ID"@, "Report"@],
        forall|i: int|
            0 <= i < rows.len() ==> #[trigger] activate_records(rows)[i + 1] == seq![bool_text(rows[i].success), rows[i].application_id@, rows[i].report@],
{
    assert forall|i: int| 0 <= i < rows.len() implies #[trigger] activate_records(rows)[i + 1] == seq![bool_text(rows[i].success), rows[i].application_id@, rows[i].report@] by {
        let r = rows[i];
        assert(activate_records(rows)[i + 1] == seq![bool_text(r.success), r.application_id@, r.report@]);
    }
}

/// The table of active applications has the header `Application ID | Application`, then one record per application in order, with its identifier under `Application ID` and its name under `Application`.
pub proof fn lemma_list_table_columns(rows: Seq<ActiveApplicationRow>)
    ensures
        list_records(rows).len() == rows.len() + 1,
        list_records(rows)[0] == seq!["Application ID"@, "Application"@],
        forall|i: int|
            0 <= i < rows.len() ==> #[trigger] list_records(rows)[i + 1] == seq![rows[i].application_id@, rows[i].app_name@],
{
    assert forall|i: int| 0 <= i < rows.len() implies #[trigger] list_records(rows)[i + 1] == seq![rows[i].application_id@, rows[i].app_name@] by {
        let r = rows[i];
        assert(list_records(rows)[i + 1] == seq![r.application_id@, r.app_name@]);
    }
}

/// The TerminateApplication table has the header `Success | Message`, then one record per row in order, with the success flag under `Success` and the message under `Message`.
pub proof fn lemma_terminate_application_table_columns(rows: Seq<TerminateResponseRow>)
    ensures
        terminate_records(rows).len() == rows.len() + 1,
        terminate_records(rows)[0] == seq!["Success"@, "Message"@],
        forall|i: int|
            0 <= i < rows.len() ==> #[trigger] terminate_records(rows)[i + 1] == seq![bool_text(rows[i].success), rows[i].message@],
{
    assert forall|i: int| 0 <= i < rows.len() implies #[trigger] terminate_records(rows)[i + 1] == seq![bool_text(rows[i].success), rows[i].message@] by {
        let r = rows[i];
        assert(terminate_records(rows)[i + 1] == seq![bool_text(r.success), r.message@]);
    }
}

} // verus!
