//! The `deploy` subcommand: environment variables given as `KEY=VALUE`, the
//! request that is sent, and the rows that show the reply.

use vstd::prelude::*;
use crate::table::{ascii_table, record2, records_view, render_ascii};
use crate::text::{bool_text, bool_to_text, lemma_split_once_after, lemma_split_once_parts, split_once, split_once_char, texts};

verus! {

/// A single environment variable represented as a key-value pair.
#[derive(Debug)]
pub struct EnvVar {
    pub key: String,
    pub value: String,
}

/// Request payload for the Deploy operation.
#[derive(Debug)]
pub struct DeployRequest {
    pub yaml_content: String,
    pub env_vars: Vec<EnvVar>,
}

/// Response payload for the Deploy operation.
#[derive(Debug)]
pub struct DeployResponse {
    pub success: bool,
    pub report: Vec<String>,
}

/// Table row used when rendering the deploy response.
#[derive(Debug)]
pub struct DeployResponseRow {
    pub success: bool,
    pub report: String,
}

/// The key and value of each environment variable.
pub open spec fn env_pairs(v: Seq<EnvVar>) -> Seq<(Seq<char>, Seq<char>)> {
    v.map_values(|e: EnvVar| (e.key@, e.value@))
}

/// The `KEY=VALUE` text of an environment variable.
pub open spec fn env_var_text(key: Seq<char>, value: Seq<char>) -> Seq<char> {
    key + "="@ + value
}

/// The message for an environment variable without `=`.
pub open spec fn env_var_error(s: Seq<char>) -> Seq<char> {
    "env-var '"@ + s + "' must be in KEY=VALUE format"@
}

/// The message when neither YAML content nor JSON is given.
pub open spec fn missing_yaml_error() -> Seq<char> {
    "--yaml-content is required when --json is not provided"@
}

/// The environment variables that a list of `KEY=VALUE` texts denotes, or
/// the message for the first text that has no `=`.
pub open spec fn env_vars_result(raw: Seq<Seq<char>>) -> Result<
    Seq<(Seq<char>, Seq<char>)>,
    Seq<char>,
>
    decreases raw.len(),
{
    if raw.len() == 0 {
        Ok(Seq::empty())
    } else {
        match env_vars_result(raw.drop_last()) {
            Err(e) => Err(e),
            Ok(done) => match split_once(raw.last(), '=') {
                Some(parts) => Ok(done.push(parts)),
                None => Err(env_var_error(raw.last())),
            },
        }
    }
}

proof fn lemma_env_vars_error_sticks(raw: Seq<Seq<char>>, k: int)
    requires
        0 <= k <= raw.len(),
        env_vars_result(raw.take(k)) is Err,
    ensures
        env_vars_result(raw) == env_vars_result(raw.take(k)),
    decreases raw.len(),
{
    if k == raw.len() {
        assert(raw.take(k) =~= raw);
    } else {
        assert(raw.drop_last().take(k) =~= raw.take(k));
        lemma_env_vars_error_sticks(raw.drop_last(), k);
    }
}

/// Parse a `KEY=VALUE` string into an [`EnvVar`]: the key is what stands
/// before the first `=`, the value what follows it.
pub fn parse_env_var(s: &str) -> (r: Result<EnvVar, String>)
    ensures
        r is Ok <==> split_once(s@, '=') is Some,
        r matches Ok(e) ==> split_once(s@, '=') == Some((e.key@, e.value@)),
        r matches Err(m) ==> m@ == env_var_error(s@),
{
    match split_once_char(s, '=') {
        Some((key, value)) => Ok(EnvVar { key, value }),
        None => {
            let mut m = String::from_str("env-var '");
            m.append(s);
            m.append("' must be in KEY=VALUE format");
            Err(m)
        },
    }
}

/// Parses each `KEY=VALUE` text in turn; the first one without `=` decides
/// the error.
pub fn parse_env_vars(raw: &Vec<String>) -> (r: Result<Vec<EnvVar>, String>)
    ensures
        match env_vars_result(texts(raw@)) {
            Ok(pairs) => r matches Ok(v) && env_pairs(v@) == pairs,
            Err(e) => r matches Err(m) && m@ == e,
        },
{
    let mut out: Vec<EnvVar> = Vec::new();
    let n = raw.len();
    let mut i: usize = 0;
    assert(texts(raw@).take(0) =~= Seq::<Seq<char>>::empty());
    assert(env_pairs(out@) =~= Seq::<(Seq<char>, Seq<char>)>::empty());
    while i < n
        invariant
            n == raw@.len(),
            i <= n,
            env_vars_result(texts(raw@).take(i as int)) == Ok::<_, Seq<char>>(env_pairs(out@)),
        decreases n - i,
    {
        let ghost prefix = texts(raw@).take(i as int);
        let ghost next = texts(raw@).take(i + 1);
        assert(next.drop_last() =~= prefix);
        assert(next.last() == raw@[i as int]@);
        match parse_env_var(raw[i].as_str()) {
            Ok(e) => {
                let ghost before = out@;
                let ghost pair = (e.key@, e.value@);
                out.push(e);
                assert(env_pairs(out@) =~= env_pairs(before).push(pair));
            },
            Err(m) => {
                proof {
                    lemma_env_vars_error_sticks(texts(raw@), i as int + 1);
                }
                return Err(m);
            },
        }
        i += 1;
    }
    assert(texts(raw@).take(n as int) =~= texts(raw@));
    Ok(out)
}

/// Builds the Deploy request from the individual command-line values: the
/// YAML content is required, and each environment variable must be
/// `KEY=VALUE`; the YAML content is checked first.
pub fn build_deploy_request(yaml_content: Option<String>, env_vars: Vec<String>) -> (r: Result<
    DeployRequest,
    String,
>)
    ensures
        match yaml_content {
            None => r matches Err(m) && m@ == missing_yaml_error(),
            Some(y) => match env_vars_result(texts(env_vars@)) {
                Ok(pairs) => r matches Ok(req) && req.yaml_content@ == y@ && env_pairs(
                    req.env_vars@,
                ) == pairs,
                Err(e) => r matches Err(m) && m@ == e,
            },
        },
{
    match yaml_content {
        None => Err(String::from_str("--yaml-content is required when --json is not provided")),
        Some(yaml) => {
            let parsed = parse_env_vars(&env_vars)?;
            Ok(DeployRequest { yaml_content: yaml, env_vars: parsed })
        },
    }
}

/// The table rows that show a Deploy response: one row per report line, the
/// first of which carries the success flag; a single row with an empty
/// report when there are no lines.
pub fn deploy_rows(response: &DeployResponse) -> (rows: Vec<DeployResponseRow>)
    ensures
        response.report@.len() == 0 ==> rows@.len() == 1 && rows@[0].success == response.success
            && rows@[0].report@ == Seq::<char>::empty(),
        response.report@.len() > 0 ==> rows@.len() == response.report@.len() && forall|i: int|
            0 <= i < rows@.len() ==> (#[trigger] rows@[i]).success == (i == 0 && response.success)
                && rows@[i].report@ == response.report@[i]@,
{
    let mut rows: Vec<DeployResponseRow> = Vec::new();
    let n = response.report.len();
    let mut i: usize = 0;
    while i < n
        invariant
            n == response.report@.len(),
            i <= n,
            rows@.len() == i,
            forall|j: int|
                0 <= j < i ==> (#[trigger] rows@[j]).success == (j == 0 && response.success)
                    && rows@[j].report@ == response.report@[j]@,
        decreases n - i,
    {
        let success = if i == 0 {
            response.success
        } else {
            false
        };
        rows.push(DeployResponseRow { success, report: response.report[i].clone() });
        i += 1;
    }
    if n == 0 {
        rows.push(DeployResponseRow { success: response.success, report: String::new() });
    }
    rows
}

/// An environment variable written as `KEY=VALUE` reads back as the same
/// key and value, provided the key holds no `=`.
pub proof fn lemma_env_var_text_round_trip(key: Seq<char>, value: Seq<char>)
    requires
        !key.contains('='),
    ensures
        split_once(env_var_text(key, value), '=') == Some((key, value)),
{
    reveal_strlit("=");
    assert(env_var_text(key, value) =~= key + seq!['='] + value);
    lemma_split_once_after(key, '=', value);
}

/// When every text holds an `=`, the list of environment variables is
/// accepted, one variable per text, each split at its first `=`.
pub proof fn lemma_env_vars_all_valid(raw: Seq<Seq<char>>)
    requires
        forall|i: int| 0 <= i < raw.len() ==> (#[trigger] raw[i]).contains('='),
    ensures
        env_vars_result(raw) matches Ok(pairs) && pairs.len() == raw.len() && forall|i: int|
            0 <= i < raw.len() ==> split_once(#[trigger] raw[i], '=') == Some(pairs[i]),
    decreases raw.len(),
{
    if raw.len() > 0 {
        let init = raw.drop_last();
        assert forall|i: int| 0 <= i < init.len() implies (#[trigger] init[i]).contains('=') by {
            assert(init[i] == raw[i]);
        }
        lemma_env_vars_all_valid(init);
        lemma_split_once_parts(raw.last(), '=');
        assert(raw.last() == raw[raw.len() - 1]);
        let pairs = env_vars_result(init)->Ok_0;
        assert forall|i: int| 0 <= i < raw.len() implies split_once(#[trigger] raw[i], '=')
            == Some(pairs.push(split_once(raw.last(), '=')->Some_0)[i]) by {
            if i < init.len() {
                assert(raw[i] == init[i]);
            }
        }
    }
}

/// The records of the table that shows the rows of a Deploy response: the header, then
/// the cells of each row.
pub open spec fn deploy_records(rows: Seq<DeployResponseRow>) -> Seq<Seq<Seq<char>>> {
    seq![seq!["Success"@, "Report"@]] + rows.map_values(|r: DeployResponseRow| seq![bool_text(r.success), r.report@])
}

/// The table that shows the rows of a Deploy response.
pub fn deploy_table(rows: &Vec<DeployResponseRow>) -> (r: String)
    ensures
        r@ == ascii_table(deploy_records(rows@)),
{
    let mut records: Vec<Vec<String>> = Vec::new();
    records.push(record2(String::from_str("Success"), String::from_str("Report")));
    let n = rows.len();
    let mut i: usize = 0;
    while i < n
        invariant
            n == rows@.len(),
            i <= n,
            records_view(records@) == deploy_records(rows@.take(i as int)),
        decreases n - i,
    {
        let ghost before = records_view(records@);
        let row = &rows[i];
        let record = record2(String::from_str(bool_to_text(row.success)), row.report.clone());
        let ghost rv = texts(record@);
        records.push(record);
        assert(records_view(records@) =~= before.push(rv));
        assert(deploy_records(rows@.take(i + 1)) =~= deploy_records(rows@.take(i as int)).push(rv));
        i += 1;
    }
    assert(rows@.take(n as int) =~= rows@);
    render_ascii(&records)
}

/// The Deploy table has the header `Success | Report`, then one record per row in order, with the row's success flag under `Success` and its report line under `Report`.
pub proof fn lemma_deploy_table_columns(rows: Seq<DeployResponseRow>)
    ensures
        deploy_records(rows).len() == rows.len() + 1,
        deploy_records(rows)[0] == seq!["Success"@, "Report"@],
        forall|i: int|
            0 <= i < rows.len() ==> #[trigger] deploy_records(rows)[i + 1] == seq![bool_text(rows[i].success), rows[i].report@],
{
    assert forall|i: int| 0 <= i < rows.len() implies #[trigger] deploy_records(rows)[i + 1] == seq![bool_text(rows[i].success), rows[i].report@] by {
        let r = rows[i];
        assert(deploy_records(rows)[i + 1] == seq![bool_text(r.success), r.report@]);
    }
}

} // verus!
