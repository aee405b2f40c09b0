//! The decisions of the two services that the client talks to: the
//! DeployManager, which accepts a YAML configuration with environment
//! variables and reports on it, and the ManagedApplication, which tells its
//! name and the addresses it listens on.

use vstd::prelude::*;
use vstd::utf8::encode_utf8;
use crate::commands::deploy::{
    env_pairs, env_var_text, DeployRequest, DeployResponse, EnvVar,
};
use crate::commands::info::{
    addresses_view, clone_addresses, InfoRequest, InfoResponse, ListeningAddress,
};
use crate::text::{concat3, join, join_texts, lemma_join_contains, lemma_join_is_separated, separated, nat_decimal, texts, u64_to_decimal};

verus! {

/// Why a service refuses a request.
#[derive(Debug)]
pub enum ServiceError {
    /// The request breaks a rule on its arguments; the message says which.
    InvalidArgument(String),
}

/// The message when the YAML content of a Deploy request is empty.
pub open spec fn empty_yaml_error() -> Seq<char> {
    "yaml_content must not be empty"@
}

/// The `KEY=VALUE` texts of the environment variables.
pub open spec fn env_texts(envs: Seq<(Seq<char>, Seq<char>)>) -> Seq<Seq<char>> {
    envs.map_values(|e: (Seq<char>, Seq<char>)| env_var_text(e.0, e.1))
}

/// The length in UTF-8 bytes of a string held in memory.
pub open spec fn byte_length(text: Seq<char>) -> nat {
    (encode_utf8(text).len() as usize) as nat
}

/// The first part of every deployment report: the YAML content's length in
/// UTF-8 bytes.
pub open spec fn report_head(yaml: Seq<char>) -> Seq<char> {
    "Deployment successful. YAML content length: "@ + nat_decimal(byte_length(yaml)) + " bytes."@
}

/// The report line of an accepted deployment; when there are environment
/// variables it lists them as `KEY=VALUE`, separated by `, `.
pub open spec fn deploy_report(yaml: Seq<char>, envs: Seq<(Seq<char>, Seq<char>)>) -> Seq<char> {
    if envs.len() == 0 {
        report_head(yaml)
    } else {
        report_head(yaml) + " Env vars: ["@ + join(env_texts(envs), ", "@) + "]."@
    }
}

/// The service that accepts deployments.
#[derive(Debug)]
pub struct DeployManagerService;

impl Default for DeployManagerService {
    fn default() -> (r: Self)
        ensures
            r == DeployManagerService,
    {
        DeployManagerService
    }
}

impl DeployManagerService {
    /// Accepts a deployment unless its YAML content is empty, and reports
    /// the content's length and the environment variables.
    pub fn deploy(&self, request: DeployRequest) -> (r: Result<DeployResponse, ServiceError>)
        ensures
            r is Err <==> request.yaml_content@.len() == 0,
            r matches Err(ServiceError::InvalidArgument(m)) ==> m@ == empty_yaml_error(),
            r matches Ok(resp) ==> resp.success && resp.report@.len() == 1
                && resp.report@[0]@ == deploy_report(
                request.yaml_content@,
                env_pairs(request.env_vars@),
            ),
    {
        if request.yaml_content.as_str().is_empty() {
            return Err(ServiceError::InvalidArgument(String::from_str("yaml_content must not be empty")));
        }
        let mut env_summary: Vec<String> = Vec::new();
        let n = request.env_vars.len();
        let mut i: usize = 0;
        while i < n
            invariant
                n == request.env_vars@.len(),
                i <= n,
                texts(env_summary@) == env_texts(env_pairs(request.env_vars@)).take(i as int),
            decreases n - i,
        {
            let e: &EnvVar = &request.env_vars[i];
            let ghost before = texts(env_summary@);
            let entry = concat3(e.key.as_str(), "=", e.value.as_str());
            assert(env_pairs(request.env_vars@)[i as int] == (e.key@, e.value@));
            assert(env_texts(env_pairs(request.env_vars@))[i as int] == entry@);
            let ghost entry_view = entry@;
            env_summary.push(entry);
            assert(texts(env_summary@) =~= before.push(entry_view));
            assert(env_texts(env_pairs(request.env_vars@)).take(i + 1) =~= env_texts(
                env_pairs(request.env_vars@),
            ).take(i as int).push(entry_view));
            assert(texts(env_summary@) =~= env_texts(env_pairs(request.env_vars@)).take(i + 1));
            i += 1;
        }
        assert(env_texts(env_pairs(request.env_vars@)).take(n as int) =~= env_texts(
            env_pairs(request.env_vars@),
        ));
        let bytes: usize = request.yaml_content.as_str().len();
        let length = u64_to_decimal(bytes as u64);
        let mut message = concat3(
            "Deployment successful. YAML content length: ",
            length.as_str(),
            " bytes.",
        );
        if n > 0 {
            let joined = join_texts(&env_summary, ", ");
            message.append(" Env vars: [");
            message.append(joined.as_str());
            message.append("].");
        }
        assert(env_pairs(request.env_vars@).len() == n);
        let mut report: Vec<String> = Vec::new();
        report.push(message);
        Ok(DeployResponse { success: true, report })
    }
}

/// Every environment variable of an accepted deployment occurs in its
/// report as `KEY=VALUE`.
pub proof fn lemma_report_lists_env_vars(
    yaml: Seq<char>,
    envs: Seq<(Seq<char>, Seq<char>)>,
    i: int,
)
    requires
        0 <= i < envs.len(),
    ensures
        exists|k: int|
            0 <= k && k + env_var_text(envs[i].0, envs[i].1).len() <= deploy_report(
                yaml,
                envs,
            ).len() && #[trigger] deploy_report(yaml, envs).subrange(
                k,
                k + env_var_text(envs[i].0, envs[i].1).len(),
            ) == env_var_text(envs[i].0, envs[i].1),
{
    let parts = env_texts(envs);
    let j = join(parts, ", "@);
    lemma_join_contains(parts, ", "@, i);
    let part = parts[i];
    assert(part == env_var_text(envs[i].0, envs[i].1));
    let k = choose|k: int|
        0 <= k && k + part.len() <= j.len() && #[trigger] j.subrange(k, k + part.len()) == part;
    let prefix = report_head(yaml) + " Env vars: ["@;
    let report = deploy_report(yaml, envs);
    assert(report == prefix + j + "]."@);
    let off = prefix.len() + k;
    assert(report.subrange(off, off + part.len()) =~= j.subrange(k, k + part.len()));
}

/// Every deployment report begins with `Deployment successful`.
pub proof fn lemma_report_announces_success(yaml: Seq<char>, envs: Seq<(Seq<char>, Seq<char>)>)
    ensures
        deploy_report(yaml, envs).len() >= "Deployment successful"@.len(),
        deploy_report(yaml, envs).subrange(0, "Deployment successful"@.len() as int)
            == "Deployment successful"@,
{
    reveal_strlit("Deployment successful");
    reveal_strlit("Deployment successful. YAML content length: ");
    let head = "Deployment successful. YAML content length: "@;
    let report = deploy_report(yaml, envs);
    assert(report.subrange(0, 21) =~= head.subrange(0, 21));
    assert(head.subrange(0, 21) =~= "Deployment successful"@);
}

/// The service that tells the application's name and the addresses it
/// listens on.
#[derive(Debug)]
pub struct ManagedApplicationService {
    app_name: String,
    listening_addresses: Vec<ListeningAddress>,
}

impl View for ManagedApplicationService {
    type V = (Seq<char>, Seq<(Seq<char>, Seq<Seq<char>>)>);

    closed spec fn view(&self) -> (Seq<char>, Seq<(Seq<char>, Seq<Seq<char>>)>) {
        (self.app_name@, addresses_view(self.listening_addresses@))
    }
}

impl ManagedApplicationService {
    /// A service for the named application, listening on the given
    /// addresses.
    pub fn new(app_name: String, listening_addresses: Vec<ListeningAddress>) -> (r: Self)
        ensures
            r@ == (app_name@, addresses_view(listening_addresses@)),
    {
        ManagedApplicationService { app_name, listening_addresses }
    }

    /// Tells the application's name and the addresses it listens on, as
    /// the service was given them.
    pub fn info(&self, request: InfoRequest) -> (r: InfoResponse)
        ensures
            (r.app_name@, addresses_view(r.listening_addresses@)) == self@,
    {
        InfoResponse {
            app_name: self.app_name.clone(),
            listening_addresses: clone_addresses(&self.listening_addresses),
        }
    }
}

/// The entries of the variable list of a report: each `KEY=VALUE`, every
/// one but the first preceded by `, `.
pub open spec fn report_entries(envs: Seq<(Seq<char>, Seq<char>)>) -> Seq<Seq<char>> {
    Seq::new(
        envs.len(),
        |i: int|
            if i == 0 {
                envs[0].0 + "="@ + envs[0].1
            } else {
                ", "@ + envs[i].0 + "="@ + envs[i].1
            },
    )
}

/// The report of an accepted deployment with environment variables lists
/// them all, in order, each as `KEY=VALUE`, separated by `, ` and enclosed
/// in `[` and `].` after the length sentence.
pub proof fn lemma_report_spells_env_vars(yaml: Seq<char>, envs: Seq<(Seq<char>, Seq<char>)>)
    requires
        envs.len() > 0,
    ensures
        deploy_report(yaml, envs) == report_head(yaml) + " Env vars: ["@ + report_entries(
            envs,
        ).flatten() + "]."@,
{
    let parts = env_texts(envs);
    lemma_join_is_separated(parts, ", "@);
    let a = separated(parts, ", "@);
    let b = report_entries(envs);
    assert forall|i: int| 0 <= i < a.len() implies a[i] =~= b[i] by {
        if i > 0 {
            assert(a[i] == ", "@ + parts[i]);
        }
    }
    assert(a =~= b);
}

} // verus!
