//! Azure Blob Storage: which locations it serves, which credential is presented to it, and
//! byte-range reads against a blob that holds the tar archive.

use bytes::Bytes;
use vstd::prelude::*;

use super::redact;
use super::redact_parsed;
use super::ArchiveSource;
use super::SourceView;
use super::Storage;
use crate::error::Error;
use crate::error::ErrorView;
use crate::external;
use crate::external::fmt_http_date;
use crate::external::parse_url;
use crate::external::UrlParts;
use crate::external::UrlView;
use crate::text;

verus! {

/// `host` is `suffix` behind the name of an account.
pub open spec fn is_account_host(host: Seq<char>, suffix: Seq<char>) -> bool {
    host.len() > suffix.len() && suffix.is_suffix_of(host)
}

/// `host` is an Azure Blob endpoint, in the public cloud or a sovereign one.
pub open spec fn is_blob_host(host: Seq<char>) -> bool {
    ||| is_account_host(host, ".blob.core.windows.net"@)
    ||| is_account_host(host, ".blob.core.usgovcloudapi.net"@)
    ||| is_account_host(host, ".blob.core.chinacloudapi.cn"@)
    ||| is_account_host(host, ".blob.core.cloudapi.de"@)
}

/// A SAS is in `url`: its query, split at every `&`, has a parameter named `sig`.
pub open spec fn carries_sas(url: Seq<char>) -> bool {
    match text::cut_first(url, '?') {
        Some((_, query)) => has_signature(query),
        None => false,
    }
}

/// Some parameter of `query` is named `sig`.
pub open spec fn has_signature(query: Seq<char>) -> bool {
    exists|i: int| #[trigger] is_signature(query, i)
}

/// A parameter of `query` starts at `i` and begins with `sig=`.
pub open spec fn is_signature(query: Seq<char>, i: int) -> bool {
    &&& 0 <= i <= query.len()
    &&& i == 0 || query[i - 1] == '&'
    &&& "sig="@.is_prefix_of(query.skip(i))
}

fn is_labelled(host: &str, suffix: &str) -> (r: bool)
    ensures
        r == is_account_host(host@, suffix@),
{
    host.unicode_len() > suffix.unicode_len() && text::ends_with(host, suffix)
}

/// True when `host` is a real Azure Blob endpoint in one of the known clouds.
///
/// Parsing a URL puts its host in lower case; hostnames are case-insensitive.
pub fn has_blob_host_suffix(host: &str) -> (r: bool)
    ensures
        r == is_blob_host(host@),
{
    is_labelled(host, ".blob.core.windows.net") || is_labelled(host, ".blob.core.usgovcloudapi.net")
        || is_labelled(host, ".blob.core.chinacloudapi.cn") || is_labelled(
        host,
        ".blob.core.cloudapi.de",
    )
}

/// Whether the query parameter `param` is named `sig`.
fn is_sig(param: &str) -> (r: bool)
    ensures
        r == "sig="@.is_prefix_of(param@),
{
    let r = match text::split_once(param, '=') {
        Some((name, _)) => text::same(name, "sig"),
        None => false,
    };
    proof {
        reveal_strlit("sig");
        reveal_strlit("sig=");
        text::lemma_first_at_splits(param@, '=');
        let k = text::first_at(param@, '=') as int;
        if "sig="@.is_prefix_of(param@) {
            assert forall|j: int| 0 <= j < 4 implies param@[j] == "sig="@[j] by {
                assert(param@.subrange(0, 4)[j] == param@[j]);
            }
            text::lemma_first_at(param@, '=', 3);
            assert(param@.take(3) =~= "sig"@);
        }
        if r {
            assert(param@.take(k) == "sig"@);
            assert(k == 3);
            assert forall|j: int| 0 <= j < 3 implies param@[j] == "sig"@[j] by {
                assert(param@.take(3)[j] == param@[j]);
            }
            assert(param@.subrange(0, 4) =~= "sig="@);
        }
    }
    r
}

/// True when the URL carries a shared access signature, meaning no credential is needed.
pub fn has_sas_token(url: &str) -> (r: bool)
    ensures
        r == carries_sas(url@),
{
    let query = match text::split_once(url, '?') {
        Some((_, query)) => query,
        None => {
            return false;
        },
    };
    let mut rest = query;
    let ghost mut at: int = 0;
    proof {
        assert(query@.skip(0) =~= query@);
    }
    loop
        invariant
            text::cut_first(url@, '?') matches Some((_, q)) && q == query@,
            0 <= at <= query@.len(),
            at == 0 || query@[at - 1] == '&',
            rest@ == query@.skip(at),
            forall|i: int| 0 <= i < at ==> !#[trigger] is_signature(query@, i),
        decreases rest@.len(),
    {
        let ghost k = text::first_at(rest@, '&') as int;
        proof {
            text::lemma_first_at_splits(rest@, '&');
            // A signature has no ampersand, so it starts at a parameter and stays inside it.
            reveal_strlit("sig=");
            assert forall|i: int| at < i <= at + k implies !#[trigger] is_signature(query@, i) by {
                assert(query@[i - 1] == rest@[i - 1 - at]);
            }
            let param = rest@.take(k);
            if "sig="@.is_prefix_of(rest@) {
                assert forall|j: int| 0 <= j < 4 implies rest@[j] != '&' by {
                    assert(rest@.subrange(0, 4)[j] == "sig="@[j]);
                }
                assert(k >= 4);
                assert(param.subrange(0, 4) =~= rest@.subrange(0, 4));
            }
            if "sig="@.is_prefix_of(param) {
                assert(param.subrange(0, 4) =~= rest@.subrange(0, 4));
            }
        }
        match text::split_once(rest, '&') {
            Some((param, tail)) => {
                if is_sig(param) {
                    assert(is_signature(query@, at));
                    return true;
                }
                rest = tail;
                proof {
                    at = at + k + 1;
                    assert(rest@ =~= query@.skip(at));
                }
            },
            None => {
                assert(rest@.take(k) =~= rest@);
                let r = is_sig(rest);
                proof {
                    if r {
                        assert(is_signature(query@, at));
                    }
                }
                return r;
            },
        }
    }
}

/// The parsed URL names a blob endpoint by its host.
pub open spec fn on_blob_host(url: UrlView) -> bool {
    url.host matches Some(host) && is_blob_host(host)
}

/// The parsed URL names the emulator's well-known development account by its path.
pub open spec fn on_emulator(url: UrlView) -> bool {
    url.path_segments matches Some(segments) && segments.len() > 0 && segments[0]
        == "devstoreaccount1"@
}

/// The parsed location is one that this backend serves.
pub open spec fn is_azure_location(url: Result<UrlView, Seq<char>>) -> bool {
    match url {
        Ok(url) => if url.scheme == "https"@ {
            on_blob_host(url)
        } else {
            url.scheme == "http"@ && (on_blob_host(url) || on_emulator(url))
        },
        Err(_) => false,
    }
}

/// A parsed location as a value.
pub open spec fn location_view(url: Result<UrlParts, String>) -> Result<UrlView, Seq<char>> {
    match url {
        Ok(url) => Ok(url@),
        Err(text) => Err(text@),
    }
}

/// `source` cannot be the text of an HTTP or HTTPS URL: it has no colon, or starts with a
/// visible character that is no letter, or spells out another scheme.
pub open spec fn is_plainly_not_http(source: Seq<char>) -> bool {
    ||| !source.contains(':')
    ||| source[0] as u32 > ' ' as u32 && !external::is_letter(source[0])
    ||| exists|scheme: Seq<char>|
        external::is_plain_scheme(scheme) && #[trigger] (scheme + seq![':']).is_prefix_of(source) && scheme
            != "http"@ && scheme != "https"@
}

fn has_blob_host(url: &UrlParts) -> (r: bool)
    ensures
        r == on_blob_host(url@),
{
    match &url.host {
        Some(host) => has_blob_host_suffix(host.as_str()),
        None => false,
    }
}

fn has_emulator_account(url: &UrlParts) -> (r: bool)
    ensures
        r == on_emulator(url@),
{
    match &url.path_segments {
        Some(segments) => segments.len() > 0 && text::same(
            segments[0].as_str(),
            "devstoreaccount1",
        ),
        None => false,
    }
}

/// True when the parsed location is an HTTP(S) URL that should be served by this backend.
///
/// The two schemes are recognised differently, and the asymmetry is the security boundary.
/// Over https the *host* must prove it is Azure Blob, because an https URL can be credentialed.
/// Over http the emulator is matched on its account name, which lives in the path and which any
/// host could claim; that is safe only because a bearer token never goes out over plaintext
/// (see [`choose_credential`]).
pub fn serves(url: &Result<UrlParts, String>) -> (r: bool)
    ensures
        r == is_azure_location(location_view(*url)),
{
    match url {
        Ok(url) => if text::same(url.scheme.as_str(), "https") {
            has_blob_host(url)
        } else {
            text::same(url.scheme.as_str(), "http") && (has_blob_host(url) || has_emulator_account(
                url,
            ))
        },
        Err(_) => false,
    }
}

/// True when `source` is an HTTP(S) URL that should be served by this backend; see [`serves`].
pub fn is_azure_url(source: &str) -> (r: bool)
    ensures
        r == is_azure_location(external::parsed_url(source@)),
        is_plainly_not_http(source@) ==> !r,
{
    let url = parse_url(source);
    serves(&url)
}

/// How requests to Azure Blob are authenticated.
#[derive(Debug, Clone, Copy, PartialEq, Eq, Structural)]
pub enum CredentialKind {
    /// No credential: the container is public, or the URL carries a SAS.
    Anonymous,
    /// The token that the AKS workload-identity webhook projects.
    WorkloadIdentity,
    /// A service principal with a secret.
    ClientSecret,
    /// The managed identity of the host.
    ManagedIdentity,
    /// The Azure CLI or the Azure Developer CLI.
    DeveloperTools,
}

/// The environment markers that identify where the server is running.
///
/// Captured as a struct so that the choice of a credential does not depend on process-wide
/// state.
#[derive(Debug)]
pub struct CredentialEnv {
    /// Set by Container Apps, App Service and Azure Arc.
    pub identity_endpoint: Option<String>,
    /// Set by Cloud Shell and Azure ML.
    pub msi_endpoint: Option<String>,
    /// Set by the AKS workload-identity webhook.
    pub federated_token_file: Option<String>,
    /// Service-principal tenant. Required by every service-principal credential.
    pub tenant_id: Option<String>,
    /// Service-principal application id.
    pub client_id: Option<String>,
    /// Service-principal secret.
    pub client_secret: Option<String>,
}

/// [`CredentialEnv`] as a value.
pub struct EnvView {
    pub identity_endpoint: Option<Seq<char>>,
    pub msi_endpoint: Option<Seq<char>>,
    pub federated_token_file: Option<Seq<char>>,
    pub tenant_id: Option<Seq<char>>,
    pub client_id: Option<Seq<char>>,
    pub client_secret: Option<Seq<char>>,
}

impl Default for CredentialEnv {
    /// An environment without markers.
    fn default() -> (r: CredentialEnv)
        ensures
            r@ == (EnvView {
                identity_endpoint: None,
                msi_endpoint: None,
                federated_token_file: None,
                tenant_id: None,
                client_id: None,
                client_secret: None,
            }),
    {
        CredentialEnv {
            identity_endpoint: None,
            msi_endpoint: None,
            federated_token_file: None,
            tenant_id: None,
            client_id: None,
            client_secret: None,
        }
    }
}

impl View for CredentialEnv {
    type V = EnvView;

    open spec fn view(&self) -> EnvView {
        EnvView {
            identity_endpoint: text::text_of(self.identity_endpoint),
            msi_endpoint: text::text_of(self.msi_endpoint),
            federated_token_file: text::text_of(self.federated_token_file),
            tenant_id: text::text_of(self.tenant_id),
            client_id: text::text_of(self.client_id),
            client_secret: text::text_of(self.client_secret),
        }
    }
}

/// A marker counts when it is there and not empty.
pub open spec fn is_set(marker: Option<Seq<char>>) -> bool {
    marker matches Some(value) && value.len() > 0
}

/// What the variable `name` holds in `vars`, the first time it stands there.
pub open spec fn variable(vars: Seq<(String, String)>, name: Seq<char>) -> Option<Seq<char>>
    decreases vars.len(),
{
    if vars.len() == 0 {
        None
    } else if vars[0].0@ == name {
        Some(vars[0].1@)
    } else {
        variable(vars.skip(1), name)
    }
}

/// What the variable `name` holds in `vars`, if it is not empty.
pub open spec fn non_empty_variable(vars: Seq<(String, String)>, name: Seq<char>) -> Option<
    Seq<char>,
> {
    if is_set(variable(vars, name)) {
        variable(vars, name)
    } else {
        None
    }
}

/// The markers that the variables of a process hold.
pub open spec fn process_env(vars: Seq<(String, String)>) -> EnvView {
    EnvView {
        identity_endpoint: non_empty_variable(vars, "IDENTITY_ENDPOINT"@),
        msi_endpoint: non_empty_variable(vars, "MSI_ENDPOINT"@),
        federated_token_file: non_empty_variable(vars, "AZURE_FEDERATED_TOKEN_FILE"@),
        tenant_id: non_empty_variable(vars, "AZURE_TENANT_ID"@),
        client_id: non_empty_variable(vars, "AZURE_CLIENT_ID"@),
        client_secret: non_empty_variable(vars, "AZURE_CLIENT_SECRET"@),
    }
}

/// The credential that the environment calls for.
pub open spec fn detected(env: EnvView) -> CredentialKind {
    if is_set(env.federated_token_file) {
        CredentialKind::WorkloadIdentity
    } else if is_set(env.tenant_id) && is_set(env.client_id) && is_set(env.client_secret) {
        CredentialKind::ClientSecret
    } else if is_set(env.identity_endpoint) || is_set(env.msi_endpoint) {
        CredentialKind::ManagedIdentity
    } else {
        CredentialKind::DeveloperTools
    }
}

/// The location may be given a bearer token: it is reached over https, its host is an Azure
/// Blob endpoint, and it does not carry a SAS.
pub open spec fn may_be_credentialed(url: Result<UrlView, Seq<char>>, sas: bool) -> bool {
    url matches Ok(url) && url.scheme == "https"@ && on_blob_host(url) && !sas
}

/// The credential for a location: none unless it may be given one, then the one that was asked
/// for, then the one that the environment calls for.
pub open spec fn chosen(
    url: Result<UrlView, Seq<char>>,
    sas: bool,
    env: EnvView,
    override_kind: Option<CredentialKind>,
) -> CredentialKind {
    if !may_be_credentialed(url, sas) {
        CredentialKind::Anonymous
    } else {
        match override_kind {
            Some(kind) => kind,
            None => detected(env),
        }
    }
}

fn is_marker_set(marker: &Option<String>) -> (r: bool)
    ensures
        r == is_set(text::text_of(*marker)),
{
    match marker {
        Some(value) => !value.as_str().is_empty(),
        None => false,
    }
}

/// The value of the variable `name`, if it is not empty.
fn read_variable(vars: &Vec<(String, String)>, name: &str) -> (r: Option<String>)
    ensures
        text::text_of(r) == non_empty_variable(vars@, name@),
{
    let mut i: usize = 0;
    proof {
        assert(vars@.skip(0) =~= vars@);
    }
    while i < vars.len()
        invariant
            i <= vars@.len(),
            variable(vars@, name@) == variable(vars@.skip(i as int), name@),
        decreases vars@.len() - i,
    {
        if text::same(vars[i].0.as_str(), name) {
            if vars[i].1.as_str().is_empty() {
                return None;
            }
            return Some(vars[i].1.clone());
        }
        proof {
            assert(vars@.skip(i as int).skip(1) =~= vars@.skip(i + 1));
        }
        i = i + 1;
    }
    None
}

impl CredentialEnv {
    /// Read the markers from `vars`, the variables of the process environment.
    pub fn from_process(vars: &Vec<(String, String)>) -> (r: CredentialEnv)
        ensures
            r@ == process_env(vars@),
            r@ == (EnvView {
                identity_endpoint: non_empty_variable(vars@, "IDENTITY_ENDPOINT"@),
                msi_endpoint: non_empty_variable(vars@, "MSI_ENDPOINT"@),
                federated_token_file: non_empty_variable(vars@, "AZURE_FEDERATED_TOKEN_FILE"@),
                tenant_id: non_empty_variable(vars@, "AZURE_TENANT_ID"@),
                client_id: non_empty_variable(vars@, "AZURE_CLIENT_ID"@),
                client_secret: non_empty_variable(vars@, "AZURE_CLIENT_SECRET"@),
            }),
    {
        CredentialEnv {
            identity_endpoint: read_variable(vars, "IDENTITY_ENDPOINT"),
            msi_endpoint: read_variable(vars, "MSI_ENDPOINT"),
            federated_token_file: read_variable(vars, "AZURE_FEDERATED_TOKEN_FILE"),
            tenant_id: read_variable(vars, "AZURE_TENANT_ID"),
            client_id: read_variable(vars, "AZURE_CLIENT_ID"),
            client_secret: read_variable(vars, "AZURE_CLIENT_SECRET"),
        }
    }
}

/// Pick a credential for a location that has been parsed and searched for a SAS.
///
/// A bearer token must never go out over plaintext, so an http endpoint is anonymous whatever
/// the environment or the operator says; and only a host that is demonstrably Azure Blob is
/// ever given a token, whatever routed the URL here.
///
/// Detection order matters. An explicitly configured identity outranks an ambient one, and the
/// most specific marker wins: a federated token file outranks the managed-identity markers
/// because an AKS pod can carry both, and only the projected token works. A plain Azure VM or
/// VMSS exposes *no* marker, so that case must be requested by name via `override_kind`.
pub fn choose_credential(
    url: &Result<UrlParts, String>,
    sas: bool,
    env: &CredentialEnv,
    override_kind: Option<CredentialKind>,
) -> (r: CredentialKind)
    ensures
        r == chosen(location_view(*url), sas, env@, override_kind),
        ({
            let credentialed = *url matches Ok(parts) && parts.scheme@ == "https"@ && (
            parts.host matches Some(host) && is_blob_host(host@)) && !sas;
            let federated = env.federated_token_file matches Some(value) && value@.len() > 0;
            let principal = (env.tenant_id matches Some(value) && value@.len() > 0) && (
            env.client_id matches Some(value) && value@.len() > 0) && (
            env.client_secret matches Some(value) && value@.len() > 0);
            let managed = (env.identity_endpoint matches Some(value) && value@.len() > 0) || (
            env.msi_endpoint matches Some(value) && value@.len() > 0);
            &&& !credentialed ==> r == CredentialKind::Anonymous
            &&& credentialed ==> (override_kind matches Some(kind) ==> r == kind)
            &&& credentialed && override_kind is None ==> {
                &&& r == CredentialKind::WorkloadIdentity <==> federated
                &&& r == CredentialKind::ClientSecret <==> !federated && principal
                &&& r == CredentialKind::ManagedIdentity <==> !federated && !principal && managed
                &&& r == CredentialKind::DeveloperTools <==> !federated && !principal && !managed
            }
        }),
{
    let credentialed = match url {
        Ok(url) => text::same(url.scheme.as_str(), "https") && has_blob_host(url) && !sas,
        Err(_) => false,
    };
    if !credentialed {
        return CredentialKind::Anonymous;
    }
    if let Some(kind) = override_kind {
        return kind;
    }
    if is_marker_set(&env.federated_token_file) {
        CredentialKind::WorkloadIdentity
    } else if is_marker_set(&env.tenant_id) && is_marker_set(&env.client_id) && is_marker_set(
        &env.client_secret,
    ) {
        CredentialKind::ClientSecret
    } else if is_marker_set(&env.identity_endpoint) || is_marker_set(&env.msi_endpoint) {
        CredentialKind::ManagedIdentity
    } else {
        CredentialKind::DeveloperTools
    }
}

/// The scheme `http`, spelled out, is another one than `https`.
proof fn lemma_http_is_not_https()
    ensures
        "http"@ != "https"@,
        external::is_plain_scheme("http"@),
        "http"@ + seq![':'] == "http:"@,
{
    reveal_strlit("http");
    reveal_strlit("https");
    reveal_strlit("http:");
    assert("http"@ + seq![':'] =~= "http:"@);
}

/// Pick a credential from the URL, the ambient environment, and an optional explicit override;
/// see [`choose_credential`].
pub fn select_credential_kind(
    url: &str,
    env: &CredentialEnv,
    override_kind: Option<CredentialKind>,
) -> (r: CredentialKind)
    ensures
        r == chosen(external::parsed_url(url@), carries_sas(url@), env@, override_kind),
        is_plainly_not_http(url@) ==> r == CredentialKind::Anonymous,
        "http:"@.is_prefix_of(url@) ==> r == CredentialKind::Anonymous,
        carries_sas(url@) ==> r == CredentialKind::Anonymous,
{
    let parsed = parse_url(url);
    proof {
        lemma_http_is_not_https();
    }
    choose_credential(&parsed, has_sas_token(url), env, override_kind)
}

/// The name of a kind of credential, as it is shown to an operator.
pub open spec fn kind_name(kind: CredentialKind) -> Seq<char> {
    match kind {
        CredentialKind::Anonymous => "Anonymous"@,
        CredentialKind::WorkloadIdentity => "WorkloadIdentity"@,
        CredentialKind::ClientSecret => "ClientSecret"@,
        CredentialKind::ManagedIdentity => "ManagedIdentity"@,
        CredentialKind::DeveloperTools => "DeveloperTools"@,
    }
}

impl CredentialKind {
    /// The name of this kind, as it is shown to an operator.
    pub fn name(self) -> (r: &'static str)
        ensures
            r@ == kind_name(self),
    {
        match self {
            CredentialKind::Anonymous => "Anonymous",
            CredentialKind::WorkloadIdentity => "WorkloadIdentity",
            CredentialKind::ClientSecret => "ClientSecret",
            CredentialKind::ManagedIdentity => "ManagedIdentity",
            CredentialKind::DeveloperTools => "DeveloperTools",
        }
    }
}

/// The error for a credential of kind `kind` that lacks the environment variable `name`.
pub open spec fn missing_variable(name: Seq<char>, kind: CredentialKind) -> ErrorView {
    ErrorView::Protocol(kind_name(kind) + " credential needs "@ + name + " to be set"@)
}

/// A required environment variable: its value, or the error that names it.
pub open spec fn required(
    value: Option<Seq<char>>,
    name: Seq<char>,
    kind: CredentialKind,
) -> Result<Seq<char>, ErrorView> {
    if is_set(value) {
        Ok(value->0)
    } else {
        Err(missing_variable(name, kind))
    }
}

/// Required environment variable, reported by name when absent.
pub fn require<'a>(value: &'a Option<String>, name: &str, kind: CredentialKind) -> (r: Result<
    &'a str,
    Error,
>)
    ensures
        match r {
            Ok(text) => required(text::text_of(*value), name@, kind) == Ok::<Seq<char>, ErrorView>(
                text@,
            ),
            Err(e) => required(text::text_of(*value), name@, kind) == Err::<Seq<char>, ErrorView>(
                e@,
            ),
        },
        r is Ok <==> (*value matches Some(held) && held@.len() > 0),
        r matches Ok(text) ==> (*value matches Some(held) && text@ == held@),
        r matches Err(e) ==> e is Protocol,
{
    if let Some(text) = value {
        if !text.as_str().is_empty() {
            return Ok(text.as_str());
        }
    }
    let mut message = kind.name().to_owned();
    message.append(" credential needs ");
    message.append(name);
    message.append(" to be set");
    Err(Error::Protocol(message))
}

/// A credential to present to Azure Blob.
pub enum Credential {
    /// The token that the AKS workload-identity webhook projects.
    WorkloadIdentity,
    /// A service principal with a secret.
    ClientSecret { tenant: String, client: String, secret: String },
    /// The managed identity of the host, or the user-assigned one with this client id.
    ManagedIdentity { user_assigned: Option<String> },
    /// The Azure CLI or the Azure Developer CLI.
    DeveloperTools,
}

/// A [`Credential`] as a value.
pub enum CredentialView {
    WorkloadIdentity,
    ClientSecret { tenant: Seq<char>, client: Seq<char>, secret: Seq<char> },
    ManagedIdentity { user_assigned: Option<Seq<char>> },
    DeveloperTools,
}

impl View for Credential {
    type V = CredentialView;

    open spec fn view(&self) -> CredentialView {
        match self {
            Credential::WorkloadIdentity => CredentialView::WorkloadIdentity,
            Credential::ClientSecret { tenant, client, secret } => CredentialView::ClientSecret {
                tenant: tenant@,
                client: client@,
                secret: secret@,
            },
            Credential::ManagedIdentity { user_assigned } => CredentialView::ManagedIdentity {
                user_assigned: text::text_of(*user_assigned),
            },
            Credential::DeveloperTools => CredentialView::DeveloperTools,
        }
    }
}

/// The credential of kind `kind`. A service principal comes from the environment, and the first
/// of its variables that is missing, in the order tenant, client, secret, is reported.
pub open spec fn credential_for(
    env: EnvView,
    kind: CredentialKind,
    user_assigned: Option<Seq<char>>,
) -> Result<Option<CredentialView>, ErrorView> {
    match kind {
        CredentialKind::Anonymous => Ok(None),
        CredentialKind::WorkloadIdentity => Ok(Some(CredentialView::WorkloadIdentity)),
        CredentialKind::ClientSecret => if !is_set(env.tenant_id) {
            Err(missing_variable("AZURE_TENANT_ID"@, kind))
        } else if !is_set(env.client_id) {
            Err(missing_variable("AZURE_CLIENT_ID"@, kind))
        } else if !is_set(env.client_secret) {
            Err(missing_variable("AZURE_CLIENT_SECRET"@, kind))
        } else {
            Ok(
                Some(
                    CredentialView::ClientSecret {
                        tenant: env.tenant_id->0,
                        client: env.client_id->0,
                        secret: env.client_secret->0,
                    },
                ),
            )
        },
        CredentialKind::ManagedIdentity => Ok(
            Some(CredentialView::ManagedIdentity { user_assigned }),
        ),
        CredentialKind::DeveloperTools => Ok(Some(CredentialView::DeveloperTools)),
    }
}

/// An optional credential as a value.
pub open spec fn credential_view(credential: Option<Credential>) -> Option<CredentialView> {
    match credential {
        Some(credential) => Some(credential@),
        None => None,
    }
}

/// The credential to present to Azure Blob, or none where the request goes out anonymously.
pub fn build_credential(
    env: &CredentialEnv,
    kind: CredentialKind,
    user_assigned: Option<&str>,
) -> (r: Result<Option<Credential>, Error>)
    ensures
        match r {
            Ok(credential) => credential_for(env@, kind, text::text_of_ref(user_assigned)) == Ok::<
                Option<CredentialView>,
                ErrorView,
            >(credential_view(credential)),
            Err(e) => credential_for(env@, kind, text::text_of_ref(user_assigned)) == Err::<
                Option<CredentialView>,
                ErrorView,
            >(e@),
        },
        kind == CredentialKind::Anonymous ==> r matches Ok(None),
        kind == CredentialKind::WorkloadIdentity ==> r matches Ok(
            Some(Credential::WorkloadIdentity),
        ),
        kind == CredentialKind::DeveloperTools ==> r matches Ok(Some(Credential::DeveloperTools)),
        kind == CredentialKind::ManagedIdentity ==> (r matches Ok(
            Some(Credential::ManagedIdentity { user_assigned: id }),
        ) && match user_assigned {
            Some(given) => id matches Some(text) && text@ == given@,
            None => id is None,
        }),
        kind == CredentialKind::ClientSecret ==> (r is Ok <==> (env.tenant_id matches Some(value)
            && value@.len() > 0) && (env.client_id matches Some(value) && value@.len() > 0) && (
        env.client_secret matches Some(value) && value@.len() > 0)),
        kind == CredentialKind::ClientSecret ==> (r matches Ok(credential) ==> (
        credential matches Some(Credential::ClientSecret { tenant, client, secret }) && {
            &&& env.tenant_id matches Some(value) && tenant@ == value@
            &&& env.client_id matches Some(value) && client@ == value@
            &&& env.client_secret matches Some(value) && secret@ == value@
        })),
        r matches Err(e) ==> e is Protocol,
{
    match kind {
        CredentialKind::Anonymous => Ok(None),
        CredentialKind::WorkloadIdentity => Ok(Some(Credential::WorkloadIdentity)),
        CredentialKind::ClientSecret => {
            let tenant = match require(&env.tenant_id, "AZURE_TENANT_ID", kind) {
                Ok(value) => value,
                Err(e) => {
                    return Err(e);
                },
            };
            let client = match require(&env.client_id, "AZURE_CLIENT_ID", kind) {
                Ok(value) => value,
                Err(e) => {
                    return Err(e);
                },
            };
            let secret = match require(&env.client_secret, "AZURE_CLIENT_SECRET", kind) {
                Ok(value) => value,
                Err(e) => {
                    return Err(e);
                },
            };
            Ok(
                Some(
                    Credential::ClientSecret {
                        tenant: tenant.to_owned(),
                        client: client.to_owned(),
                        secret: secret.to_owned(),
                    },
                ),
            )
        },
        CredentialKind::ManagedIdentity => {
            let id = match user_assigned {
                Some(id) => Some(id.to_owned()),
                None => None,
            };
            Ok(Some(Credential::ManagedIdentity { user_assigned: id }))
        },
        CredentialKind::DeveloperTools => Ok(Some(Credential::DeveloperTools)),
    }
}

/// What a credential is called in an error about it.
pub open spec fn credential_label(credential: CredentialView) -> Seq<char> {
    match credential {
        CredentialView::WorkloadIdentity => "workload identity"@,
        CredentialView::ClientSecret { .. } => "client secret"@,
        CredentialView::ManagedIdentity { .. } => "managed identity"@,
        CredentialView::DeveloperTools => "developer tools"@,
    }
}

/// The error for a credential that could not be set up, for the reason `detail`.
pub open spec fn credential_error(credential: CredentialView, detail: Seq<char>) -> ErrorView {
    ErrorView::Io(credential_label(credential) + " credential: "@ + detail)
}

/// The error for a credential that could not be set up, for the reason `detail`.
pub fn credential_failed(credential: &Credential, detail: &str) -> (r: Error)
    ensures
        r@ == credential_error(credential@, detail@),
        r@ == ErrorView::Io(credential_label(credential@) + " credential: "@ + detail@),
{
    let label = match credential {
        Credential::WorkloadIdentity => "workload identity",
        Credential::ClientSecret { .. } => "client secret",
        Credential::ManagedIdentity { .. } => "managed identity",
        Credential::DeveloperTools => "developer tools",
    };
    let mut message = label.to_owned();
    message.append(" credential: ");
    message.append(detail);
    Error::Io(message)
}

/// Bytes read to probe the archive: one tar header block.
pub const PROBE_LEN: u64 = 512;

/// The first read of a blob: how it is authenticated and which bytes it asks for.
pub struct Probe {
    /// The kind of credential that was picked.
    pub kind: CredentialKind,
    /// The credential to present, if any.
    pub credential: Option<Credential>,
    /// Where the read starts.
    pub offset: u64,
    /// How many bytes it asks for.
    pub length: u64,
}

/// A [`Probe`] as a value.
pub struct ProbeView {
    pub kind: CredentialKind,
    pub credential: Option<CredentialView>,
    pub offset: int,
    pub length: int,
}

impl View for Probe {
    type V = ProbeView;

    open spec fn view(&self) -> ProbeView {
        ProbeView {
            kind: self.kind,
            credential: credential_view(self.credential),
            offset: self.offset as int,
            length: self.length as int,
        }
    }
}

/// The first read of the blob at `url`, or why there is none: `url` is no URL, or the credential
/// that was picked cannot be set up.
pub open spec fn probe_for(
    url: Seq<char>,
    parsed: Result<UrlView, Seq<char>>,
    env: EnvView,
    user_assigned: Option<Seq<char>>,
    override_kind: Option<CredentialKind>,
) -> Result<ProbeView, ErrorView> {
    match parsed {
        Err(detail) => Err(
            ErrorView::Protocol("invalid blob URL "@ + super::shown(url, parsed) + ": "@ + detail),
        ),
        Ok(_) => {
            let kind = chosen(parsed, carries_sas(url), env, override_kind);
            match credential_for(env, kind, user_assigned) {
                Ok(credential) => Ok(
                    ProbeView { kind, credential, offset: 0, length: PROBE_LEN as int },
                ),
                Err(e) => Err(e),
            }
        },
    }
}

/// Plan the first read of the blob at `url`, which has been parsed.
pub fn plan_probe(
    url: &str,
    parsed: &Result<UrlParts, String>,
    env: &CredentialEnv,
    user_assigned: Option<&str>,
    override_kind: Option<CredentialKind>,
) -> (r: Result<Probe, Error>)
    ensures
        match r {
            Ok(probe) => probe_for(
                url@,
                location_view(*parsed),
                env@,
                text::text_of_ref(user_assigned),
                override_kind,
            ) == Ok::<ProbeView, ErrorView>(probe@),
            Err(e) => probe_for(
                url@,
                location_view(*parsed),
                env@,
                text::text_of_ref(user_assigned),
                override_kind,
            ) == Err::<ProbeView, ErrorView>(e@),
        },
        r matches Ok(probe) ==> *parsed is Ok && probe.offset == 0 && probe.length == 512,
        *parsed is Err ==> (r matches Err(e) && e is Protocol),
{
    if let Err(detail) = parsed {
        let mut message = "invalid blob URL ".to_owned();
        message.append(redact_parsed(url, parsed));
        message.append(": ");
        message.append(detail.as_str());
        return Err(Error::Protocol(message));
    }
    let kind = choose_credential(parsed, has_sas_token(url), env, override_kind);
    match build_credential(env, kind, user_assigned) {
        Ok(credential) => Ok(Probe { kind, credential, offset: 0, length: PROBE_LEN }),
        Err(e) => Err(e),
    }
}

/// Open the archive from Azure Blob Storage: pick the credential, and plan the read of the
/// leading tar block, which brings the blob's ETag, Last-Modified and total size in one request.
pub fn open_azure(
    url: &str,
    env: &CredentialEnv,
    user_assigned: Option<&str>,
    override_kind: Option<CredentialKind>,
) -> (r: Result<Probe, Error>)
    ensures
        match r {
            Ok(probe) => probe_for(
                url@,
                external::parsed_url(url@),
                env@,
                text::text_of_ref(user_assigned),
                override_kind,
            ) == Ok::<ProbeView, ErrorView>(probe@),
            Err(e) => probe_for(
                url@,
                external::parsed_url(url@),
                env@,
                text::text_of_ref(user_assigned),
                override_kind,
            ) == Err::<ProbeView, ErrorView>(e@),
        },
        "http:"@.is_prefix_of(url@) || carries_sas(url@) ==> (r matches Ok(probe) ==> probe.kind
            == CredentialKind::Anonymous && probe.credential is None),
{
    let parsed = parse_url(url);
    proof {
        lemma_http_is_not_https();
    }
    plan_probe(url, &parsed, env, user_assigned, override_kind)
}

/// The error for a blob client that could not be made, for the reason `detail`.
pub open spec fn client_error(detail: Seq<char>) -> ErrorView {
    ErrorView::Io("creating blob client: "@ + detail)
}

/// The error for a blob client that could not be made, for the reason `detail`.
pub fn client_failed(detail: &str) -> (r: Error)
    ensures
        r@ == client_error(detail@),
        r@ == ErrorView::Io("creating blob client: "@ + detail@),
{
    let mut message = "creating blob client: ".to_owned();
    message.append(detail);
    Error::Io(message)
}

/// The error for a probe that failed, for the reason `detail`. It names the credential that was
/// tried.
pub open spec fn probe_error(url: Seq<char>, kind: CredentialKind, detail: Seq<char>) -> ErrorView {
    ErrorView::Io(
        "reading "@ + super::redacted(url) + " failed using the "@ + kind_name(kind)
            + " credential: "@ + detail
            + " (check it has Storage Blob Data Reader on the container — account-level Owner or Contributor does not grant blob read)"@,
    )
}

/// The error for a probe that failed, for the reason `detail`.
///
/// The credential is only exercised on the first request, so an auth failure surfaces here
/// rather than when the credential is set up.
pub fn probe_failed(url: &str, kind: CredentialKind, detail: &str) -> (r: Error)
    ensures
        r@ == probe_error(url@, kind, detail@),
{
    let mut message = "reading ".to_owned();
    message.append(redact(url));
    message.append(" failed using the ");
    message.append(kind.name());
    message.append(" credential: ");
    message.append(detail);
    message.append(
        " (check it has Storage Blob Data Reader on the container — account-level Owner or Contributor does not grant blob read)",
    );
    Error::Io(message)
}

/// The total length of the resource in a `Content-Range` header: behind `bytes ` and the last
/// slash, a number, perhaps with white space around it.
pub open spec fn content_range_total(header: Seq<char>) -> Option<u64> {
    match text::after_prefix(header, "bytes "@) {
        Some(range) => match text::cut_last(range, '/') {
            Some((_, total)) => text::unsigned(text::trimmed(total)),
            None => None,
        },
        None => None,
    }
}

/// Extract the total resource length from a `Content-Range` header value.
///
/// Per RFC 9110 section 14.4 the value is `bytes <range>/<complete-length>`, where the complete
/// length is `*` when the server does not know it.
pub fn parse_content_range_total(header: &str) -> (r: Option<u64>)
    ensures
        r == content_range_total(header@),
{
    match text::strip_prefix(header, "bytes ") {
        Some(range) => match text::rsplit_once(range, '/') {
            Some((_, total)) => text::parse_unsigned(text::trim(total)),
            None => None,
        },
        None => None,
    }
}

/// The answer to a probe, without its body.
pub struct ProbeHeaders {
    /// The ETag of the blob.
    pub etag: Option<String>,
    /// When the blob was last modified, in seconds after the Unix epoch.
    pub last_modified: Option<u64>,
    /// The `Content-Range` header.
    pub content_range: Option<String>,
}

/// What the blob is, by the headers of the answer to a probe; the first of them that is missing
/// or of no use is reported.
pub open spec fn probed_source(headers: ProbeHeaders) -> Result<SourceView, ErrorView> {
    if headers.etag is None {
        Err(ErrorView::Protocol("blob response carried no ETag"@))
    } else if headers.last_modified is None {
        Err(ErrorView::Protocol("blob response carried no Last-Modified"@))
    } else if !(headers.content_range matches Some(header) && content_range_total(header@) is Some) {
        Err(ErrorView::Protocol("blob response carried no usable Content-Range"@))
    } else {
        Ok(
            SourceView {
                etag: headers.etag->0@,
                last_modified: external::http_date(headers.last_modified->0),
                size: content_range_total(headers.content_range->0@)->0 as int,
                prefetch: None,
            },
        )
    }
}

/// Read what the blob is off the headers of the answer to a probe.
pub fn read_probe_headers(headers: ProbeHeaders) -> (r: Result<ArchiveSource, Error>)
    requires
        headers.etag is Some ==> (headers.last_modified matches Some(secs) ==> secs
            < external::HTTP_DATE_END),
    ensures
        match r {
            Ok(source) => probed_source(headers) == Ok::<SourceView, ErrorView>(source@),
            Err(e) => probed_source(headers) == Err::<SourceView, ErrorView>(e@),
        },
        r is Ok <==> headers.etag is Some && headers.last_modified is Some && (
        headers.content_range matches Some(header) && content_range_total(header@) is Some),
        r matches Ok(source) ==> {
            &&& source.etag@ == headers.etag->0@
            &&& source.last_modified@ == external::http_date(headers.last_modified->0)
            &&& content_range_total(headers.content_range->0@) == Some(source.size)
            &&& source.prefetch is None
        },
        r matches Err(e) ==> e is Protocol,
{
    let etag = match headers.etag {
        Some(etag) => etag.into_boxed_str(),
        None => {
            return Err(Error::Protocol("blob response carried no ETag".to_owned()));
        },
    };
    let last_modified = match headers.last_modified {
        Some(secs) => fmt_http_date(secs).into_boxed_str(),
        None => {
            return Err(Error::Protocol("blob response carried no Last-Modified".to_owned()));
        },
    };
    let total = match &headers.content_range {
        Some(header) => parse_content_range_total(header.as_str()),
        None => None,
    };
    match total {
        Some(size) => Ok(ArchiveSource { etag, last_modified, size, prefetch: None }),
        None => Err(
            Error::Protocol("blob response carried no usable Content-Range".to_owned()),
        ),
    }
}

/// What is handed back of a blob that is open: `source` is what the headers of the answer to the
/// probe said, and `body` the body of that answer, or why it could not be read.
pub open spec fn opened_blob(source: SourceView, body: Result<Seq<u8>, Seq<char>>) -> Result<
    SourceView,
    ErrorView,
> {
    match body {
        Ok(data) => Ok(SourceView { prefetch: Some(data), ..source }),
        Err(detail) => Err(ErrorView::Io("reading blob probe body: "@ + detail)),
    }
}

/// The blob is open: `source` is what [`read_probe_headers`] made of the answer to the probe,
/// and `body` the body of that answer, or the text of the failure to read it.
///
/// The body is the first tar block; it is handed back in [`ArchiveSource::prefetch`] so that the
/// caller need not read it again. Every read through the result is pinned to the ETag.
pub fn finish_open<S, A, L>(client: A, source: ArchiveSource, body: Result<Bytes, String>) -> (r:
    Result<(Storage<S, A, L>, ArchiveSource), Error>)
    ensures
        match body {
            Ok(data) => {
                &&& r matches Ok((storage, opened))
                &&& opened@ == (SourceView {
                    prefetch: Some(external::bytes_contents(data)),
                    ..source@
                })
                &&& storage matches Storage::AzureBlob { client: c, .. }
                &&& c == client
                &&& storage.pinned_etag() == Some(opened@.etag)
                &&& opened.etag@ == source.etag@
                &&& opened.last_modified@ == source.last_modified@
                &&& opened.size == source.size
                &&& opened.prefetch == Some(data)
                &&& storage->AzureBlob_etag@ == source.etag@
            },
            Err(detail) => r matches Err(e) && e@ == ErrorView::Io(
                "reading blob probe body: "@ + detail@,
            ),
        },
        match body {
            Ok(data) => r matches Ok((_, opened)) && opened_blob(
                source@,
                Ok(external::bytes_contents(data)),
            ) == Ok::<SourceView, ErrorView>(opened@),
            Err(detail) => r matches Err(e) && opened_blob(source@, Err(detail@)) == Err::<
                SourceView,
                ErrorView,
            >(e@),
        },
{
    match body {
        Ok(data) => {
            let etag: &str = &*source.etag;
            let etag = etag.to_owned().into_boxed_str();
            let opened = ArchiveSource {
                etag: source.etag,
                last_modified: source.last_modified,
                size: source.size,
                prefetch: Some(data),
            };
            Ok((Storage::AzureBlob { client, etag }, opened))
        },
        Err(detail) => {
            let mut message = "reading blob probe body: ".to_owned();
            message.append(detail.as_str());
            Err(Error::Io(message))
        },
    }
}

/// A download of one range of a blob.
pub struct BlobRead {
    /// Where the range starts.
    pub offset: u64,
    /// How many bytes it has.
    pub length: u64,
    /// The `If-Match` header.
    pub if_match: String,
}

/// The download for one ranged read, pinned to `etag`.
pub fn ranged_download(etag: &str, offset: u64, length: u64) -> (r: BlobRead)
    ensures
        r.offset == offset,
        r.length == length,
        r.if_match@ == etag@,
{
    BlobRead { offset, length, if_match: etag.to_owned() }
}

/// The error for a download that was refused, for the reason `detail`.
pub open spec fn download_failed(offset: u64, length: u64, detail: Seq<char>) -> ErrorView {
    ErrorView::Io(
        "blob download(offset="@ + text::decimal(offset as nat) + ", len="@ + text::decimal(
            length as nat,
        ) + "): "@ + detail
            + " (a 412 here means the archive was replaced while rati was running; restart it)"@,
    )
}

/// What a read of `length` bytes at `offset` from the blob comes to: `reply` is the body of the
/// answer, or why the body could not be read, or why the download failed.
///
/// Every read is conditional on the ETag captured when the archive was opened. The tile index
/// maps ids to byte offsets in one specific version of the blob, so if the archive is replaced
/// while the server is running those offsets now point into different data; Azure then answers
/// 412 and the read fails visibly.
pub fn read_azure_range(
    offset: u64,
    length: u64,
    reply: Result<Result<Bytes, String>, String>,
) -> (r: Result<Bytes, Error>)
    ensures
        match reply {
            Ok(Ok(data)) => r == Ok::<Bytes, Error>(data),
            Ok(Err(detail)) => r matches Err(e) && e@ == ErrorView::Io(
                "reading blob response body: "@ + detail@,
            ),
            Err(detail) => r matches Err(e) && e@ == download_failed(offset, length, detail@),
        },
{
    match reply {
        Ok(Ok(data)) => Ok(data),
        Ok(Err(detail)) => {
            let mut message = "reading blob response body: ".to_owned();
            message.append(detail.as_str());
            Err(Error::Io(message))
        },
        Err(detail) => {
            let mut message = "blob download(offset=".to_owned();
            text::push_decimal(&mut message, offset);
            message.append(", len=");
            text::push_decimal(&mut message, length);
            message.append("): ");
            message.append(detail.as_str());
            message.append(
                " (a 412 here means the archive was replaced while rati was running; restart it)",
            );
            Err(Error::Io(message))
        },
    }
}

} // verus!
