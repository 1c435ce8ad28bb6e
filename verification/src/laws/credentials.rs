//! What holds of credentials: which kind a location is given, and what each kind is made of.

use vstd::prelude::*;

use crate::error::ErrorView;
use crate::external::UrlView;
use crate::storage::azure;
use crate::storage::azure::CredentialView;
use crate::storage::azure::EnvView;
use crate::storage::CredentialKind;

verus! {

/// The marker is there and holds a character at least.
pub open spec fn is_filled(marker: Option<Seq<char>>) -> bool {
    match marker {
        Some(value) => value.len() != 0,
        None => false,
    }
}

/// The location is reached over https, has an Azure Blob host, and carries no SAS.
pub open spec fn is_open_to_a_token(url: Result<UrlView, Seq<char>>, sas: bool) -> bool {
    match url {
        Ok(parts) => match parts.host {
            Some(host) => parts.scheme == "https"@ && azure::is_blob_host(host) && !sas,
            None => false,
        },
        Err(_) => false,
    }
}

/// Where the operator names no credential, a location that may be given one is given the first
/// that the environment calls for: a federated token, then a service principal of which nothing is
/// missing, then the managed identity behind either endpoint, then the developer tools. No other
/// marker has a say.
pub proof fn the_credential_goes_by_rank(
    url: Result<UrlView, Seq<char>>,
    sas: bool,
    env: EnvView,
)
    requires
        is_open_to_a_token(url, sas),
    ensures
        ({
            let kind = azure::chosen(url, sas, env, None);
            let federated = is_filled(env.federated_token_file);
            let principal = is_filled(env.tenant_id) && is_filled(env.client_id) && is_filled(
                env.client_secret,
            );
            let managed = is_filled(env.identity_endpoint) || is_filled(env.msi_endpoint);
            &&& kind == CredentialKind::WorkloadIdentity <==> federated
            &&& kind == CredentialKind::ClientSecret <==> !federated && principal
            &&& kind == CredentialKind::ManagedIdentity <==> !federated && !principal && managed
            &&& kind == CredentialKind::DeveloperTools <==> !federated && !principal && !managed
            &&& kind != CredentialKind::Anonymous
        }),
{
}

/// A location that may not be given a token is anonymous, whatever the operator asks for and the
/// environment holds; one that may be given one gets the kind that the operator names.
pub proof fn a_token_goes_only_where_it_may(
    url: Result<UrlView, Seq<char>>,
    sas: bool,
    env: EnvView,
    override_kind: Option<CredentialKind>,
)
    ensures
        !is_open_to_a_token(url, sas) ==> azure::chosen(url, sas, env, override_kind)
            == CredentialKind::Anonymous,
        is_open_to_a_token(url, sas) ==> (override_kind matches Some(kind) ==> azure::chosen(
            url,
            sas,
            env,
            override_kind,
        ) == kind),
{
}

/// The choice depends on the location only through whether it may be given a token.
pub proof fn two_locations_open_to_a_token_are_alike(
    url: Result<UrlView, Seq<char>>,
    sas: bool,
    url2: Result<UrlView, Seq<char>>,
    sas2: bool,
    env: EnvView,
    override_kind: Option<CredentialKind>,
)
    requires
        is_open_to_a_token(url, sas) == is_open_to_a_token(url2, sas2),
    ensures
        azure::chosen(url, sas, env, override_kind) == azure::chosen(url2, sas2, env, override_kind),
{
}

/// A managed identity is made with the id that the operator passed, and with none where none was
/// passed, whatever the environment holds.
pub proof fn a_managed_identity_has_the_id_that_was_passed(env: EnvView, id: Option<Seq<char>>)
    ensures
        azure::credential_for(env, CredentialKind::ManagedIdentity, id) matches Ok(
            Some(CredentialView::ManagedIdentity { user_assigned }),
        ) && user_assigned == id,
{
}

/// Only a service principal comes from the environment: every other credential is the same
/// whatever the environment holds. Only a managed identity depends on the id that was passed.
pub proof fn only_a_service_principal_depends_on_the_environment(
    env: EnvView,
    env2: EnvView,
    kind: CredentialKind,
    id: Option<Seq<char>>,
    id2: Option<Seq<char>>,
)
    ensures
        kind != CredentialKind::ClientSecret ==> azure::credential_for(env, kind, id)
            == azure::credential_for(env2, kind, id),
        kind != CredentialKind::ManagedIdentity ==> azure::credential_for(env, kind, id)
            == azure::credential_for(env, kind, id2),
        env.tenant_id == env2.tenant_id && env.client_id == env2.client_id && env.client_secret
            == env2.client_secret ==> azure::credential_for(env, kind, id)
            == azure::credential_for(env2, kind, id),
{
}

/// A service principal is made of the values of the three variables, as they are, and cannot be
/// made where one of them is missing or empty.
pub proof fn a_service_principal_is_what_the_variables_hold(env: EnvView, id: Option<Seq<char>>)
    ensures
        ({
            let made = azure::credential_for(env, CredentialKind::ClientSecret, id);
            &&& made is Ok <==> is_filled(env.tenant_id) && is_filled(env.client_id) && is_filled(
                env.client_secret,
            )
            &&& made matches Ok(credential) ==> (credential matches Some(
                CredentialView::ClientSecret { tenant, client, secret },
            ) && env.tenant_id == Some(tenant) && env.client_id == Some(client)
                && env.client_secret == Some(secret))
        }),
{
}

/// The credential that is made is of the kind that was picked, and none is made for anonymous
/// requests alone.
pub proof fn a_credential_is_of_its_kind(env: EnvView, kind: CredentialKind, id: Option<Seq<char>>)
    ensures
        azure::credential_for(env, kind, id) matches Ok(credential) ==> {
            &&& kind == CredentialKind::Anonymous <==> credential is None
            &&& kind == CredentialKind::WorkloadIdentity <==> credential
                == Some(CredentialView::WorkloadIdentity)
            &&& kind == CredentialKind::ClientSecret <==> (credential matches Some(c)
                && c is ClientSecret)
            &&& kind == CredentialKind::ManagedIdentity <==> (credential matches Some(c)
                && c is ManagedIdentity)
            &&& kind == CredentialKind::DeveloperTools <==> credential
                == Some(CredentialView::DeveloperTools)
        },
{
}

/// The variable that is reported as missing is the first that is missing, in the order tenant,
/// client, secret.
pub proof fn the_first_missing_variable_is_reported(
    env: EnvView,
    id: Option<Seq<char>>,
)
    ensures
        ({
            let made = azure::credential_for(env, CredentialKind::ClientSecret, id);
            let missing = |name: Seq<char>|
                Err::<Option<CredentialView>, ErrorView>(
                    azure::missing_variable(name, CredentialKind::ClientSecret),
                );
            &&& !is_filled(env.tenant_id) ==> made == missing("AZURE_TENANT_ID"@)
            &&& is_filled(env.tenant_id) && !is_filled(env.client_id) ==> made == missing(
                "AZURE_CLIENT_ID"@,
            )
            &&& is_filled(env.tenant_id) && is_filled(env.client_id) && !is_filled(
                env.client_secret,
            ) ==> made == missing("AZURE_CLIENT_SECRET"@)
        }),
{
}

/// A variable that is required is its value where it holds a character at least, and is reported
/// otherwise.
pub proof fn a_required_variable_is_its_value(
    value: Option<Seq<char>>,
    name: Seq<char>,
    kind: CredentialKind,
)
    ensures
        is_filled(value) ==> (azure::required(value, name, kind) matches Ok(held) && value == Some(
            held,
        )),
        !is_filled(value) ==> azure::required(value, name, kind) == Err::<Seq<char>, ErrorView>(
            azure::missing_variable(name, kind),
        ),
{
}

/// `name` stands at `i` in `vars`, and nowhere before.
pub open spec fn is_first_of_its_name(
    vars: Seq<(String, String)>,
    i: int,
    name: Seq<char>,
) -> bool {
    &&& 0 <= i < vars.len()
    &&& vars[i].0@ == name
    &&& forall|j: int| 0 <= j < i ==> (#[trigger] vars[j]).0@ != name
}

/// `marker` is what the variable `name` holds the first time it stands in `vars`, if that is not
/// empty.
pub open spec fn is_read_from(
    marker: Option<Seq<char>>,
    vars: Seq<(String, String)>,
    name: Seq<char>,
) -> bool {
    &&& forall|i: int| #[trigger]
        is_first_of_its_name(vars, i, name) ==> if vars[i].1@.len() == 0 {
            marker is None
        } else {
            marker == Some(vars[i].1@)
        }
    &&& (forall|i: int| 0 <= i < vars.len() ==> (#[trigger] vars[i]).0@ != name) ==> marker is None
}

/// The first variable of a name is the one that is looked up.
proof fn lemma_variable(vars: Seq<(String, String)>, name: Seq<char>, i: int)
    ensures
        is_first_of_its_name(vars, i, name) ==> azure::variable(vars, name) == Some(vars[i].1@),
        (forall|j: int| 0 <= j < vars.len() ==> (#[trigger] vars[j]).0@ != name)
            ==> azure::variable(vars, name) is None,
    decreases vars.len(),
{
    if vars.len() > 0 && vars[0].0@ != name {
        let rest = vars.skip(1);
        lemma_variable(rest, name, i - 1);
        assert(forall|j: int| 0 <= j < rest.len() ==> #[trigger] rest[j] == vars[j + 1]);
        if is_first_of_its_name(vars, i, name) {
            assert(is_first_of_its_name(rest, i - 1, name));
        }
    }
}

/// A variable that is looked up is read, and an empty one counts for nothing.
proof fn lemma_non_empty_variable(vars: Seq<(String, String)>, name: Seq<char>)
    ensures
        is_read_from(azure::non_empty_variable(vars, name), vars, name),
{
    assert forall|i: int| #[trigger] is_first_of_its_name(vars, i, name) implies if vars[i].1@.len()
        == 0 {
        azure::non_empty_variable(vars, name) is None
    } else {
        azure::non_empty_variable(vars, name) == Some(vars[i].1@)
    } by {
        lemma_variable(vars, name, i);
    }
    lemma_variable(vars, name, 0);
}

/// Each marker is read from its own variable, where that is set for the first time, and an empty
/// variable is no marker.
pub proof fn each_marker_is_read_from_its_variable(vars: Seq<(String, String)>)
    ensures
        ({
            let env = azure::process_env(vars);
            &&& is_read_from(env.identity_endpoint, vars, "IDENTITY_ENDPOINT"@)
            &&& is_read_from(env.msi_endpoint, vars, "MSI_ENDPOINT"@)
            &&& is_read_from(env.federated_token_file, vars, "AZURE_FEDERATED_TOKEN_FILE"@)
            &&& is_read_from(env.tenant_id, vars, "AZURE_TENANT_ID"@)
            &&& is_read_from(env.client_id, vars, "AZURE_CLIENT_ID"@)
            &&& is_read_from(env.client_secret, vars, "AZURE_CLIENT_SECRET"@)
        }),
{
    lemma_non_empty_variable(vars, "IDENTITY_ENDPOINT"@);
    lemma_non_empty_variable(vars, "MSI_ENDPOINT"@);
    lemma_non_empty_variable(vars, "AZURE_FEDERATED_TOKEN_FILE"@);
    lemma_non_empty_variable(vars, "AZURE_TENANT_ID"@);
    lemma_non_empty_variable(vars, "AZURE_CLIENT_ID"@);
    lemma_non_empty_variable(vars, "AZURE_CLIENT_SECRET"@);
}

/// A blob is probed for its first 512 bytes, with the credential of the kind that was chosen for
/// its URL; a URL that does not parse is refused, and so is a credential that cannot be made.
pub proof fn a_probe_presents_the_chosen_credential(
    url: Seq<char>,
    parsed: Result<UrlView, Seq<char>>,
    env: EnvView,
    id: Option<Seq<char>>,
    override_kind: Option<CredentialKind>,
)
    ensures
        ({
            let kind = azure::chosen(parsed, azure::carries_sas(url), env, override_kind);
            let made = azure::credential_for(env, kind, id);
            match azure::probe_for(url, parsed, env, id, override_kind) {
                Ok(probe) => {
                    &&& parsed is Ok
                    &&& probe.offset == 0
                    &&& probe.length == 512
                    &&& probe.kind == kind
                    &&& made == Ok::<Option<CredentialView>, ErrorView>(probe.credential)
                },
                Err(e) => {
                    &&& e is Protocol
                    &&& parsed is Ok ==> made == Err::<Option<CredentialView>, ErrorView>(e)
                },
            }
        }),
        parsed is Err ==> azure::probe_for(url, parsed, env, id, override_kind) is Err,
{
}

/// Each kind of credential is shown under the name of its variant.
pub proof fn a_kind_is_shown_by_its_name(kind: CredentialKind)
    ensures
        match kind {
            CredentialKind::Anonymous => azure::kind_name(kind) == "Anonymous"@,
            CredentialKind::WorkloadIdentity => azure::kind_name(kind) == "WorkloadIdentity"@,
            CredentialKind::ClientSecret => azure::kind_name(kind) == "ClientSecret"@,
            CredentialKind::ManagedIdentity => azure::kind_name(kind) == "ManagedIdentity"@,
            CredentialKind::DeveloperTools => azure::kind_name(kind) == "DeveloperTools"@,
        },
{
}

/// No two kinds of credential have one name, and no two credentials of different kinds are called
/// the same in an error.
pub proof fn a_name_tells_the_kind(
    a: CredentialKind,
    b: CredentialKind,
    c: CredentialView,
    d: CredentialView,
)
    ensures
        azure::kind_name(a) == azure::kind_name(b) <==> a == b,
        azure::credential_label(c) == azure::credential_label(d) <==> {
            ||| c is WorkloadIdentity && d is WorkloadIdentity
            ||| c is ClientSecret && d is ClientSecret
            ||| c is ManagedIdentity && d is ManagedIdentity
            ||| c is DeveloperTools && d is DeveloperTools
        },
{
    reveal_strlit("Anonymous");
    reveal_strlit("WorkloadIdentity");
    reveal_strlit("ClientSecret");
    reveal_strlit("ManagedIdentity");
    reveal_strlit("DeveloperTools");
    reveal_strlit("workload identity");
    reveal_strlit("client secret");
    reveal_strlit("managed identity");
    reveal_strlit("developer tools");
    assert(azure::kind_name(CredentialKind::Anonymous)[0] == 'A');
    assert(azure::kind_name(CredentialKind::WorkloadIdentity)[0] == 'W');
    assert(azure::kind_name(CredentialKind::ClientSecret)[0] == 'C');
    assert(azure::kind_name(CredentialKind::ManagedIdentity)[0] == 'M');
    assert(azure::kind_name(CredentialKind::DeveloperTools)[0] == 'D');
    assert("workload identity"@[0] == 'w');
    assert("client secret"@[0] == 'c');
    assert("managed identity"@[0] == 'm');
    assert("developer tools"@[0] == 'd');
}

} // verus!
