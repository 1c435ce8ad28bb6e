use bytes::Bytes;
use rati::error::Error;
use rati::external::UrlParts;
use rati::storage::azure::build_credential;
use rati::storage::azure::choose_credential;
use rati::storage::azure::client_failed;
use rati::storage::azure::credential_failed;
use rati::storage::azure::finish_open;
use rati::storage::azure::has_blob_host_suffix;
use rati::storage::azure::has_sas_token;
use rati::storage::azure::is_azure_url;
use rati::storage::azure::open_azure;
use rati::storage::azure::parse_content_range_total;
use rati::storage::azure::plan_probe;
use rati::storage::azure::probe_failed;
use rati::storage::azure::ranged_download;
use rati::storage::azure::read_azure_range;
use rati::storage::azure::read_probe_headers;
use rati::storage::azure::require;
use rati::storage::azure::select_credential_kind;
use rati::storage::azure::serves;
use rati::storage::azure::Credential;
use rati::storage::azure::CredentialEnv;
use rati::storage::azure::ProbeHeaders;
use rati::storage::CredentialKind;
use rati::storage::Storage;

#[test]
fn is_azure_url_test() {
    assert!(is_azure_url(
        "https://acct.blob.core.windows.net/tiles/planet.tar"
    ));
    assert!(is_azure_url(
        "https://acct.blob.core.usgovcloudapi.net/tiles/planet.tar"
    ));
    assert!(is_azure_url(
        "https://acct.blob.core.windows.net/tiles/planet.tar?sv=2024-11-04&sig=abc"
    ));

    // DNS hostnames are case-insensitive
    assert!(is_azure_url(
        "https://acct.Blob.Core.Windows.Net/tiles/planet.tar"
    ));
    // explicit port, and a fragment, must not defeat the match
    assert!(is_azure_url(
        "https://acct.blob.core.windows.net:443/tiles/planet.tar"
    ));
    // http against a real blob host is still a blob endpoint; routing it here
    // lets us reject it loudly instead of stat()-ing it as a local path
    assert!(is_azure_url(
        "http://acct.blob.core.windows.net/tiles/planet.tar"
    ));

    assert!(!is_azure_url("s3://bucket/planet.tar"));
    assert!(!is_azure_url("./planet.tar"));
    assert!(!is_azure_url("/data/planet.tar"));
    // https, but not a blob endpoint
    assert!(!is_azure_url("https://example.com/planet.tar"));
    // the suffix alone, with no account label, is not a blob URL
    assert!(!is_azure_url("https://blob.core.windows.net/tiles/p.tar"));

    // Azurite's well-known development account, however it is addressed.
    assert!(is_azure_url(
        "http://127.0.0.1:10000/devstoreaccount1/valhalla/tiles.tar"
    ));
    assert!(is_azure_url(
        "http://azurite:10000/devstoreaccount1/valhalla/tiles.tar"
    ));
    assert!(!is_azure_url("http://127.0.0.1:10000/other/c/p.tar"));

    // That account name is matched in the path, so over https -- where a request
    // can carry a bearer token -- a foreign host must not be able to claim it.
    assert!(!is_azure_url(
        "https://attacker.example/devstoreaccount1/c/p.tar"
    ));
}

#[test]
fn has_sas_token_test() {
    assert!(has_sas_token(
        "https://acct.blob.core.windows.net/t/p.tar?sv=2024-11-04&sig=abc%3D"
    ));
    assert!(has_sas_token(
        "https://acct.blob.core.windows.net/t/p.tar?sp=r&st=2026-01-01&sig=x"
    ));

    assert!(!has_sas_token("https://acct.blob.core.windows.net/t/p.tar"));
    // a query string without a signature is not a SAS
    assert!(!has_sas_token(
        "https://acct.blob.core.windows.net/t/p.tar?snapshot=2026-01-01"
    ));
    // a parameter merely ending in "sig" must not match
    assert!(!has_sas_token(
        "https://acct.blob.core.windows.net/t/p.tar?nosig=x"
    ));
}

#[test]
fn sas_edge_cases() {
    // the signature may come first, be empty, or stand between others
    assert!(has_sas_token("https://h/p?sig=x&sv=1"));
    assert!(has_sas_token("https://h/p?sig="));
    assert!(has_sas_token("p?a=1&&sig=x&b=2"));
    // a name without a value is no signature, and names are compared as they are
    assert!(!has_sas_token("https://h/p?sig"));
    assert!(!has_sas_token("https://h/p?a=1&sig&b=2"));
    assert!(!has_sas_token("https://h/p?SIG=x"));
    assert!(!has_sas_token("https://h/p?signature=x"));
    // only the first question mark starts the query
    assert!(!has_sas_token("https://h/p?a?sig=x"));
    assert!(!has_sas_token("https://h/sig=x"));
    assert!(!has_sas_token("p?"));
    assert!(!has_sas_token(""));
}

#[test]
fn blob_hosts_of_every_cloud() {
    assert!(has_blob_host_suffix("a.blob.core.windows.net"));
    assert!(has_blob_host_suffix("a.blob.core.usgovcloudapi.net"));
    assert!(has_blob_host_suffix("a.blob.core.chinacloudapi.cn"));
    assert!(has_blob_host_suffix("a.blob.core.cloudapi.de"));
    assert!(!has_blob_host_suffix(".blob.core.windows.net"));
    assert!(!has_blob_host_suffix("a.blob.core.windows.net.evil"));
    assert!(!has_blob_host_suffix("a.Blob.core.windows.net"));
    assert!(!has_blob_host_suffix(""));
}

const PLAIN: &str = "https://acct.blob.core.windows.net/t/p.tar";
const SAS: &str = "https://acct.blob.core.windows.net/t/p.tar?sv=1&sig=abc";
const INSECURE: &str = "http://127.0.0.1:10000/devstoreaccount1/c/p.tar";
const HOSTILE: &str = "https://attacker.example/devstoreaccount1/c/p.tar";

/// An environment with no Azure markers at all: a developer laptop.
fn bare() -> CredentialEnv {
    CredentialEnv::default()
}

/// Azure Container Apps and App Service both inject these.
fn container_apps() -> CredentialEnv {
    CredentialEnv {
        identity_endpoint: Some("http://169.254.255.2:8081/msi/token".into()),
        ..Default::default()
    }
}

/// An AKS pod with the workload-identity webhook.
fn aks_workload() -> CredentialEnv {
    CredentialEnv {
        federated_token_file: Some("/var/run/secrets/azure/tokens/azure-identity-token".into()),
        ..Default::default()
    }
}

/// A GitHub Actions / generic CI service principal.
fn service_principal_secret() -> CredentialEnv {
    CredentialEnv {
        tenant_id: Some("t".into()),
        client_id: Some("c".into()),
        client_secret: Some("s".into()),
        ..Default::default()
    }
}

#[test]
fn sas_and_plaintext_need_no_credential() {
    // A SAS in the URL authenticates the request on its own.
    assert_eq!(
        select_credential_kind(SAS, &bare(), None),
        CredentialKind::Anonymous
    );
    assert_eq!(
        select_credential_kind(SAS, &container_apps(), None),
        CredentialKind::Anonymous
    );

    // Never put a bearer token on the wire in the clear, whatever the
    // environment says and even when explicitly asked to.
    assert_eq!(
        select_credential_kind(INSECURE, &bare(), None),
        CredentialKind::Anonymous
    );
    assert_eq!(
        select_credential_kind(INSECURE, &container_apps(), None),
        CredentialKind::Anonymous
    );
    assert_eq!(
        select_credential_kind(INSECURE, &bare(), Some(CredentialKind::ManagedIdentity)),
        CredentialKind::Anonymous
    );
}

#[test]
fn azure_hosted_environments_use_managed_identity() {
    // Container Apps: the primary deployment target.
    assert_eq!(
        select_credential_kind(PLAIN, &container_apps(), None),
        CredentialKind::ManagedIdentity
    );

    // Cloud Shell / Azure ML expose MSI_ENDPOINT instead.
    let msi = CredentialEnv {
        msi_endpoint: Some("http://localhost:50342/oauth2/token".into()),
        ..Default::default()
    };
    assert_eq!(
        select_credential_kind(PLAIN, &msi, None),
        CredentialKind::ManagedIdentity
    );
}

#[test]
fn aks_pods_use_workload_identity() {
    // A federated token file outranks the managed-identity sources: an AKS pod
    // may have both, and the projected token is the one that works.
    assert_eq!(
        select_credential_kind(PLAIN, &aks_workload(), None),
        CredentialKind::WorkloadIdentity
    );

    let both = CredentialEnv {
        federated_token_file: aks_workload().federated_token_file,
        identity_endpoint: container_apps().identity_endpoint,
        ..Default::default()
    };
    assert_eq!(
        select_credential_kind(PLAIN, &both, None),
        CredentialKind::WorkloadIdentity
    );
}

#[test]
fn bare_environment_falls_back_to_the_cli() {
    assert_eq!(
        select_credential_kind(PLAIN, &bare(), None),
        CredentialKind::DeveloperTools
    );
    // Empty markers are not markers.
    let empty = CredentialEnv {
        identity_endpoint: Some(String::new()),
        msi_endpoint: Some(String::new()),
        federated_token_file: Some(String::new()),
        ..Default::default()
    };
    assert_eq!(
        select_credential_kind(PLAIN, &empty, None),
        CredentialKind::DeveloperTools
    );
}

#[test]
fn service_principals_are_detected_from_the_environment() {
    assert_eq!(
        select_credential_kind(PLAIN, &service_principal_secret(), None),
        CredentialKind::ClientSecret
    );

    // A secret without a tenant is not a usable service principal, so detection
    // must fall through rather than pick a credential that cannot work.
    let partial = CredentialEnv {
        tenant_id: None,
        ..service_principal_secret()
    };
    assert_eq!(
        select_credential_kind(PLAIN, &partial, None),
        CredentialKind::DeveloperTools
    );
}

#[test]
fn federated_token_outranks_a_client_secret() {
    // The workload-identity webhook sets AZURE_CLIENT_ID and AZURE_TENANT_ID too,
    // so a stale secret in the environment must not win over the projected token.
    let pod = CredentialEnv {
        federated_token_file: aks_workload().federated_token_file,
        ..service_principal_secret()
    };
    assert_eq!(
        select_credential_kind(PLAIN, &pod, None),
        CredentialKind::WorkloadIdentity
    );
}

#[test]
fn service_principal_outranks_ambient_managed_identity() {
    // An explicitly configured identity beats whatever the host happens to offer.
    let both = CredentialEnv {
        identity_endpoint: container_apps().identity_endpoint,
        ..service_principal_secret()
    };
    assert_eq!(
        select_credential_kind(PLAIN, &both, None),
        CredentialKind::ClientSecret
    );
}

#[test]
fn explicit_override_wins_over_detection() {
    // A bare Azure VM or VMSS exposes no environment marker at all, so IMDS
    // has to be asked for by name.
    assert_eq!(
        select_credential_kind(PLAIN, &bare(), Some(CredentialKind::ManagedIdentity)),
        CredentialKind::ManagedIdentity
    );
    // ...and detection can be overridden the other way too.
    assert_eq!(
        select_credential_kind(
            PLAIN,
            &container_apps(),
            Some(CredentialKind::DeveloperTools)
        ),
        CredentialKind::DeveloperTools
    );
    assert_eq!(
        select_credential_kind(PLAIN, &container_apps(), Some(CredentialKind::Anonymous)),
        CredentialKind::Anonymous
    );
}

#[test]
fn only_a_blob_host_is_ever_credentialed() {
    assert_eq!(
        select_credential_kind(HOSTILE, &container_apps(), None),
        CredentialKind::Anonymous
    );
    // ...not even when the operator names a credential explicitly.
    assert_eq!(
        select_credential_kind(
            HOSTILE,
            &container_apps(),
            Some(CredentialKind::ManagedIdentity)
        ),
        CredentialKind::Anonymous
    );
    assert_eq!(
        select_credential_kind("https://example.com/c/p.tar", &container_apps(), None),
        CredentialKind::Anonymous
    );
}

#[test]
fn what_is_no_url_is_never_credentialed() {
    assert_eq!(
        select_credential_kind("acct.blob.core.windows.net/t", &container_apps(), None),
        CredentialKind::Anonymous
    );
    assert_eq!(
        select_credential_kind(
            "http://acct.blob.core.windows.net/t/p.tar",
            &aks_workload(),
            Some(CredentialKind::WorkloadIdentity)
        ),
        CredentialKind::Anonymous
    );
}

fn parts(scheme: &str, host: Option<&str>, segments: &[&str]) -> Result<UrlParts, String> {
    Ok(UrlParts {
        scheme: scheme.to_string(),
        host: host.map(|h| h.to_string()),
        path_segments: Some(segments.iter().map(|s| s.to_string()).collect()),
    })
}

#[test]
fn decisions_on_parsed_locations() {
    let blob = Some("acct.blob.core.windows.net");
    assert!(serves(&parts("https", blob, &["t", "p.tar"])));
    assert!(serves(&parts("http", blob, &["t"])));
    assert!(serves(&parts("http", Some("h"), &["devstoreaccount1"])));
    assert!(!serves(&parts("http", Some("h"), &["x", "devstoreaccount1"])));
    assert!(!serves(&parts("http", None, &[])));
    assert!(!serves(&parts("https", Some("h"), &["devstoreaccount1"])));
    assert!(!serves(&parts("s3", blob, &["devstoreaccount1"])));
    assert!(!serves(&Err("no URL".to_string())));

    let url = parts("https", blob, &["t"]);
    assert_eq!(
        choose_credential(&url, false, &aks_workload(), None),
        CredentialKind::WorkloadIdentity
    );
    assert_eq!(
        choose_credential(&url, true, &aks_workload(), None),
        CredentialKind::Anonymous
    );
    assert_eq!(
        choose_credential(&Err("no URL".to_string()), false, &aks_workload(), None),
        CredentialKind::Anonymous
    );
}

#[test]
fn markers_are_read_from_the_process_environment() {
    let vars = vec![
        ("PATH".to_string(), "/bin".to_string()),
        ("AZURE_TENANT_ID".to_string(), "tenant".to_string()),
        ("AZURE_CLIENT_ID".to_string(), "client".to_string()),
        ("AZURE_CLIENT_SECRET".to_string(), String::new()),
        ("AZURE_CLIENT_SECRET".to_string(), "late".to_string()),
        ("IDENTITY_ENDPOINT".to_string(), "i".to_string()),
        ("MSI_ENDPOINT".to_string(), "m".to_string()),
        ("AZURE_FEDERATED_TOKEN_FILE".to_string(), "f".to_string()),
    ];
    let env = CredentialEnv::from_process(&vars);
    assert_eq!(env.tenant_id.as_deref(), Some("tenant"));
    assert_eq!(env.client_id.as_deref(), Some("client"));
    assert_eq!(env.client_secret, None);
    assert_eq!(env.identity_endpoint.as_deref(), Some("i"));
    assert_eq!(env.msi_endpoint.as_deref(), Some("m"));
    assert_eq!(env.federated_token_file.as_deref(), Some("f"));

    let env = CredentialEnv::from_process(&Vec::new());
    assert_eq!(env.tenant_id, None);
    assert_eq!(env.federated_token_file, None);
}

#[test]
fn a_required_variable_is_reported_by_name() {
    let kind = CredentialKind::ClientSecret;
    assert_eq!(
        require(&Some("v".to_string()), "NAME", kind).unwrap(),
        "v"
    );
    for absent in [None, Some(String::new())] {
        let err = require(&absent, "NAME", kind).unwrap_err();
        assert!(matches!(err, Error::Protocol(_)));
        assert_eq!(
            err.message(),
            "ClientSecret credential needs NAME to be set"
        );
    }
}

#[test]
fn credentials_are_built_from_what_they_need() {
    let env = service_principal_secret();
    assert!(build_credential(&env, CredentialKind::Anonymous, None)
        .unwrap()
        .is_none());
    assert!(matches!(
        build_credential(&bare(), CredentialKind::WorkloadIdentity, None),
        Ok(Some(Credential::WorkloadIdentity))
    ));
    assert!(matches!(
        build_credential(&bare(), CredentialKind::DeveloperTools, Some("id")),
        Ok(Some(Credential::DeveloperTools))
    ));
    match build_credential(&env, CredentialKind::ClientSecret, Some("id")) {
        Ok(Some(Credential::ClientSecret {
            tenant,
            client,
            secret,
        })) => {
            assert_eq!(tenant, "t");
            assert_eq!(client, "c");
            assert_eq!(secret, "s");
        }
        _ => panic!("expected a service principal"),
    }
    match build_credential(&bare(), CredentialKind::ManagedIdentity, Some("id")) {
        Ok(Some(Credential::ManagedIdentity { user_assigned })) => {
            assert_eq!(user_assigned.as_deref(), Some("id"));
        }
        _ => panic!("expected a managed identity"),
    }
    match build_credential(&bare(), CredentialKind::ManagedIdentity, None) {
        Ok(Some(Credential::ManagedIdentity { user_assigned })) => {
            assert_eq!(user_assigned, None);
        }
        _ => panic!("expected a managed identity"),
    }
}

#[test]
fn the_first_missing_variable_of_a_service_principal_is_reported() {
    let kind = CredentialKind::ClientSecret;
    let message = |env: &CredentialEnv| match build_credential(env, kind, None) {
        Err(e) => e.message().to_string(),
        Ok(_) => panic!("expected an error"),
    };
    assert_eq!(
        message(&bare()),
        "ClientSecret credential needs AZURE_TENANT_ID to be set"
    );
    let mut env = service_principal_secret();
    env.client_id = None;
    env.client_secret = None;
    assert_eq!(
        message(&env),
        "ClientSecret credential needs AZURE_CLIENT_ID to be set"
    );
    let mut env = service_principal_secret();
    env.client_secret = Some(String::new());
    assert_eq!(
        message(&env),
        "ClientSecret credential needs AZURE_CLIENT_SECRET to be set"
    );
}

#[test]
fn a_credential_that_fails_is_named() {
    let cases = [
        (Credential::WorkloadIdentity, "workload identity credential: x"),
        (
            Credential::ClientSecret {
                tenant: "t".to_string(),
                client: "c".to_string(),
                secret: "s".to_string(),
            },
            "client secret credential: x",
        ),
        (
            Credential::ManagedIdentity {
                user_assigned: None,
            },
            "managed identity credential: x",
        ),
        (Credential::DeveloperTools, "developer tools credential: x"),
    ];
    for (credential, expected) in cases {
        let err = credential_failed(&credential, "x");
        assert!(matches!(err, Error::Io(_)));
        assert_eq!(err.message(), expected);
    }
}

#[test]
fn a_blob_is_probed_for_its_first_block() {
    let probe = match open_azure(PLAIN, &container_apps(), Some("id"), None) {
        Ok(probe) => probe,
        Err(_) => panic!("expected a probe"),
    };
    assert_eq!(probe.kind, CredentialKind::ManagedIdentity);
    assert_eq!((probe.offset, probe.length), (0, 512));
    assert!(matches!(
        probe.credential,
        Some(Credential::ManagedIdentity { user_assigned: Some(id) }) if id == "id"
    ));

    let probe = match open_azure(INSECURE, &container_apps(), None, None) {
        Ok(probe) => probe,
        Err(_) => panic!("expected a probe"),
    };
    assert_eq!(probe.kind, CredentialKind::Anonymous);
    assert!(probe.credential.is_none());

    match open_azure(PLAIN, &bare(), None, Some(CredentialKind::ClientSecret)) {
        Err(e) => assert_eq!(
            e.message(),
            "ClientSecret credential needs AZURE_TENANT_ID to be set"
        ),
        Ok(_) => panic!("expected an error"),
    }
}

#[test]
fn an_invalid_blob_url_is_reported_without_its_query() {
    match open_azure("https://?sig=SECRET", &bare(), None, None) {
        Err(e) => {
            assert!(matches!(e, Error::Protocol(_)));
            assert_eq!(e.message(), "invalid blob URL https://: empty host");
        }
        Ok(_) => panic!("expected an error"),
    }
    let parsed: Result<UrlParts, String> = Err("why".to_string());
    match plan_probe("https://h/p?sig=SECRET", &parsed, &bare(), None, None) {
        Err(e) => assert_eq!(e.message(), "invalid blob URL https://h/p: why"),
        Ok(_) => panic!("expected an error"),
    }
}

#[test]
fn a_failed_probe_names_the_credential_and_hides_the_query() {
    assert_eq!(
        probe_failed(SAS, CredentialKind::Anonymous, "403").message(),
        "reading https://acct.blob.core.windows.net/t/p.tar failed using the Anonymous \
         credential: 403 (check it has Storage Blob Data Reader on the container \u{2014} \
         account-level Owner or Contributor does not grant blob read)"
    );
    let names = [
        CredentialKind::WorkloadIdentity,
        CredentialKind::ClientSecret,
        CredentialKind::ManagedIdentity,
        CredentialKind::DeveloperTools,
    ];
    for kind in names {
        assert_eq!(kind.name(), format!("{kind:?}"));
        assert!(probe_failed(PLAIN, kind, "x")
            .message()
            .contains(&format!("using the {kind:?} credential: x")));
    }
    assert_eq!(client_failed("x").message(), "creating blob client: x");
}

#[test]
fn parse_content_range_total_test() {
    assert_eq!(
        parse_content_range_total("bytes 0-511/85899345920"),
        Some(85_899_345_920)
    );
    assert_eq!(parse_content_range_total("bytes 0-0/1"), Some(1));

    // unsatisfiable / unknown total
    assert_eq!(parse_content_range_total("bytes 0-511/*"), None);
    assert_eq!(parse_content_range_total("bytes */1234"), Some(1234));
    assert_eq!(parse_content_range_total("garbage"), None);
    assert_eq!(parse_content_range_total(""), None);
}

#[test]
fn content_range_edge_cases() {
    assert_eq!(
        parse_content_range_total("bytes 0-0/18446744073709551615"),
        Some(u64::MAX)
    );
    assert_eq!(
        parse_content_range_total("bytes 0-0/18446744073709551616"),
        None
    );
    assert_eq!(parse_content_range_total("bytes 0-0/ \t7\u{3000} "), Some(7));
    assert_eq!(parse_content_range_total("bytes 0-0/+7"), Some(7));
    assert_eq!(parse_content_range_total("bytes 0-0/-7"), None);
    assert_eq!(parse_content_range_total("bytes 0-0/007"), Some(7));
    assert_eq!(parse_content_range_total("bytes 1/2/3"), Some(3));
    assert_eq!(parse_content_range_total("bytes 0-0/"), None);
    assert_eq!(parse_content_range_total("bytes 12"), None);
    assert_eq!(parse_content_range_total("Bytes 0-0/1"), None);
    assert_eq!(parse_content_range_total("bytes=0-0/1"), None);
}

fn headers(etag: Option<&str>, modified: Option<u64>, range: Option<&str>) -> ProbeHeaders {
    ProbeHeaders {
        etag: etag.map(|s| s.to_string()),
        last_modified: modified,
        content_range: range.map(|s| s.to_string()),
    }
}

#[test]
fn an_answered_probe_tells_what_the_blob_is() {
    let answer = headers(Some("\"0x8D\""), Some(1_744_891_200), Some("bytes 0-511/2048"));
    let source = read_probe_headers(answer).unwrap_or_else(|_| panic!("expected a source"));
    assert_eq!(&*source.etag, "\"0x8D\"");
    assert_eq!(&*source.last_modified, "Thu, 17 Apr 2025 12:00:00 GMT");
    assert_eq!(source.size, 2048);
    assert!(source.prefetch.is_none());

    let (storage, opened): (Storage<(), u8, ()>, _) =
        finish_open(7u8, source, Ok(Bytes::from_static(b"block")))
            .unwrap_or_else(|_| panic!("expected an open blob"));
    assert_eq!(&*opened.etag, "\"0x8D\"");
    assert_eq!(&*opened.last_modified, "Thu, 17 Apr 2025 12:00:00 GMT");
    assert_eq!(opened.size, 2048);
    assert_eq!(opened.prefetch.as_deref(), Some(&b"block"[..]));
    match storage {
        Storage::AzureBlob { client, etag } => {
            assert_eq!(client, 7);
            assert_eq!(&*etag, "\"0x8D\"");
        }
        _ => panic!("expected a blob"),
    }
}

#[test]
fn a_body_that_cannot_be_read_fails_the_open() {
    let answer = headers(Some("e"), Some(0), Some("bytes 0-0/1"));
    let source = read_probe_headers(answer).unwrap_or_else(|_| panic!("expected a source"));
    let opened: Result<(Storage<(), (), ()>, _), Error> =
        finish_open((), source, Err("reset".to_string()));
    match opened {
        Err(e) => {
            assert!(matches!(e, Error::Io(_)));
            assert_eq!(e.message(), "reading blob probe body: reset");
        }
        Ok(_) => panic!("expected an error"),
    }
}

#[test]
fn the_first_header_that_a_probe_lacks_is_reported() {
    let message = |h: ProbeHeaders| match read_probe_headers(h) {
        Err(Error::Protocol(text)) => text,
        _ => panic!("expected a protocol error"),
    };
    assert_eq!(
        message(headers(None, None, None)),
        "blob response carried no ETag"
    );
    assert_eq!(
        message(headers(Some("e"), None, None)),
        "blob response carried no Last-Modified"
    );
    assert_eq!(
        message(headers(Some("e"), Some(0), None)),
        "blob response carried no usable Content-Range"
    );
    assert_eq!(
        message(headers(Some("e"), Some(0), Some("bytes 0-511/*"))),
        "blob response carried no usable Content-Range"
    );
}

#[test]
fn a_download_is_pinned_and_its_failure_explained() {
    let request = ranged_download("\"e\"", 3, 4);
    assert_eq!((request.offset, request.length), (3, 4));
    assert_eq!(request.if_match, "\"e\"");

    let data = Bytes::from_static(b"data");
    assert_eq!(
        read_azure_range(3, 4, Ok(Ok(data.clone()))).unwrap(),
        data
    );
    assert_eq!(
        read_azure_range(3, 4, Ok(Err("x".to_string())))
            .unwrap_err()
            .message(),
        "reading blob response body: x"
    );
    assert_eq!(
        read_azure_range(30, 40, Err("412".to_string()))
            .unwrap_err()
            .message(),
        "blob download(offset=30, len=40): 412 (a 412 here means the archive was replaced \
         while rati was running; restart it)"
    );
}
