use bytes::Bytes;
use rati::error::Error;
use rati::storage::azure::has_sas_token;
use rati::external::UrlParts;
use rati::storage::azure::is_azure_url;
use rati::storage::azure::probe_failed;
use rati::storage::local::stat_local;
use rati::storage::redact;
use rati::storage::redact_parsed;
use rati::storage::route;
use rati::storage::AzureOptions;
use rati::storage::Backend;
use rati::storage::CredentialKind;
use rati::storage::Features;
use rati::storage::ReadStep;
use rati::storage::Storage;

#[test]
fn storage_redact_strips_the_query_string() {
    // A SAS is a bearer credential and must never reach a log or an error.
    assert_eq!(
        redact("https://acct.blob.core.windows.net/t/p.tar?sv=2024-11-04&sig=SECRET"),
        "https://acct.blob.core.windows.net/t/p.tar"
    );
    // Nothing to strip: left exactly as-is, including for the other backends.
    assert_eq!(
        redact("https://acct.blob.core.windows.net/t/p.tar"),
        "https://acct.blob.core.windows.net/t/p.tar"
    );
    assert_eq!(redact("s3://bucket/planet.tar"), "s3://bucket/planet.tar");
    assert_eq!(redact("/data/planet.tar"), "/data/planet.tar");
    // A bare "?" still loses everything after it.
    assert_eq!(redact("https://h/p.tar?"), "https://h/p.tar");
}

#[test]
fn mod_redact_strips_the_query_string() {
    // A SAS is a bearer credential and must never reach a log or an error.
    assert_eq!(
        redact("https://acct.blob.core.windows.net/t/p.tar?sv=2024-11-04&sig=SECRET"),
        "https://acct.blob.core.windows.net/t/p.tar"
    );
    // Nothing to strip: left exactly as-is, including for the other backends.
    assert_eq!(
        redact("https://acct.blob.core.windows.net/t/p.tar"),
        "https://acct.blob.core.windows.net/t/p.tar"
    );
    assert_eq!(redact("s3://bucket/planet.tar"), "s3://bucket/planet.tar");
    assert_eq!(redact("/data/planet.tar"), "/data/planet.tar");
    // A bare "?" still loses everything after it.
    assert_eq!(redact("https://h/p.tar?"), "https://h/p.tar");
}

#[test]
fn redact_leaves_filesystem_paths_alone() {
    // A path may legitimately contain '?'; truncating it would name a file the
    // operator never passed.
    assert_eq!(redact("/data/tiles?v2.tar"), "/data/tiles?v2.tar");
    assert_eq!(redact("./tiles?x.tar"), "./tiles?x.tar");
    assert_eq!(redact("s3://bucket/planet.tar"), "s3://bucket/planet.tar");
}

#[test]
fn redaction_laws_on_examples() {
    let url = "http://h/p.tar?a?b&sig=x";
    let shown = redact(url);
    assert_eq!(shown, "http://h/p.tar");
    assert_eq!(redact(shown), shown);
    assert!(has_sas_token("http://h/p.tar?a&sig=x"));
    assert!(!has_sas_token(redact("http://h/p.tar?a&sig=x")));
    assert_eq!(redact("http://?"), "http://");
    assert_eq!(redact("s3://b/k?v"), "s3://b/k?v");
    assert_eq!(redact("https://h/\u{fc}?\u{fc}"), "https://h/\u{fc}");
    assert_eq!(redact(""), "");
}

#[test]
fn no_url_that_azure_serves_is_shown_with_its_query() {
    // The URL parser ignores the case of the scheme, blanks around the URL, tabs and newlines in
    // it, and which slashes follow the scheme.
    let cases = [
        (
            "HTTPS://acct.blob.core.windows.net/t/p.tar?sig=SECRET",
            "HTTPS://acct.blob.core.windows.net/t/p.tar",
        ),
        (
            "HttpS://acct.blob.core.windows.net/t/p.tar?sv=1&sig=SECRET",
            "HttpS://acct.blob.core.windows.net/t/p.tar",
        ),
        (
            " https://acct.blob.core.windows.net/t/p.tar?sig=SECRET",
            " https://acct.blob.core.windows.net/t/p.tar",
        ),
        (
            "ht\ttps://acct.blob.core.windows.net/t/p.tar?sig=SECRET",
            "ht\ttps://acct.blob.core.windows.net/t/p.tar",
        ),
        (
            "https:acct.blob.core.windows.net/t/p.tar?sig=SECRET",
            "https:acct.blob.core.windows.net/t/p.tar",
        ),
        (
            "HTTP://127.0.0.1:10000/devstoreaccount1/c/p.tar?sig=SECRET",
            "HTTP://127.0.0.1:10000/devstoreaccount1/c/p.tar",
        ),
    ];
    for (source, shown) in cases {
        assert!(is_azure_url(source));
        assert!(has_sas_token(source));
        assert_eq!(redact(source), shown);
        assert!(!has_sas_token(redact(source)));
        let error = probe_failed(source, CredentialKind::Anonymous, "403");
        assert!(!error.message().contains("SECRET"));
        match stat_local(source, Err("gone".to_string())) {
            Err(e) => assert_eq!(e.message(), format!("stat({shown}) failed: gone")),
            Ok(_) => panic!("expected an error"),
        }
    }
    // A URL that does not parse is cut as well.
    assert_eq!(redact("HTTPS://a b/p.tar?sig=SECRET"), "HTTPS://a b/p.tar");
}

#[test]
fn redaction_of_parsed_locations() {
    let parsed = |scheme: &str| -> Result<UrlParts, String> {
        Ok(UrlParts {
            scheme: scheme.to_string(),
            host: None,
            path_segments: None,
        })
    };
    let nothing: Result<UrlParts, String> = Err("no URL".to_string());
    assert_eq!(redact_parsed("x?y", &parsed("http")), "x");
    assert_eq!(redact_parsed("x?y", &parsed("https")), "x");
    assert_eq!(redact_parsed("x", &parsed("https")), "x");
    assert_eq!(redact_parsed("x?y", &parsed("s3")), "x?y");
    assert_eq!(redact_parsed("x?y", &nothing), "x?y");
    assert_eq!(redact_parsed("hTTp://x?y", &nothing), "hTTp://x");
}

type Plain = Storage<u8, u8, u8>;

fn open(source: &str) -> Backend<'_> {
    match Plain::open(source, AzureOptions::default(), Features::default()) {
        Ok(backend) => backend,
        Err(_) => panic!("every location has a backend"),
    }
}

#[test]
fn each_location_has_its_backend() {
    assert!(matches!(
        open("s3://bucket/path/tiles.tar"),
        Backend::S3 {
            bucket: "bucket",
            key: "path/tiles.tar"
        }
    ));
    assert!(matches!(
        open("https://acct.blob.core.windows.net/c/tiles.tar"),
        Backend::Azure {
            url: "https://acct.blob.core.windows.net/c/tiles.tar",
            ..
        }
    ));
    // Anything else is treated as a local path.
    let paths = [
        "./tiles.tar",
        "tiles.tar",
        "/data/tiles.tar",
        "https://example.com/tiles.tar",
        "s3://bucket-only",
        "c:tiles.tar",
        "",
    ];
    for path in paths {
        assert!(matches!(open(path), Backend::Local { path: p } if p == path));
    }
}

#[test]
fn azure_options_are_threaded_through() {
    let options = AzureOptions {
        user_assigned: Some("id"),
        credential: Some(CredentialKind::ManagedIdentity),
    };
    match Plain::open(
        "https://acct.blob.core.windows.net/c/tiles.tar",
        options,
        Features::default(),
    ) {
        Ok(Backend::Azure { options, .. }) => {
            assert_eq!(options.user_assigned, Some("id"));
            assert_eq!(options.credential, Some(CredentialKind::ManagedIdentity));
        }
        _ => panic!("expected Azure"),
    }
    assert!(matches!(
        Plain::open("./tiles.tar", options, Features::default()),
        Ok(Backend::Local { path: "./tiles.tar" })
    ));
}

#[test]
fn a_backend_that_is_not_built_in_is_refused() {
    let message = |source: &str, features: Features| {
        match Plain::open(source, AzureOptions::default(), features) {
            Err(Error::Protocol(text)) => text,
            _ => panic!("expected a protocol error"),
        }
    };
    let no_azure = Features {
        s3: true,
        azure: false,
    };
    let no_s3 = Features {
        s3: false,
        azure: true,
    };
    for source in ["http://h/p.tar", "https://acct.blob.core.windows.net/c/p"] {
        assert_eq!(
            message(source, no_azure),
            "HTTP(S) archives require the 'azure' cargo feature"
        );
    }
    for source in ["s3://b/k", "s3://bucket-only"] {
        assert_eq!(
            message(source, no_s3),
            "S3 archives require the 's3' cargo feature"
        );
    }
    // Local archives need neither.
    let none = Features {
        s3: false,
        azure: false,
    };
    assert!(matches!(
        Plain::open("./tiles.tar", AzureOptions::default(), none),
        Ok(Backend::Local { path: "./tiles.tar" })
    ));
    assert!(matches!(
        Plain::open("s3://b/k", AzureOptions::default(), no_azure),
        Ok(Backend::S3 { bucket: "b", key: "k" })
    ));
}

#[test]
fn azure_comes_before_the_other_backends() {
    let features = Features::default();
    assert!(matches!(
        route("s3://b/k", true, AzureOptions::default(), features),
        Ok(Backend::Azure { url: "s3://b/k", .. })
    ));
    assert!(matches!(
        route("s3://b/k", false, AzureOptions::default(), features),
        Ok(Backend::S3 { bucket: "b", key: "k" })
    ));
}

/// Reads from `content` the way a positional read does: all of the range or nothing.
fn read(storage: &Plain, content: &[u8], offset: u64, length: u64) -> Result<Bytes, Error> {
    match storage.read_range(offset, length) {
        ReadStep::Done(data) => Ok(data),
        ReadStep::Local {
            file: _,
            offset: from,
            length: n,
        } => {
            let (from, to) = (from as usize, (from + n) as usize);
            let reply = match content.get(from..to) {
                Some(part) => Ok(Bytes::copy_from_slice(part)),
                None => Err("failed to fill whole buffer".to_string()),
            };
            storage.finish_read(offset, length, Ok(reply))
        }
        _ => panic!("expected a local read"),
    }
}

/// The exact-length contract every caller relies on: code above this layer subtracts from the
/// length of what was read, which underflows on a short read.
#[test]
fn a_short_read_is_rejected() {
    let storage: Plain = Storage::Local { file: 0 };
    let content = b"0123456789";

    // Fully satisfiable reads are returned verbatim.
    assert_eq!(read(&storage, content, 0, 4).unwrap().as_ref(), b"0123");
    // A zero-length read never reaches a backend.
    assert!(read(&storage, content, 4, 0).unwrap().is_empty());

    // Asking past the end must fail loudly rather than hand back a short buffer.
    let err = read(&storage, content, 6, 8).unwrap_err();
    let msg = err.message();
    assert!(msg.contains("offset=6"), "unexpected error: {msg}");
}

#[test]
fn a_local_read_past_the_end_reports_its_own_failure() {
    let storage: Plain = Storage::Local { file: 0 };
    for (offset, length) in [(6, 8), (10, 1), (20, 5)] {
        let err = read(&storage, b"0123456789", offset, length).unwrap_err();
        assert!(matches!(err, Error::Io(_)));
        assert_eq!(
            err.message(),
            format!(
                "local read_at(offset={offset}, len={length}) failed: failed to fill whole buffer"
            )
        );
    }
}

#[test]
fn adjacent_reads_make_up_the_whole() {
    let storage: Plain = Storage::Local { file: 0 };
    let content = b"0123456789";
    let whole = read(&storage, content, 2, 7).unwrap();
    assert_eq!(whole.as_ref(), b"2345678");
    for a in 0..=7 {
        // in whichever order
        let second = read(&storage, content, 2 + a, 7 - a).unwrap();
        let first = read(&storage, content, 2, a).unwrap();
        assert_eq!([first.as_ref(), second.as_ref()].concat(), whole.as_ref());
    }
}

fn boxed(s: &str) -> Box<str> {
    s.to_string().into_boxed_str()
}

#[test]
fn every_backend_enforces_the_length() {
    let backends: [Plain; 3] = [
        Storage::S3 {
            client: 1,
            bucket: boxed("b"),
            key: boxed("k"),
            etag: boxed("e"),
        },
        Storage::AzureBlob {
            client: 2,
            etag: boxed("e"),
        },
        Storage::Local { file: 3 },
    ];
    for storage in &backends {
        let full = Bytes::from_static(b"abcd");
        assert_eq!(storage.finish_read(6, 4, Ok(Ok(full.clone()))).unwrap(), full);
        for (length, text) in [
            (8, "short read at offset=6: asked for 8 bytes, got 4"),
            (3, "short read at offset=6: asked for 3 bytes, got 4"),
        ] {
            let err = storage.finish_read(6, length, Ok(Ok(full.clone()))).unwrap_err();
            assert!(matches!(err, Error::Io(_)));
            assert_eq!(err.message(), text);
        }
        assert!(matches!(storage.read_range(u64::MAX, 0), ReadStep::Done(d) if d.is_empty()));
    }
    let body = |i: usize| {
        backends[i]
            .finish_read(1, 2, Ok(Err("x".to_string())))
            .unwrap_err()
            .message()
            .to_string()
    };
    assert_eq!(body(0), "reading S3 response body: x");
    assert_eq!(body(1), "reading blob response body: x");
    assert_eq!(body(2), "local read_at(offset=1, len=2) failed: x");
    let request = |i: usize| {
        backends[i]
            .finish_read(1, 2, Err("x".to_string()))
            .unwrap_err()
            .message()
            .to_string()
    };
    assert!(request(0).starts_with("S3 GetObject failed: x (a 412"));
    assert!(request(1).starts_with("blob download(offset=1, len=2): x (a 412"));
    assert_eq!(request(2), "local read task panicked: x");
}

#[test]
fn every_remote_read_is_pinned() {
    let s3: Plain = Storage::S3 {
        client: 1,
        bucket: boxed("b"),
        key: boxed("k"),
        etag: boxed("\"v1\""),
    };
    match s3.read_range(512, 512) {
        ReadStep::S3 { client, request } => {
            assert_eq!(*client, 1);
            assert_eq!(request.bucket, "b");
            assert_eq!(request.key, "k");
            assert_eq!(request.range, "bytes=512-1023");
            assert_eq!(request.if_match, "\"v1\"");
        }
        _ => panic!("expected S3"),
    }
    let azure: Plain = Storage::AzureBlob {
        client: 2,
        etag: boxed("\"v2\""),
    };
    match azure.read_range(512, 100) {
        ReadStep::AzureBlob { client, request } => {
            assert_eq!(*client, 2);
            assert_eq!((request.offset, request.length), (512, 100));
            assert_eq!(request.if_match, "\"v2\"");
        }
        _ => panic!("expected Azure"),
    }
}
