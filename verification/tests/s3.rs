use bytes::Bytes;
use rati::error::Error;
use rati::storage::s3::open_s3;
use rati::storage::s3::parse_s3_url;
use rati::storage::s3::ranged_read;
use rati::storage::s3::read_s3_range;
use rati::storage::s3::source_of_head;
use rati::storage::s3::HeadObject;
use rati::storage::ArchiveSource;
use rati::storage::Storage;

#[test]
fn storage_parse_s3_url_test() {
    assert_eq!(
        parse_s3_url("s3://my-bucket/path/to/file.tar"),
        Some(("my-bucket", "path/to/file.tar"))
    );
    assert_eq!(
        parse_s3_url("s3://bucket/file.tar"),
        Some(("bucket", "file.tar"))
    );

    assert_eq!(parse_s3_url("bucket/key"), None);
    assert_eq!(parse_s3_url("https://wrong/scheme"), None);
    assert_eq!(parse_s3_url("s3:/bad-url/format"), None);
    assert_eq!(parse_s3_url("s3://bucket-only"), None);
    assert_eq!(parse_s3_url("s3://file-only.tar"), None);
}

#[test]
fn s3_parse_s3_url_test() {
    assert_eq!(
        parse_s3_url("s3://my-bucket/path/to/file.tar"),
        Some(("my-bucket", "path/to/file.tar"))
    );
    assert_eq!(
        parse_s3_url("s3://bucket/file.tar"),
        Some(("bucket", "file.tar"))
    );

    assert_eq!(parse_s3_url("bucket/key"), None);
    assert_eq!(parse_s3_url("https://wrong/scheme"), None);
    assert_eq!(parse_s3_url("s3:/bad-url/format"), None);
    assert_eq!(parse_s3_url("s3://bucket-only"), None);
    assert_eq!(parse_s3_url("s3://file-only.tar"), None);
}

#[test]
fn s3_url_edge_cases() {
    assert_eq!(parse_s3_url("s3:///key"), Some(("", "key")));
    assert_eq!(parse_s3_url("s3://bucket/"), Some(("bucket", "")));
    assert_eq!(parse_s3_url("s3://b\u{fc}cket/k/l"), Some(("b\u{fc}cket", "k/l")));
    assert_eq!(parse_s3_url("S3://bucket/key"), None);
}

/// Every ranged read must be pinned to the ETag captured at open. Without it an
/// object replaced mid-flight is served at stale offsets under the old ETag and
/// `Cache-Control: immutable`, poisoning client and CDN caches.
#[test]
fn every_ranged_read_is_pinned_to_the_etag() {
    let client = aws_sdk_s3::Client::from_conf(
        aws_sdk_s3::Config::builder()
            .behavior_version_latest()
            .region(aws_sdk_s3::config::Region::new("us-east-1"))
            .credentials_provider(aws_sdk_s3::config::Credentials::new(
                "id", "secret", None, None, "test",
            ))
            .build(),
    );

    let read = ranged_read("bucket", "planet.tar", "\"abc123\"", 1536, 44_504_000);
    let req = client
        .get_object()
        .bucket(read.bucket)
        .key(read.key)
        .range(read.range)
        .if_match(read.if_match);
    assert_eq!(
        req.get_if_match().as_deref(),
        Some("\"abc123\""),
        "ranged reads must carry If-Match"
    );
    assert_eq!(req.get_range().as_deref(), Some("bytes=1536-44505535"));
    assert_eq!(req.get_bucket().as_deref(), Some("bucket"));
    assert_eq!(req.get_key().as_deref(), Some("planet.tar"));
}

#[test]
fn ranges_at_the_limits() {
    assert_eq!(ranged_read("b", "k", "e", 0, 1).range, "bytes=0-0");
    assert_eq!(
        ranged_read("b", "k", "e", 1, u64::MAX - 1).range,
        "bytes=1-18446744073709551614"
    );
    // different reads have different ranges
    assert_ne!(
        ranged_read("b", "k", "e", 1, 12).range,
        ranged_read("b", "k", "e", 11, 2).range
    );
}

fn head(etag: Option<&str>, modified: Option<(i64, u32)>, length: Option<i64>) -> HeadObject {
    HeadObject {
        e_tag: etag.map(|s| s.to_string()),
        last_modified: modified,
        content_length: length,
    }
}

fn open(answer: Result<HeadObject, String>) -> Result<(Storage<u8, (), ()>, ArchiveSource), Error> {
    open_s3(9u8, "bucket", "planet.tar", answer)
}

#[test]
fn an_object_is_opened_by_its_head() {
    let answer = head(Some("\"abc\""), Some((1_744_891_200, 500_000_000)), Some(4096));
    let (storage, source) = open(Ok(answer)).unwrap_or_else(|_| panic!("expected an object"));
    assert_eq!(&*source.etag, "\"abc\"");
    assert_eq!(&*source.last_modified, "Thu, 17 Apr 2025 12:00:00 GMT");
    assert_eq!(source.size, 4096);
    assert!(source.prefetch.is_none());
    match storage {
        Storage::S3 {
            client,
            bucket,
            key,
            etag,
        } => {
            assert_eq!(client, 9);
            assert_eq!(&*bucket, "bucket");
            assert_eq!(&*key, "planet.tar");
            assert_eq!(&*etag, "\"abc\"");
        }
        _ => panic!("expected S3"),
    }
}

#[test]
fn dates_at_the_limits_of_s3() {
    let date = |secs, nanos| match open(Ok(head(Some("e"), Some((secs, nanos)), Some(1)))) {
        Ok((_, source)) => Some(source.last_modified.to_string()),
        Err(_) => None,
    };
    assert_eq!(
        date(-62_135_596_800, 0).as_deref(),
        Some("Mon, 01 Jan 0001 00:00:00 GMT")
    );
    assert_eq!(date(-62_135_596_801, 999_999_999), None);
    assert_eq!(
        date(253_402_300_799, 999_999_999).as_deref(),
        Some("Fri, 31 Dec 9999 23:59:59 GMT")
    );
    assert_eq!(date(253_402_300_800, 0), None);
    // a nanosecond count over a second counts on
    assert_eq!(
        date(-62_135_596_801, 1_000_000_000).as_deref(),
        Some("Mon, 01 Jan 0001 00:00:00 GMT")
    );
    assert_eq!(date(253_402_300_799, 1_000_000_000), None);
    assert_eq!(date(i64::MAX, u32::MAX), None);
    assert_eq!(date(i64::MIN, 0), None);
}

#[test]
fn a_negative_length_keeps_its_bits() {
    let (_, source) =
        open(Ok(head(Some("e"), Some((0, 0)), Some(-1)))).unwrap_or_else(|_| panic!("expected Ok"));
    assert_eq!(source.size, u64::MAX);
}

#[test]
fn what_head_object_lacks_is_reported() {
    let message = |answer| match open(answer) {
        Err(e) => e,
        Ok(_) => panic!("expected an error"),
    };
    let e = message(Err("timeout".to_string()));
    assert!(matches!(e, Error::Io(_)));
    assert_eq!(e.message(), "HeadObject failed: timeout");
    let e = message(Ok(head(None, None, None)));
    assert!(matches!(e, Error::Protocol(_)));
    assert_eq!(e.message(), "S3 HeadObject returned no ETag");
    assert_eq!(
        message(Ok(head(Some("e"), None, None))).message(),
        "S3 HeadObject returned no Last-Modified"
    );
    assert_eq!(
        message(Ok(head(Some("e"), Some((0, 0)), None))).message(),
        "S3 HeadObject returned no Content-Length"
    );
}

#[test]
fn a_source_is_made_of_a_formatted_date() {
    let source = source_of_head(Some("e".to_string()), Some("d".to_string()), Some(5))
        .unwrap_or_else(|_| panic!("expected a source"));
    assert_eq!(&*source.etag, "e");
    assert_eq!(&*source.last_modified, "d");
    assert_eq!(source.size, 5);
}

#[test]
fn a_refused_read_explains_itself() {
    let data = Bytes::from_static(b"data");
    assert_eq!(read_s3_range(Ok(Ok(data.clone()))).unwrap(), data);
    assert_eq!(
        read_s3_range(Ok(Err("x".to_string()))).unwrap_err().message(),
        "reading S3 response body: x"
    );
    assert_eq!(
        read_s3_range(Err("412".to_string())).unwrap_err().message(),
        "S3 GetObject failed: 412 (a 412 here means the archive was replaced while rati was \
         running; restart it)"
    );
}
