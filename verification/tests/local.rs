use bytes::Bytes;
use rati::error::Error;
use rati::storage::local::format_http_date;
use rati::storage::local::open_local;
use rati::storage::local::read_local_range;
use rati::storage::local::stat_local;
use rati::storage::local::FileMetadata;
use rati::storage::local::Modified;
use rati::storage::Storage;

#[test]
fn http_date_format_matches_imf_fixdate() {
    assert_eq!(
        format_http_date(1_744_891_200),
        "Thu, 17 Apr 2025 12:00:00 GMT"
    );
}

#[test]
fn http_dates_at_the_limits() {
    assert_eq!(format_http_date(0), "Thu, 01 Jan 1970 00:00:00 GMT");
    assert_eq!(
        format_http_date(rati::external::HTTP_DATE_END - 1),
        "Fri, 31 Dec 9999 23:59:59 GMT"
    );
}

fn file(size: u64, modified: Result<Modified, String>) -> Result<FileMetadata, String> {
    Ok(FileMetadata {
        is_file: true,
        size,
        modified,
    })
}

fn etag(mtime: u64, size: u64) -> String {
    stat_local("p", file(size, Ok(Modified::SinceEpoch(mtime))))
        .unwrap_or_else(|_| panic!("expected a source"))
        .etag
        .to_string()
}

#[test]
fn a_local_archive_is_described_by_its_stat() {
    let stat = file(10_240, Ok(Modified::SinceEpoch(1_744_891_200)));
    let source =
        stat_local("/data/tiles.tar", stat).unwrap_or_else(|_| panic!("expected a source"));
    assert_eq!(&*source.etag, "\"1744891200-10240\"");
    assert_eq!(&*source.last_modified, "Thu, 17 Apr 2025 12:00:00 GMT");
    assert_eq!(source.size, 10_240);
    assert!(source.prefetch.is_none());

    let (storage, opened): (Storage<(), (), u8>, _) =
        open_local("/data/tiles.tar", source, Ok(5u8)).unwrap_or_else(|_| panic!("expected Ok"));
    assert!(matches!(storage, Storage::Local { file: 5 }));
    assert_eq!(&*opened.etag, "\"1744891200-10240\"");
}

#[test]
fn the_etag_changes_with_the_archive() {
    assert_eq!(etag(0, 0), "\"0-0\"");
    assert_eq!(etag(253_402_300_799, u64::MAX), "\"253402300799-18446744073709551615\"");
    assert_ne!(etag(1, 11), etag(11, 1));
    assert_ne!(etag(1, 2), etag(1, 3));
    assert_ne!(etag(1, 2), etag(2, 2));
}

#[test]
fn an_archive_that_cannot_be_opened_says_why() {
    let fail = |path: &str, stat| match stat_local(path, stat) {
        Err(e) => e,
        Ok(_) => panic!("expected an error"),
    };
    let e = fail("/data/tiles?v2.tar", Err("gone".to_string()));
    assert!(matches!(e, Error::Io(_)));
    assert_eq!(e.message(), "stat(/data/tiles?v2.tar) failed: gone");
    let e = fail("https://h/p.tar?sig=SECRET", Err("gone".to_string()));
    assert_eq!(e.message(), "stat(https://h/p.tar) failed: gone");

    let directory = Ok(FileMetadata {
        is_file: false,
        size: 0,
        modified: Ok(Modified::SinceEpoch(u64::MAX)),
    });
    let e = fail("/data", directory);
    assert!(matches!(e, Error::Protocol(_)));
    assert_eq!(e.message(), "/data is not a regular file");

    let e = fail("/data/t.tar", file(1, Err("unsupported".to_string())));
    assert!(matches!(e, Error::Io(_)));
    assert_eq!(e.message(), "/data/t.tar has no mtime: unsupported");

    let e = fail("/data/t.tar", file(1, Ok(Modified::BeforeEpoch)));
    assert!(matches!(e, Error::Protocol(_)));
    assert_eq!(e.message(), "file mtime is before UNIX epoch");

    let source = stat_local("/data/t.tar", file(1, Ok(Modified::SinceEpoch(1))))
        .unwrap_or_else(|_| panic!("expected a source"));
    let opened: Result<(Storage<(), (), ()>, _), Error> =
        open_local("/data/t.tar", source, Err("denied".to_string()));
    match opened {
        Err(e) => {
            assert!(matches!(e, Error::Io(_)));
            assert_eq!(e.message(), "open(/data/t.tar) failed: denied");
        }
        Ok(_) => panic!("expected an error"),
    }
}

#[test]
fn a_local_read_that_fails_says_why() {
    let data = Bytes::from_static(b"data");
    assert_eq!(read_local_range(0, 4, Ok(Ok(data.clone()))).unwrap(), data);
    assert_eq!(
        read_local_range(10, 4, Ok(Err("eof".to_string())))
            .unwrap_err()
            .message(),
        "local read_at(offset=10, len=4) failed: eof"
    );
    assert_eq!(
        read_local_range(10, 4, Err("join".to_string()))
            .unwrap_err()
            .message(),
        "local read task panicked: join"
    );
}
