//! S3: `HeadObject` for the metadata of the archive, ranged `GetObject` for reads.

use bytes::Bytes;
use vstd::prelude::*;

use super::ArchiveSource;
use super::SourceView;
use super::Storage;
use crate::error::Error;
use crate::error::ErrorView;
use crate::external;
use crate::external::fmt_s3_http_date;
use crate::text;

verus! {

/// The bucket and the key that `url` names, where it has the form `s3://bucket/key`.
pub open spec fn bucket_and_key(url: Seq<char>) -> Option<(Seq<char>, Seq<char>)> {
    match text::after_prefix(url, "s3://"@) {
        Some(path) => text::cut_first(path, '/'),
        None => None,
    }
}

/// What an S3 URL is split into makes up the whole of it, and the bucket ends at the first slash.
pub proof fn lemma_parts_make_the_url(url: Seq<char>, bucket: Seq<char>, key: Seq<char>)
    requires
        bucket_and_key(url) == Some((bucket, key)),
    ensures
        url == "s3://"@ + bucket + seq!['/'] + key,
        !bucket.contains('/'),
{
    let n = "s3://"@.len() as int;
    let path = url.skip(n);
    text::lemma_first_at_splits(path, '/');
    assert(path =~= bucket + seq!['/'] + key);
    assert(url =~= url.subrange(0, n) + path);
    assert(url =~= "s3://"@ + bucket + seq!['/'] + key);
    assert forall|j: int| 0 <= j < bucket.len() implies bucket[j] != '/' by {
        assert(bucket[j] == path[j]);
    }
}

/// Split an `s3://bucket/key` URL into its bucket and key.
pub fn parse_s3_url(url: &str) -> (r: Option<(&str, &str)>)
    ensures
        match r {
            Some((bucket, key)) => bucket_and_key(url@) == Some((bucket@, key@)),
            None => bucket_and_key(url@) is None,
        },
        r matches Some((bucket, key)) ==> url@ == "s3://"@ + bucket@ + seq!['/'] + key@
            && !bucket@.contains('/'),
{
    proof {
        if bucket_and_key(url@) is Some {
            let (bucket, key) = bucket_and_key(url@)->0;
            lemma_parts_make_the_url(url@, bucket, key);
        }
    }
    match text::strip_prefix(url, "s3://") {
        Some(path) => text::split_once(path, '/'),
        None => None,
    }
}

/// What `HeadObject` says of the object.
pub struct HeadObject {
    /// The ETag.
    pub e_tag: Option<String>,
    /// When the object was last modified: seconds and nanoseconds after the Unix epoch.
    pub last_modified: Option<(i64, u32)>,
    /// The size in bytes.
    pub content_length: Option<i64>,
}

/// A size that S3 gave as a signed number, read as the unsigned number with the same bits.
pub open spec fn unsigned_size(n: i64) -> int {
    if n >= 0 {
        n as int
    } else {
        n + 0x1_0000_0000_0000_0000
    }
}

/// The HTTP-date for the time of the last change, if S3 gave one that has such a date.
pub open spec fn head_date(last_modified: Option<(i64, u32)>) -> Option<Seq<char>> {
    match last_modified {
        Some((secs, nanos)) => external::s3_http_date(secs, nanos),
        None => None,
    }
}

/// What the archive is, by the ETag, date and size that `HeadObject` gave; the first of them
/// that is missing is reported.
pub open spec fn head_source(
    e_tag: Option<Seq<char>>,
    date: Option<Seq<char>>,
    content_length: Option<i64>,
) -> Result<SourceView, ErrorView> {
    if e_tag is None {
        Err(ErrorView::Protocol("S3 HeadObject returned no ETag"@))
    } else if date is None {
        Err(ErrorView::Protocol("S3 HeadObject returned no Last-Modified"@))
    } else if content_length is None {
        Err(ErrorView::Protocol("S3 HeadObject returned no Content-Length"@))
    } else {
        Ok(
            SourceView {
                etag: e_tag->0,
                last_modified: date->0,
                size: unsigned_size(content_length->0),
                prefetch: None,
            },
        )
    }
}

/// What the archive is, from the ETag, the formatted date and the size of the object.
pub fn source_of_head(
    e_tag: Option<String>,
    date: Option<String>,
    content_length: Option<i64>,
) -> (r: Result<ArchiveSource, Error>)
    ensures
        match r {
            Ok(source) => head_source(text::text_of(e_tag), text::text_of(date), content_length)
                == Ok::<SourceView, ErrorView>(source@),
            Err(e) => head_source(text::text_of(e_tag), text::text_of(date), content_length)
                == Err::<SourceView, ErrorView>(e@),
        },
        r is Ok <==> e_tag is Some && date is Some && content_length is Some,
        r matches Ok(source) ==> {
            &&& source.etag@ == e_tag->0@
            &&& source.last_modified@ == date->0@
            &&& source.prefetch is None
            &&& content_length->0 >= 0 ==> source.size == content_length->0
            &&& content_length->0 < 0 ==> source.size == content_length->0 + 0x1_0000_0000_0000_0000
        },
        r matches Err(e) ==> e is Protocol,
{
    let etag = match e_tag {
        Some(etag) => etag,
        None => {
            return Err(Error::Protocol("S3 HeadObject returned no ETag".to_owned()));
        },
    };
    let last_modified = match date {
        Some(date) => date,
        None => {
            return Err(Error::Protocol("S3 HeadObject returned no Last-Modified".to_owned()));
        },
    };
    let n: i64 = match content_length {
        Some(n) => n,
        None => {
            return Err(Error::Protocol("S3 HeadObject returned no Content-Length".to_owned()));
        },
    };
    assert(n >= 0 ==> n as u64 == n) by (bit_vector);
    assert(n < 0 ==> n as u64 == n + 0x1_0000_0000_0000_0000) by (bit_vector);
    Ok(
        ArchiveSource {
            etag: etag.into_boxed_str(),
            last_modified: last_modified.into_boxed_str(),
            size: n as u64,
            prefetch: None,
        },
    )
}

/// What opening an object comes to, given what `HeadObject` said of it, or why that failed.
pub open spec fn opened(head: Result<HeadObject, String>) -> Result<SourceView, ErrorView> {
    match head {
        Ok(head) => head_source(
            text::text_of(head.e_tag),
            head_date(head.last_modified),
            head.content_length,
        ),
        Err(detail) => Err(ErrorView::Io("HeadObject failed: "@ + detail@)),
    }
}

/// Open the archive from S3: `head` is the answer to `HeadObject` for ETag, Last-Modified and
/// size, or the text of its failure, and `client` the client that got it.
///
/// Every read through the result is pinned to the ETag that is handed back with it.
pub fn open_s3<S, A, L>(
    client: S,
    bucket: &str,
    key: &str,
    head: Result<HeadObject, String>,
) -> (r: Result<(Storage<S, A, L>, ArchiveSource), Error>)
    ensures
        match r {
            Ok((storage, source)) => {
                &&& opened(head) == Ok::<SourceView, ErrorView>(source@)
                &&& storage matches Storage::S3 { client: c, bucket: b, key: k, .. }
                &&& c == client
                &&& b@ == bucket@
                &&& k@ == key@
                &&& storage.pinned_etag() == Some(source@.etag)
            },
            Err(e) => opened(head) == Err::<SourceView, ErrorView>(e@),
        },
        head matches Ok(answer) ==> (r is Ok <==> answer.e_tag is Some && (
        answer.last_modified matches Some((secs, nanos)) && external::in_s3_date_range(secs, nanos))
            && answer.content_length is Some),
        r matches Ok((storage, source)) ==> (head matches Ok(answer) && {
            &&& answer.e_tag matches Some(e_tag) && e_tag@ == source.etag@
            &&& answer.last_modified matches Some((secs, nanos)) && external::s3_http_date(
                secs,
                nanos,
            ) == Some(source.last_modified@)
            &&& answer.content_length matches Some(n) && (n >= 0 ==> source.size == n)
            &&& source.prefetch is None
            &&& storage matches Storage::S3 { etag, .. } && etag@ == source.etag@
        }),
{
    let head = match head {
        Ok(head) => head,
        Err(detail) => {
            let mut message = "HeadObject failed: ".to_owned();
            message.append(detail.as_str());
            return Err(Error::Io(message));
        },
    };
    let date = match head.last_modified {
        Some((secs, nanos)) => fmt_s3_http_date(secs, nanos),
        None => None,
    };
    match source_of_head(head.e_tag, date, head.content_length) {
        Ok(source) => {
            let etag: &str = &*source.etag;
            let etag = etag.to_owned().into_boxed_str();
            let storage = Storage::S3 {
                client,
                bucket: bucket.to_owned().into_boxed_str(),
                key: key.to_owned().into_boxed_str(),
                etag,
            };
            Ok((storage, source))
        },
        Err(e) => Err(e),
    }
}

/// A `GetObject` request for one range of an object.
pub struct RangedRead {
    pub bucket: String,
    pub key: String,
    /// The `Range` header.
    pub range: String,
    /// The `If-Match` header.
    pub if_match: String,
}

/// The `Range` header for the bytes from `first` to `last`, both of them in.
pub open spec fn byte_range(first: int, last: int) -> Seq<char> {
    "bytes="@ + text::decimal(first as nat) + "-"@ + text::decimal(last as nat)
}

/// The range that a `Range` header names, where it has the form `bytes=first-last`: the offset of
/// its first byte and its length.
pub open spec fn named_range(header: Seq<char>) -> Option<(int, int)> {
    match text::after_prefix(header, "bytes="@) {
        Some(range) => match text::cut_first(range, '-') {
            Some((first, last)) => if first.len() > 0 && text::all_digits(first) && last.len() > 0
                && text::all_digits(last) {
                let start = text::decimal_value(first) as int;
                Some((start, text::decimal_value(last) - start + 1))
            } else {
                None
            },
            None => None,
        },
        None => None,
    }
}

/// The header for a read names the range that is read.
pub proof fn lemma_byte_range_names_the_range(offset: u64, length: u64)
    requires
        length > 0,
    ensures
        named_range(byte_range(offset as int, offset + length - 1)) == Some(
            (offset as int, length as int),
        ),
{
    reveal_strlit("-");
    let n = "bytes="@.len() as int;
    let first = text::decimal(offset as nat);
    let last = text::decimal((offset + length - 1) as nat);
    let header = byte_range(offset as int, offset + length - 1);
    let range = header.skip(n);
    assert(header.subrange(0, n) =~= "bytes="@);
    assert(range =~= first + seq!['-'] + last);
    text::lemma_decimal_value(offset as nat);
    text::lemma_decimal_value((offset + length - 1) as nat);
    assert forall|j: int| 0 <= j < first.len() implies range[j] != '-' by {
        assert(range[j] == first[j]);
        assert(text::is_digit(first[j]));
    }
    assert(range[first.len() as int] == '-');
    text::lemma_first_at(range, '-', first.len() as int);
    assert(range.take(first.len() as int) =~= first);
    assert(range.skip(first.len() as int + 1) =~= last);
}

/// The `GetObject` request for one ranged read, pinned to `etag`.
pub fn ranged_read(bucket: &str, key: &str, etag: &str, offset: u64, length: u64) -> (r: RangedRead)
    requires
        1 <= offset + length <= u64::MAX,
    ensures
        r.bucket@ == bucket@,
        r.key@ == key@,
        r.range@ == byte_range(offset as int, offset + length - 1),
        r.if_match@ == etag@,
{
    let mut range = "bytes=".to_owned();
    text::push_decimal(&mut range, offset);
    range.append("-");
    text::push_decimal(&mut range, offset + length - 1);
    RangedRead {
        bucket: bucket.to_owned(),
        key: key.to_owned(),
        range,
        if_match: etag.to_owned(),
    }
}

/// The error for a ranged read that S3 refused, for the reason `detail`.
pub open spec fn request_failed(detail: Seq<char>) -> ErrorView {
    ErrorView::Io(
        "S3 GetObject failed: "@ + detail
            + " (a 412 here means the archive was replaced while rati was running; restart it)"@,
    )
}

/// What a ranged read comes to: `reply` is the body of the answer, or why the body could not be
/// read, or why the request failed.
///
/// Every read is conditional on the ETag captured when the archive was opened. The tile index
/// maps ids to byte offsets in one specific version of the object, so if the archive is
/// replaced while the server is running those offsets now point into different data; S3 then
/// answers 412 and the read fails visibly.
pub fn read_s3_range(reply: Result<Result<Bytes, String>, String>) -> (r: Result<Bytes, Error>)
    ensures
        match reply {
            Ok(Ok(data)) => r == Ok::<Bytes, Error>(data),
            Ok(Err(detail)) => r matches Err(e) && e@ == ErrorView::Io(
                "reading S3 response body: "@ + detail@,
            ),
            Err(detail) => r matches Err(e) && e@ == request_failed(detail@),
        },
{
    match reply {
        Ok(Ok(data)) => Ok(data),
        Ok(Err(detail)) => {
            let mut message = "reading S3 response body: ".to_owned();
            message.append(detail.as_str());
            Err(Error::Io(message))
        },
        Err(detail) => {
            let mut message = "S3 GetObject failed: ".to_owned();
            message.append(detail.as_str());
            message.append(
                " (a 412 here means the archive was replaced while rati was running; restart it)",
            );
            Err(Error::Io(message))
        },
    }
}

/// A location that begins with `s3://` is no HTTP URL.
pub proof fn lemma_s3_is_not_http(source: Seq<char>)
    requires
        "s3://"@.is_prefix_of(source),
    ensures
        super::azure::is_plainly_not_http(source),
        !super::has_http_prefix(source),
        !super::is_written_as_http(source),
{
    reveal_strlit("s3");
    reveal_strlit("s3://");
    reveal_strlit("http");
    reveal_strlit("https");
    let scheme = "s3"@;
    assert(source.subrange(0, 5) == "s3://"@);
    assert forall|j: int| 0 <= j < 5 implies source[j] == "s3://"@[j] by {
        assert(source.subrange(0, 5)[j] == source[j]);
    }
    assert((scheme + seq![':']) =~= source.subrange(0, 3));
    assert(external::is_plain_scheme(scheme));
    assert((scheme + seq![':']).is_prefix_of(source));
    super::lemma_plainly_not_http(source);
}

} // verus!
