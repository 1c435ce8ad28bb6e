//! What holds of an archive that was opened: its ETag, its date and its size are those that the
//! backend gave.

use vstd::prelude::*;

use super::reads;
use super::texts;
use crate::error::ErrorView;
use crate::external;
use crate::storage::azure;
use crate::storage::azure::ProbeHeaders;
use crate::storage::local;
use crate::storage::local::FileMetadata;
use crate::storage::local::Modified;
use crate::storage::s3;
use crate::storage::s3::HeadObject;
use crate::storage::SourceView;
use crate::text;

verus! {

/// An object is what S3 says of it: the ETag and the date as they came, no byte of it read, and
/// the size that S3 gave. Where that size is negative, which it never should be, the size handed
/// back is the number with the same 64 bits.
pub proof fn an_object_is_what_s3_says(e_tag: Seq<char>, date: Seq<char>, n: i64)
    ensures
        s3::head_source(Some(e_tag), Some(date), Some(n)) matches Ok(source) && {
            &&& source.etag == e_tag
            &&& source.last_modified == date
            &&& source.prefetch is None
            &&& n >= 0 ==> source.size == n
            &&& n < 0 ==> source.size == n + u64::MAX + 1
        },
{
}

/// Opening an object for which S3 gives an ETag, a date that can be written and a size hands all
/// three back.
pub proof fn an_opened_object_is_what_s3_says(head: HeadObject, e_tag: String, n: i64)
    requires
        head.e_tag == Some(e_tag),
        head.content_length == Some(n),
        n >= 0,
    ensures
        (head.last_modified matches Some((secs, nanos)) && external::s3_http_date(
            secs,
            nanos,
        ) is Some) ==> (s3::opened(Ok(head)) matches Ok(source) && {
            &&& source.etag == e_tag@
            &&& source.size == n
            &&& source.prefetch is None
            &&& head.last_modified matches Some((secs, nanos)) && Some(source.last_modified)
                == external::s3_http_date(secs, nanos)
        }),
{
}

/// An object is opened exactly when S3 gives all three; what is missing first decides the error,
/// and an error says which it is.
pub proof fn what_an_object_lacks_is_reported(
    e_tag: Option<Seq<char>>,
    date: Option<Seq<char>>,
    n: Option<i64>,
    date2: Option<Seq<char>>,
    n2: Option<i64>,
)
    ensures
        s3::head_source(e_tag, date, n) is Ok <==> e_tag is Some && date is Some && n is Some,
        s3::head_source(e_tag, date, n) matches Err(e) ==> e is Protocol,
        s3::head_source(None, date, n) == s3::head_source(None, date2, n2),
        s3::head_source(e_tag, None, n) == s3::head_source(e_tag, None, n2),
        e_tag is Some ==> s3::head_source(e_tag, None, n) != s3::head_source(None, date, n),
        e_tag is Some && date is Some ==> {
            &&& s3::head_source(e_tag, date, None) != s3::head_source(None, date, n)
            &&& s3::head_source(e_tag, date, None) != s3::head_source(e_tag, None, n)
        },
{
    reveal_strlit("S3 HeadObject returned no ETag");
    reveal_strlit("S3 HeadObject returned no Last-Modified");
    reveal_strlit("S3 HeadObject returned no Content-Length");
    let a = "S3 HeadObject returned no ETag"@;
    let b = "S3 HeadObject returned no Last-Modified"@;
    let c = "S3 HeadObject returned no Content-Length"@;
    assert(a.len() < b.len() && b.len() < c.len());
}

/// A blob is what the headers of the answer say of it: the ETag as it came, the time of its last
/// change, and the total length; it is opened exactly when they are all there.
pub proof fn a_blob_is_what_its_headers_say(headers: ProbeHeaders)
    ensures
        azure::probed_source(headers) is Ok <==> headers.etag is Some && headers.last_modified is Some
            && (headers.content_range matches Some(header) && azure::content_range_total(
            header@,
        ) is Some),
        azure::probed_source(headers) matches Ok(source) ==> {
            &&& headers.etag matches Some(etag) && source.etag == etag@
            &&& headers.last_modified matches Some(secs) && source.last_modified
                == external::http_date(secs)
            &&& headers.content_range matches Some(header) && (azure::content_range_total(
                header@,
            ) matches Some(total) && source.size == total)
            &&& source.prefetch is None
        },
        azure::probed_source(headers) matches Err(e) ==> e is Protocol,
{
}

/// The size of a blob is the number that its `Content-Range` header ends with.
pub proof fn the_size_of_a_blob_ends_its_range(
    headers: ProbeHeaders,
    header: String,
    range: Seq<char>,
    total: u64,
)
    requires
        headers.etag is Some,
        headers.last_modified is Some,
        headers.content_range == Some(header),
        header@ == "bytes "@ + range + seq!['/'] + text::decimal(total as nat),
    ensures
        azure::probed_source(headers) matches Ok(source) && source.size == total,
{
    super::content_range_round_trip(range, total);
}

/// Opening a blob adds the bytes that the probe brought to what the headers said, and changes
/// nothing of that.
pub proof fn an_opened_blob_keeps_what_its_headers_said(source: SourceView, data: Seq<u8>)
    ensures
        azure::opened_blob(source, Ok(data)) matches Ok(opened) && {
            &&& opened.etag == source.etag
            &&& opened.last_modified == source.last_modified
            &&& opened.size == source.size
            &&& opened.prefetch == Some(data)
        },
{
}

/// What a blob lacks first decides the error, and an error says which it is.
pub proof fn what_a_blob_lacks_is_reported(headers: ProbeHeaders, others: ProbeHeaders)
    ensures
        headers.etag is None && others.etag is None ==> azure::probed_source(headers)
            == azure::probed_source(others),
        headers.etag is Some && others.etag is Some && headers.last_modified is None
            && others.last_modified is None ==> azure::probed_source(headers)
            == azure::probed_source(others),
        headers.etag is None && others.etag is Some ==> azure::probed_source(headers)
            != azure::probed_source(others),
        headers.etag is Some && headers.last_modified is None && others.last_modified is Some
            ==> azure::probed_source(headers) != azure::probed_source(others),
{
    reveal_strlit("blob response carried no ETag");
    reveal_strlit("blob response carried no Last-Modified");
    reveal_strlit("blob response carried no usable Content-Range");
    let a = "blob response carried no ETag"@;
    let b = "blob response carried no Last-Modified"@;
    let c = "blob response carried no usable Content-Range"@;
    assert(a.len() < b.len() && b.len() < c.len());
}

/// The total length is what stands behind the last slash, without the white space around it,
/// whatever range stands before; there is none in a header of another unit or without a slash.
pub proof fn the_total_stands_behind_the_last_slash(
    range: Seq<char>,
    total: Seq<char>,
    header: Seq<char>,
)
    requires
        !total.contains('/'),
    ensures
        azure::content_range_total("bytes "@ + range + seq!['/'] + total) == text::unsigned(
            text::trimmed(total),
        ),
        azure::content_range_total("bytes "@ + total) is None,
        !"bytes "@.is_prefix_of(header) ==> azure::content_range_total(header) is None,
{
    let rest = range + seq!['/'] + total;
    assert("bytes "@ + range + seq!['/'] + total =~= "bytes "@ + rest);
    texts::a_prefix_comes_off("bytes "@, rest, rest);
    texts::what_is_joined_is_cut_apart_at_the_last(range, '/', total);
    texts::a_prefix_comes_off("bytes "@, total, total);
    texts::a_cut_is_at_the_last(total, '/');
    if let Some((head, tail)) = text::cut_last(total, '/') {
        assert((head + seq!['/'] + tail)[head.len() as int] == '/');
        assert(total.contains('/'));
    }
}

/// A local archive is what `stat` says of it: its size, the date of its last change, and an ETag
/// made of both; it is opened exactly when it is a regular file that was changed since the epoch.
pub proof fn a_local_archive_is_what_stat_says(path: Seq<char>, metadata: FileMetadata)
    ensures
        local::local_source(path, Ok(metadata)) is Ok <==> metadata.is_file && (
        metadata.modified matches Ok(modified) && modified is SinceEpoch),
        local::local_source(path, Ok(metadata)) matches Ok(source) ==> (
        metadata.modified matches Ok(Modified::SinceEpoch(mtime)) && {
            &&& source.size == metadata.size
            &&& source.last_modified == external::http_date(mtime)
            &&& source.etag == local::local_etag(mtime, metadata.size)
            &&& source.prefetch is None
        }),
        local::local_source(path, Ok(metadata)) matches Err(e) ==> (e is Io <==> metadata.is_file
            && metadata.modified is Err),
{
}

/// What a local archive is does not depend on the path that it was opened by.
pub proof fn the_path_does_not_matter(path: Seq<char>, path2: Seq<char>, metadata: FileMetadata)
    requires
        metadata.is_file,
        metadata.modified is Ok,
    ensures
        local::local_source(path, Ok(metadata)) == local::local_source(path2, Ok(metadata)),
{
}

/// The ETag of a local archive is the time of its last change and its size, with a dash between
/// them and quotes around them.
pub proof fn a_local_etag_spells_out_the_time_and_the_size(mtime: u64, size: u64)
    ensures
        text::after_prefix(local::local_etag(mtime, size), "\""@) matches Some(rest) && (
        text::cut_first(rest, '-') matches Some((time, end)) && {
            &&& text::unsigned(time) == Some(mtime)
            &&& text::cut_last(end, '"') matches Some((number, nothing)) && text::unsigned(number)
                == Some(size) && nothing.len() == 0
        }),
{
    reveal_strlit("-");
    reveal_strlit("\"");
    let time = text::decimal(mtime as nat);
    let number = text::decimal(size as nat);
    let nothing = Seq::<char>::empty();
    let end = number + seq!['"'] + nothing;
    let rest = time + seq!['-'] + end;
    assert(local::local_etag(mtime, size) =~= "\""@ + rest);
    texts::a_prefix_comes_off("\""@, rest, rest);
    reads::lemma_no_mark_in_a_number(mtime as nat, '-');
    texts::what_is_joined_is_cut_apart(time, '-', end);
    texts::what_is_joined_is_cut_apart_at_the_last(number, '"', nothing);
    text::lemma_unsigned_decimal(mtime);
    text::lemma_unsigned_decimal(size);
}

/// A local archive keeps its ETag as long as neither its time of change nor its size differs, and
/// so the source that is handed back tells both.
pub proof fn a_local_source_tells_the_file(
    path: Seq<char>,
    metadata: FileMetadata,
    others: FileMetadata,
    a: SourceView,
    b: SourceView,
)
    requires
        local::local_source(path, Ok(metadata)) == Ok::<SourceView, ErrorView>(a),
        local::local_source(path, Ok(others)) == Ok::<SourceView, ErrorView>(b),
        a.etag == b.etag,
    ensures
        metadata.size == others.size,
        metadata.modified == others.modified,
        a.last_modified == b.last_modified,
{
    if let Ok(Modified::SinceEpoch(mtime)) = metadata.modified {
        if let Ok(Modified::SinceEpoch(mtime2)) = others.modified {
            super::local_etag_changes_with_the_archive(mtime, metadata.size, mtime2, others.size);
        }
    }
}

} // verus!
