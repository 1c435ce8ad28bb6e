//! Filesystem-backed archives: `stat` for the metadata, positional reads for ranges.

use bytes::Bytes;
use vstd::prelude::*;

use super::redact;
use super::ArchiveSource;
use super::SourceView;
use super::Storage;
use crate::error::Error;
use crate::error::ErrorView;
use crate::external;
use crate::external::fmt_http_date;
use crate::text;

verus! {

/// Format a time, in seconds after the Unix epoch, as an HTTP-date (RFC 9110 IMF-fixdate).
pub fn format_http_date(secs: u64) -> (r: String)
    requires
        secs < external::HTTP_DATE_END,
    ensures
        r@ == external::http_date(secs),
{
    fmt_http_date(secs)
}

/// When a file was last modified.
#[derive(Debug, Clone, Copy)]
pub enum Modified {
    /// This many whole seconds after the Unix epoch.
    SinceEpoch(u64),
    /// Before the Unix epoch.
    BeforeEpoch,
}

/// What `stat` says of a file.
pub struct FileMetadata {
    /// It is a regular file.
    pub is_file: bool,
    /// Its size in bytes.
    pub size: u64,
    /// When it was last modified, or why that cannot be told.
    pub modified: Result<Modified, String>,
}

/// The ETag of a local archive: its modification time and its size, in quotes.
pub open spec fn local_etag(mtime: u64, size: u64) -> Seq<char> {
    "\""@ + text::decimal(mtime as nat) + "-"@ + text::decimal(size as nat) + "\""@
}

/// What the archive at `path` is, given what `stat` said, or why it failed.
pub open spec fn local_source(path: Seq<char>, stat: Result<FileMetadata, String>) -> Result<
    SourceView,
    ErrorView,
> {
    match stat {
        Err(detail) => Err(
            ErrorView::Io("stat("@ + super::redacted(path) + ") failed: "@ + detail@),
        ),
        Ok(metadata) => if !metadata.is_file {
            Err(ErrorView::Protocol(super::redacted(path) + " is not a regular file"@))
        } else {
            match metadata.modified {
                Err(detail) => Err(
                    ErrorView::Io(super::redacted(path) + " has no mtime: "@ + detail@),
                ),
                Ok(Modified::BeforeEpoch) => Err(
                    ErrorView::Protocol("file mtime is before UNIX epoch"@),
                ),
                Ok(Modified::SinceEpoch(mtime)) => Ok(
                    SourceView {
                        etag: local_etag(mtime, metadata.size),
                        last_modified: external::http_date(mtime),
                        size: metadata.size as int,
                        prefetch: None,
                    },
                ),
            }
        },
    }
}

/// Synthesize the ETag of a local archive.
fn format_etag(mtime: u64, size: u64) -> (r: String)
    ensures
        r@ == local_etag(mtime, size),
{
    let mut etag = "\"".to_owned();
    text::push_decimal(&mut etag, mtime);
    etag.append("-");
    text::push_decimal(&mut etag, size);
    etag.append("\"");
    etag
}

/// Read what the archive at `path` is off its `stat`. ETag is synthesized from `mtime+size`
/// (matches a fresh value whenever the archive changes); Last-Modified is the file's mtime
/// formatted as an HTTP-date.
pub fn stat_local(path: &str, stat: Result<FileMetadata, String>) -> (r: Result<
    ArchiveSource,
    Error,
>)
    requires
        stat matches Ok(metadata) ==> metadata.is_file ==> (metadata.modified matches Ok(
            Modified::SinceEpoch(mtime),
        ) ==> mtime < external::HTTP_DATE_END),
    ensures
        match r {
            Ok(source) => local_source(path@, stat) == Ok::<SourceView, ErrorView>(source@),
            Err(e) => local_source(path@, stat) == Err::<SourceView, ErrorView>(e@),
        },
        r is Ok <==> (stat matches Ok(metadata) && metadata.is_file && (metadata.modified matches Ok(
            modified,
        ) && modified is SinceEpoch)),
        r matches Ok(source) ==> (stat matches Ok(metadata) && (metadata.modified matches Ok(
            Modified::SinceEpoch(mtime),
        ) && {
            &&& source.size == metadata.size
            &&& source.last_modified@ == external::http_date(mtime)
            &&& source.etag@ == local_etag(mtime, metadata.size)
            &&& source.prefetch is None
        })),
        r matches Err(e) ==> (e is Io <==> stat is Err || (stat->Ok_0.is_file
            && stat->Ok_0.modified is Err)),
        super::azure::is_plainly_not_http(path@) ==> super::redacted(path@) == path@,
{
    let shown = redact(path);
    let metadata = match stat {
        Ok(metadata) => metadata,
        Err(detail) => {
            let mut message = "stat(".to_owned();
            message.append(shown);
            message.append(") failed: ");
            message.append(detail.as_str());
            return Err(Error::Io(message));
        },
    };
    if !metadata.is_file {
        let mut message = shown.to_owned();
        message.append(" is not a regular file");
        return Err(Error::Protocol(message));
    }
    let size = metadata.size;
    match metadata.modified {
        Err(detail) => {
            let mut message = shown.to_owned();
            message.append(" has no mtime: ");
            message.append(detail.as_str());
            Err(Error::Io(message))
        },
        Ok(Modified::BeforeEpoch) => Err(
            Error::Protocol("file mtime is before UNIX epoch".to_owned()),
        ),
        Ok(Modified::SinceEpoch(mtime)) => Ok(
            ArchiveSource {
                etag: format_etag(mtime, size).into_boxed_str(),
                last_modified: format_http_date(mtime).into_boxed_str(),
                size,
                prefetch: None,
            },
        ),
    }
}

/// The error for an archive that is there and cannot be opened, for the reason `detail`.
pub open spec fn open_failed(path: Seq<char>, detail: Seq<char>) -> ErrorView {
    ErrorView::Io("open("@ + super::redacted(path) + ") failed: "@ + detail)
}

/// Open the archive from the local filesystem: `source` is what [`stat_local`] made of it, and
/// `file` the open file, or the text of the failure to open it.
pub fn open_local<S, A, L>(path: &str, source: ArchiveSource, file: Result<L, String>) -> (r: Result<
    (Storage<S, A, L>, ArchiveSource),
    Error,
>)
    ensures
        match file {
            Ok(file) => r matches Ok((storage, s)) && storage == (Storage::<S, A, L>::Local { file })
                && s == source,
            Err(detail) => r matches Err(e) && e@ == open_failed(path@, detail@),
        },
        super::azure::is_plainly_not_http(path@) ==> super::redacted(path@) == path@,
{
    let shown = redact(path);
    match file {
        Ok(file) => Ok((Storage::Local { file }, source)),
        Err(detail) => {
            let mut message = "open(".to_owned();
            message.append(shown);
            message.append(") failed: ");
            message.append(detail.as_str());
            Err(Error::Io(message))
        },
    }
}

/// The error for a positional read that failed, for the reason `detail`.
pub open spec fn read_failed(offset: u64, length: u64, detail: Seq<char>) -> ErrorView {
    ErrorView::Io(
        "local read_at(offset="@ + text::decimal(offset as nat) + ", len="@ + text::decimal(
            length as nat,
        ) + ") failed: "@ + detail,
    )
}

/// What a positional read of `length` bytes at `offset` comes to: `reply` is what was read, or
/// why reading failed, or why the task that read came to grief.
pub fn read_local_range(
    offset: u64,
    length: u64,
    reply: Result<Result<Bytes, String>, String>,
) -> (r: Result<Bytes, Error>)
    ensures
        match reply {
            Ok(Ok(data)) => r == Ok::<Bytes, Error>(data),
            Ok(Err(detail)) => r matches Err(e) && e@ == read_failed(offset, length, detail@),
            Err(detail) => r matches Err(e) && e@ == ErrorView::Io(
                "local read task panicked: "@ + detail@,
            ),
        },
{
    match reply {
        Ok(Ok(data)) => Ok(data),
        Ok(Err(detail)) => {
            let mut message = "local read_at(offset=".to_owned();
            text::push_decimal(&mut message, offset);
            message.append(", len=");
            text::push_decimal(&mut message, length);
            message.append(") failed: ");
            message.append(detail.as_str());
            Err(Error::Io(message))
        },
        Err(detail) => {
            let mut message = "local read task panicked: ".to_owned();
            message.append(detail.as_str());
            Err(Error::Io(message))
        },
    }
}

} // verus!
