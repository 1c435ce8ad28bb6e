//! What holds of errors: they say what was asked for and why it failed.

use vstd::prelude::*;

use super::reads;
use super::texts;
use crate::error::ErrorView;
use crate::external::UrlView;
use crate::storage;
use crate::storage::azure;
use crate::storage::azure::CredentialView;
use crate::storage::azure::EnvView;
use crate::storage::local;
use crate::storage::local::FileMetadata;
use crate::storage::s3;
use crate::storage::s3::HeadObject;
use crate::storage::CredentialKind;
use crate::storage::SourceView;
use crate::storage::Storage;
use crate::text;

verus! {

/// `text` begins with `before` and ends with `after`, and there is nothing more to it.
pub open spec fn is_made_of(text: Seq<char>, before: Seq<char>, after: Seq<char>) -> bool {
    &&& before.is_prefix_of(text)
    &&& after.is_suffix_of(text)
    &&& text.len() == before.len() + after.len()
}

/// A text that is two texts joined is made of them.
proof fn lemma_made_of(text: Seq<char>, before: Seq<char>, after: Seq<char>)
    requires
        text == before + after,
    ensures
        is_made_of(text, before, after),
{
    assert(text.subrange(0, before.len() as int) =~= before);
    assert(text.subrange(before.len() as int, text.len() as int) =~= after);
}

/// In `text`, behind `before` and up to the next `mark`, stands the number `n`, and behind the mark
/// stands `rest`.
pub open spec fn says(
    text: Seq<char>,
    before: Seq<char>,
    n: u64,
    mark: char,
    rest: Seq<char>,
) -> bool {
    text::after_prefix(text, before) matches Some(tail) && (text::cut_first(
        tail,
        mark,
    ) matches Some((digits, end)) && text::unsigned(digits) == Some(n) && end == rest)
}

/// A number that is written between a text and a mark is said there.
proof fn lemma_says(before: Seq<char>, n: u64, mark: char, rest: Seq<char>)
    requires
        !text::is_digit(mark),
    ensures
        says(before + text::decimal(n as nat) + seq![mark] + rest, before, n, mark, rest),
{
    let digits = text::decimal(n as nat);
    let tail = digits + seq![mark] + rest;
    assert(before + digits + seq![mark] + rest =~= before + tail);
    texts::a_prefix_comes_off(before, tail, tail);
    reads::lemma_no_mark_in_a_number(n as nat, mark);
    texts::what_is_joined_is_cut_apart(digits, mark, rest);
    text::lemma_unsigned_decimal(n);
}

/// The error for a reply of the wrong length says at which offset the read was, how many bytes it
/// asked for, and how many came.
pub proof fn a_short_read_says_what_was_asked_for(offset: u64, length: u64, got: u64)
    ensures
        storage::short_read(offset, length, got as nat) matches ErrorView::Io(text) && exists|
            rest: Seq<char>,
            last: Seq<char>,
        |
            {
                &&& #[trigger] says(text, "short read at offset="@, offset, ':', rest)
                &&& #[trigger] says(rest, " asked for "@, length, ' ', last)
                &&& text::after_prefix(last, "bytes, got "@) matches Some(digits)
                    && text::unsigned(digits) == Some(got)
            },
{
    reveal_strlit(": asked for ");
    reveal_strlit(" asked for ");
    reveal_strlit(" bytes, got ");
    reveal_strlit("bytes, got ");
    let digits = text::decimal(got as nat);
    let last = "bytes, got "@ + digits;
    let rest = " asked for "@ + text::decimal(length as nat) + seq![' '] + last;
    let text = "short read at offset="@ + text::decimal(offset as nat) + seq![':'] + rest;
    assert(storage::short_read(offset, length, got as nat).text() =~= text);
    lemma_says("short read at offset="@, offset, ':', rest);
    lemma_says(" asked for "@, length, ' ', last);
    texts::a_prefix_comes_off("bytes, got "@, digits, digits);
    text::lemma_unsigned_decimal(got);
}

/// The error for a download that was refused says which range was asked for and why it was refused.
pub proof fn a_refused_download_says_which(offset: u64, length: u64, detail: Seq<char>)
    ensures
        azure::download_failed(offset, length, detail) matches ErrorView::Io(text) && exists|
            rest: Seq<char>,
            last: Seq<char>,
        |
            {
                &&& #[trigger] says(text, "blob download(offset="@, offset, ',', rest)
                &&& #[trigger] says(rest, " len="@, length, ')', last)
                &&& is_made_of(
                    last,
                    ": "@ + detail,
                    " (a 412 here means the archive was replaced while rati was running; restart it)"@,
                )
            },
{
    reveal_strlit(", len=");
    reveal_strlit(" len=");
    reveal_strlit("): ");
    reveal_strlit(": ");
    let hint =
        " (a 412 here means the archive was replaced while rati was running; restart it)"@;
    let last = ": "@ + detail + hint;
    let rest = " len="@ + text::decimal(length as nat) + seq![')'] + last;
    let text = "blob download(offset="@ + text::decimal(offset as nat) + seq![','] + rest;
    assert(azure::download_failed(offset, length, detail).text() =~= text);
    lemma_says("blob download(offset="@, offset, ',', rest);
    lemma_says(" len="@, length, ')', last);
    lemma_made_of(last, ": "@ + detail, hint);
}

/// The error for a positional read that failed says which range was read and why it failed.
pub proof fn a_failed_local_read_says_which(offset: u64, length: u64, detail: Seq<char>)
    ensures
        local::read_failed(offset, length, detail) matches ErrorView::Io(text) && exists|
            rest: Seq<char>,
            last: Seq<char>,
        |
            {
                &&& #[trigger] says(text, "local read_at(offset="@, offset, ',', rest)
                &&& #[trigger] says(rest, " len="@, length, ')', last)
                &&& is_made_of(last, " failed: "@, detail)
            },
{
    reveal_strlit(", len=");
    reveal_strlit(" len=");
    reveal_strlit(") failed: ");
    reveal_strlit(" failed: ");
    let last = " failed: "@ + detail;
    let rest = " len="@ + text::decimal(length as nat) + seq![')'] + last;
    let text = "local read_at(offset="@ + text::decimal(offset as nat) + seq![','] + rest;
    assert(local::read_failed(offset, length, detail).text() =~= text);
    lemma_says("local read_at(offset="@, offset, ',', rest);
    lemma_says(" len="@, length, ')', last);
    lemma_made_of(last, " failed: "@, detail);
}

/// Every failure of a backend to read is an I/O error that gives the reason as the backend gave it,
/// and only where the range itself was refused is the range named too.
pub proof fn a_failed_read_gives_the_reason<S, A, L>(
    storage: Storage<S, A, L>,
    offset: u64,
    length: u64,
    detail: Seq<char>,
)
    ensures
        storage.read_error(offset, length, Ok(detail)) matches ErrorView::Io(text) && match storage {
            Storage::S3 { .. } => is_made_of(text, "reading S3 response body: "@, detail),
            Storage::AzureBlob { .. } => is_made_of(text, "reading blob response body: "@, detail),
            Storage::Local { .. } => ErrorView::Io(text) == local::read_failed(
                offset,
                length,
                detail,
            ),
        },
        storage.read_error(offset, length, Err(detail)) matches ErrorView::Io(text) && match storage {
            Storage::S3 { .. } => is_made_of(
                text,
                "S3 GetObject failed: "@ + detail,
                " (a 412 here means the archive was replaced while rati was running; restart it)"@,
            ),
            Storage::AzureBlob { .. } => ErrorView::Io(text) == azure::download_failed(
                offset,
                length,
                detail,
            ),
            Storage::Local { .. } => is_made_of(text, "local read task panicked: "@, detail),
        },
{
    let hint =
        " (a 412 here means the archive was replaced while rati was running; restart it)"@;
    lemma_made_of("reading S3 response body: "@ + detail, "reading S3 response body: "@, detail);
    lemma_made_of("reading blob response body: "@ + detail, "reading blob response body: "@, detail);
    lemma_made_of("local read task panicked: "@ + detail, "local read task panicked: "@, detail);
    lemma_made_of(
        "S3 GetObject failed: "@ + detail + hint,
        "S3 GetObject failed: "@ + detail,
        hint,
    );
}

/// An object whose metadata cannot be had is an I/O error that gives the reason.
pub proof fn a_failed_head_gives_the_reason(head: Result<HeadObject, String>, detail: String)
    requires
        head == Err::<HeadObject, String>(detail),
    ensures
        s3::opened(head) matches Err(ErrorView::Io(text)) && is_made_of(
            text,
            "HeadObject failed: "@,
            detail@,
        ),
{
    lemma_made_of("HeadObject failed: "@ + detail@, "HeadObject failed: "@, detail@);
}

/// The error for a file that cannot be looked at, or opened, or dated, shows its path and gives
/// the reason; the one for what is no regular file shows its path.
pub proof fn a_local_error_shows_the_path(
    path: Seq<char>,
    metadata: FileMetadata,
    detail: String,
)
    ensures
        local::local_source(path, Err(detail)) matches Err(ErrorView::Io(text)) && is_made_of(
            text,
            "stat("@ + storage::redacted(path),
            ") failed: "@ + detail@,
        ),
        local::open_failed(path, detail@) matches ErrorView::Io(text) && is_made_of(
            text,
            "open("@ + storage::redacted(path),
            ") failed: "@ + detail@,
        ),
        !metadata.is_file ==> (local::local_source(path, Ok(metadata)) matches Err(
            ErrorView::Protocol(text),
        ) && is_made_of(text, storage::redacted(path), " is not a regular file"@)),
        metadata.is_file && metadata.modified == Err::<local::Modified, String>(detail) ==> (
        local::local_source(path, Ok(metadata)) matches Err(ErrorView::Io(text)) && is_made_of(
            text,
            storage::redacted(path) + " has no mtime: "@,
            detail@,
        )),
{
    let shown = storage::redacted(path);
    let end = ") failed: "@ + detail@;
    assert("stat("@ + shown + ") failed: "@ + detail@ =~= "stat("@ + shown + end);
    lemma_made_of("stat("@ + shown + end, "stat("@ + shown, end);
    assert("open("@ + shown + ") failed: "@ + detail@ =~= "open("@ + shown + end);
    lemma_made_of("open("@ + shown + end, "open("@ + shown, end);
    lemma_made_of(shown + " is not a regular file"@, shown, " is not a regular file"@);
    lemma_made_of(
        shown + " has no mtime: "@ + detail@,
        shown + " has no mtime: "@,
        detail@,
    );
}

/// The error for a probe that failed shows the URL, names the credential that was tried, and gives
/// the reason.
pub proof fn a_failed_probe_says_what_was_tried(
    url: Seq<char>,
    kind: CredentialKind,
    detail: Seq<char>,
)
    ensures
        azure::probe_error(url, kind, detail) matches ErrorView::Io(text) && is_made_of(
            text,
            "reading "@ + storage::redacted(url) + " failed using the "@ + azure::kind_name(kind),
            " credential: "@ + detail
                + " (check it has Storage Blob Data Reader on the container — account-level Owner or Contributor does not grant blob read)"@,
        ),
{
    let before = "reading "@ + storage::redacted(url) + " failed using the "@ + azure::kind_name(
        kind,
    );
    let hint =
        " (check it has Storage Blob Data Reader on the container — account-level Owner or Contributor does not grant blob read)"@;
    let after = " credential: "@ + detail + hint;
    assert(azure::probe_error(url, kind, detail).text() =~= before + after);
    lemma_made_of(before + after, before, after);
}

/// The error for a URL that does not parse shows it without its query and gives the reason of the
/// parser.
pub proof fn an_invalid_url_is_refused_with_the_reason(
    url: Seq<char>,
    detail: Seq<char>,
    env: EnvView,
    id: Option<Seq<char>>,
    override_kind: Option<CredentialKind>,
)
    ensures
        ({
            let parsed = Err::<UrlView, Seq<char>>(detail);
            azure::probe_for(url, parsed, env, id, override_kind) matches Err(
                ErrorView::Protocol(text),
            ) && is_made_of(
                text,
                "invalid blob URL "@ + storage::shown(url, parsed),
                ": "@ + detail,
            )
        }),
{
    let parsed = Err::<UrlView, Seq<char>>(detail);
    let before = "invalid blob URL "@ + storage::shown(url, parsed);
    let after = ": "@ + detail;
    assert(before + ": "@ + detail =~= before + after);
    lemma_made_of(before + after, before, after);
}

/// The error for a credential that lacks a variable names both.
pub proof fn a_missing_variable_is_named(name: Seq<char>, kind: CredentialKind)
    ensures
        azure::missing_variable(name, kind) matches ErrorView::Protocol(text) && is_made_of(
            text,
            azure::kind_name(kind) + " credential needs "@,
            name + " to be set"@,
        ),
{
    let before = azure::kind_name(kind) + " credential needs "@;
    let after = name + " to be set"@;
    assert(azure::missing_variable(name, kind).text() =~= before + after);
    lemma_made_of(before + after, before, after);
}

/// The errors for a credential that cannot be set up and for a client that cannot be made give the
/// reason, and the first says which credential it is about.
pub proof fn a_failed_setup_gives_the_reason(credential: CredentialView, detail: Seq<char>)
    ensures
        azure::credential_error(credential, detail) matches ErrorView::Io(text) && is_made_of(
            text,
            azure::credential_label(credential) + " credential: "@,
            detail,
        ),
        azure::client_error(detail) matches ErrorView::Io(text) && is_made_of(
            text,
            "creating blob client: "@,
            detail,
        ),
{
    let before = azure::credential_label(credential) + " credential: "@;
    lemma_made_of(before + detail, before, detail);
    lemma_made_of("creating blob client: "@ + detail, "creating blob client: "@, detail);
}

/// A probe whose body cannot be read is an I/O error that gives the reason.
pub proof fn a_failed_probe_body_gives_the_reason(source: SourceView, detail: Seq<char>)
    ensures
        azure::opened_blob(source, Err(detail)) matches Err(ErrorView::Io(text)) && is_made_of(
            text,
            "reading blob probe body: "@,
            detail,
        ),
{
    lemma_made_of("reading blob probe body: "@ + detail, "reading blob probe body: "@, detail);
}

/// What an operator reads of an error is its text, of whichever kind it is.
pub proof fn an_error_reads_as_its_text(text: Seq<char>)
    ensures
        ErrorView::Io(text).text() == text,
        ErrorView::Protocol(text).text() == text,
{
}

} // verus!
