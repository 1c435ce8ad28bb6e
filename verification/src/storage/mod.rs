//! Storage backends for a tar archive: S3, Azure Blob, or a local file.

use bytes::Bytes;
use vstd::prelude::*;

use crate::error::Error;
use crate::error::ErrorView;
use crate::external;
use crate::external::parse_url;
use crate::external::UrlParts;
use crate::external::UrlView;
use crate::text;
use azure::BlobRead;
use s3::RangedRead;

pub mod azure;
pub mod local;
pub mod s3;

pub use azure::CredentialKind;

verus! {

/// `source` starts with `http://` or `https://`, in lower case.
pub open spec fn has_http_prefix(source: Seq<char>) -> bool {
    "http://"@.is_prefix_of(source) || "https://"@.is_prefix_of(source)
}

/// `source` starts with `http://` or `https://`, in any case.
pub open spec fn is_written_as_http(source: Seq<char>) -> bool {
    has_http_prefix(text::ascii_lowercase(source))
}

/// `source`, which the URL parser made `parsed` of, is a URL over HTTP or HTTPS: it is written as
/// one, or the parser takes it for one.
pub open spec fn is_http_url(source: Seq<char>, parsed: Result<UrlView, Seq<char>>) -> bool {
    ||| is_written_as_http(source)
    ||| parsed matches Ok(url) && (url.scheme == "http"@ || url.scheme == "https"@)
}

/// `source`, which the URL parser made `parsed` of, as it may be shown: a URL loses its first `?`
/// and everything behind it, anything else stays as it is.
pub open spec fn shown(source: Seq<char>, parsed: Result<UrlView, Seq<char>>) -> Seq<char> {
    if is_http_url(source, parsed) {
        source.take(text::first_at(source, '?') as int)
    } else {
        source
    }
}

/// `source` as it may be shown.
pub open spec fn redacted(source: Seq<char>) -> Seq<char> {
    shown(source, external::parsed_url(source))
}

/// What is shown of a URL holds no question mark, so it carries no SAS.
pub proof fn lemma_shown_without_query(source: Seq<char>, parsed: Result<UrlView, Seq<char>>)
    requires
        is_http_url(source, parsed),
    ensures
        !shown(source, parsed).contains('?'),
        !azure::carries_sas(shown(source, parsed)),
{
    let head = shown(source, parsed);
    text::lemma_first_at_splits(source, '?');
    assert forall|j: int| 0 <= j < head.len() implies head[j] != '?' by {
        assert(head[j] == source[j]);
    }
    text::lemma_first_at(head, '?', head.len() as int);
}

/// What is shown of a location is the start of it, and where something is cut off, that begins with
/// the first question mark.
pub proof fn lemma_shown_ends_at_the_query(source: Seq<char>, parsed: Result<UrlView, Seq<char>>)
    ensures
        shown(source, parsed).is_prefix_of(source),
        shown(source, parsed).len() < source.len() ==> source[shown(source, parsed).len() as int]
            == '?' && !shown(source, parsed).contains('?'),
{
    let head = shown(source, parsed);
    text::lemma_first_at_splits(source, '?');
    if head.len() < source.len() {
        lemma_shown_without_query(source, parsed);
    }
}

/// What starts with the prefix in lower case is written as HTTP.
proof fn lemma_prefix_is_written_as_http(source: Seq<char>)
    requires
        has_http_prefix(source),
    ensures
        is_written_as_http(source),
{
    reveal_strlit("http://");
    reveal_strlit("https://");
    let lower = text::ascii_lowercase(source);
    if "http://"@.is_prefix_of(source) {
        assert forall|j: int| 0 <= j < 7 implies lower[j] == "http://"@[j] by {
            assert(source.subrange(0, 7)[j] == source[j]);
        }
        assert(lower.subrange(0, 7) =~= "http://"@);
    } else {
        assert forall|j: int| 0 <= j < 8 implies lower[j] == "https://"@[j] by {
            assert(source.subrange(0, 8)[j] == source[j]);
        }
        assert(lower.subrange(0, 8) =~= "https://"@);
    }
}

/// A text that plainly is no HTTP URL is not written as one.
pub proof fn lemma_plainly_not_http(source: Seq<char>)
    requires
        azure::is_plainly_not_http(source),
    ensures
        !is_written_as_http(source),
        !has_http_prefix(source),
{
    reveal_strlit("http://");
    reveal_strlit("https://");
    reveal_strlit("http");
    reveal_strlit("https");
    let lower = text::ascii_lowercase(source);
    if has_http_prefix(source) {
        lemma_prefix_is_written_as_http(source);
    }
    if is_written_as_http(source) {
        let secure = "https://"@.is_prefix_of(lower);
        let n: int = if secure {
            5
        } else {
            4
        };
        let name = if secure {
            "https"@
        } else {
            "http"@
        };
        assert forall|j: int| 0 <= j < n implies text::ascii_lower(source[j]) == name[j] by {
            assert(lower.subrange(0, n + 3)[j] == lower[j]);
        }
        assert(lower.subrange(0, n + 3)[n] == lower[n]);
        assert(text::ascii_lower(source[n]) == ':');
        assert(source[n] == ':');
        assert(source.contains(':'));
        assert(name[0] == 'h');
        assert(text::ascii_lower(source[0]) == 'h');
        assert(external::is_letter(source[0]));
        let scheme = choose|scheme: Seq<char>|
            external::is_plain_scheme(scheme) && #[trigger] (scheme + seq![':']).is_prefix_of(
                source,
            ) && scheme != "http"@ && scheme != "https"@;
        let m = scheme.len() as int;
        assert forall|j: int| 0 <= j < m implies source[j] == scheme[j] by {
            assert(source.subrange(0, m + 1)[j] == (scheme + seq![':'])[j]);
        }
        assert(source[m] == ':') by {
            assert(source.subrange(0, m + 1)[m] == (scheme + seq![':'])[m]);
        }
        if m < n {
            assert(text::ascii_lower(source[m]) == name[m]);
            assert(false);
        } else if m > n {
            assert(scheme[n] == ':');
            assert(false);
        } else {
            assert(scheme =~= name);
        }
    }
}

/// Strip the query string from a location that the URL parser made `parsed` of; see [`redact`].
pub fn redact_parsed<'a>(source: &'a str, parsed: &Result<UrlParts, String>) -> (r: &'a str)
    ensures
        r@ == shown(source@, azure::location_view(*parsed)),
        r@.is_prefix_of(source@),
        r@.len() < source@.len() ==> source@[r@.len() as int] == '?' && !r@.contains('?'),
{
    proof {
        lemma_shown_ends_at_the_query(source@, azure::location_view(*parsed));
    }
    let is_url = text::starts_with_in_any_case(source, "http://")
        || text::starts_with_in_any_case(source, "https://") || match parsed {
        Ok(url) => text::same(url.scheme.as_str(), "http") || text::same(
            url.scheme.as_str(),
            "https",
        ),
        Err(_) => false,
    };
    if !is_url {
        return source;
    }
    match text::split_once(source, '?') {
        Some((head, _)) => head,
        None => {
            proof {
                text::lemma_first_at_splits(source@, '?');
                assert(source@.take(source@.len() as int) =~= source@);
            }
            source
        },
    }
}

/// Strip the query string from an archive location before it is logged or put in an error.
///
/// An Azure Blob URL may carry a shared access signature there, `?...&sig=...`, which is a
/// bearer credential. Anything that prints the archive location must go through this, or the
/// token lands in stdout and every log aggregator downstream.
///
/// Only URLs are truncated: what is written as one, in any case, and what the URL parser takes for
/// one, so that no URL that a backend accepts is shown with its query. A filesystem path may
/// legitimately contain a `?`, and reporting `/data/tiles` for `/data/tiles?v2.tar` names a file
/// the operator never gave.
pub fn redact(source: &str) -> (r: &str)
    ensures
        r@ == redacted(source@),
        has_http_prefix(source@) ==> r@ == source@.take(text::first_at(source@, '?') as int),
        azure::is_plainly_not_http(source@) ==> r@ == source@,
        r@.is_prefix_of(source@),
        r@.len() < source@.len() ==> source@[r@.len() as int] == '?' && !r@.contains('?'),
        azure::is_azure_location(external::parsed_url(source@)) ==> !r@.contains('?')
            && !azure::carries_sas(r@),
{
    let parsed = parse_url(source);
    proof {
        lemma_shown_ends_at_the_query(source@, external::parsed_url(source@));
        if has_http_prefix(source@) {
            lemma_prefix_is_written_as_http(source@);
        }
        if azure::is_plainly_not_http(source@) {
            lemma_plainly_not_http(source@);
        }
        if azure::is_azure_location(external::parsed_url(source@)) {
            lemma_shown_without_query(source@, external::parsed_url(source@));
        }
    }
    redact_parsed(source, &parsed)
}

/// Source metadata read once when the archive is opened.
pub struct ArchiveSource {
    /// Source ETag: the object or blob ETag, or synthesized `"<mtime>-<size>"` for local
    /// archives.
    pub etag: Box<str>,
    /// Source Last-Modified as an HTTP-date string.
    pub last_modified: Box<str>,
    /// Total size of the archive in bytes.
    pub size: u64,
    /// Leading bytes the backend already read while fetching metadata, if any.
    pub prefetch: Option<Bytes>,
}

/// [`ArchiveSource`] as a value.
pub struct SourceView {
    pub etag: Seq<char>,
    pub last_modified: Seq<char>,
    pub size: int,
    pub prefetch: Option<Seq<u8>>,
}

impl View for ArchiveSource {
    type V = SourceView;

    open spec fn view(&self) -> SourceView {
        SourceView {
            etag: self.etag@,
            last_modified: self.last_modified@,
            size: self.size as int,
            prefetch: match self.prefetch {
                Some(bytes) => Some(external::bytes_contents(bytes)),
                None => None,
            },
        }
    }
}

/// An open archive. `S` is the client for S3, `A` the client for the blob, `L` the open file.
#[allow(inconsistent_fields)]
pub enum Storage<S, A, L> {
    S3 {
        client: S,
        bucket: Box<str>,
        key: Box<str>,
        /// ETag the index was built against; every read is pinned to it.
        etag: Box<str>,
    },
    AzureBlob {
        client: A,
        /// ETag the index was built against; every read is pinned to it.
        etag: Box<str>,
    },
    Local { file: L },
}

/// Azure-specific knobs, threaded through from the command line. Inert for the other backends.
#[derive(Debug, Clone, Copy)]
pub struct AzureOptions<'a> {
    /// Client id of a user-assigned managed identity.
    pub user_assigned: Option<&'a str>,
    /// Force a credential instead of detecting one from the environment.
    pub credential: Option<CredentialKind>,
}

impl<'a> Default for AzureOptions<'a> {
    fn default() -> (r: AzureOptions<'a>)
        ensures
            r.user_assigned is None,
            r.credential is None,
    {
        AzureOptions { user_assigned: None, credential: None }
    }
}

/// The backends that are built in.
#[derive(Debug, Clone, Copy)]
pub struct Features {
    pub s3: bool,
    pub azure: bool,
}

impl Default for Features {
    fn default() -> (r: Features)
        ensures
            r.s3 && r.azure,
    {
        Features { s3: true, azure: true }
    }
}

/// The backend that serves an archive location.
pub enum Backend<'a> {
    /// The blob at this URL.
    Azure { url: &'a str, options: AzureOptions<'a> },
    /// This object.
    S3 { bucket: &'a str, key: &'a str },
    /// The file at this path.
    Local { path: &'a str },
}

/// A [`Backend`] as a value.
pub enum BackendView {
    Azure { url: Seq<char>, user_assigned: Option<Seq<char>>, credential: Option<CredentialKind> },
    S3 { bucket: Seq<char>, key: Seq<char> },
    Local { path: Seq<char> },
}

impl<'a> View for Backend<'a> {
    type V = BackendView;

    open spec fn view(&self) -> BackendView {
        match self {
            Backend::Azure { url, options } => BackendView::Azure {
                url: url@,
                user_assigned: text::text_of_ref(options.user_assigned),
                credential: options.credential,
            },
            Backend::S3 { bucket, key } => BackendView::S3 { bucket: bucket@, key: key@ },
            Backend::Local { path } => BackendView::Local { path: path@ },
        }
    }
}

/// The backend for `source`, where `is_azure` says whether it is an Azure Blob URL: Azure Blob,
/// then S3, then a local path, with an error where the backend that the location asks for is
/// not built in.
pub open spec fn backend_for(
    source: Seq<char>,
    is_azure: bool,
    options: AzureOptions,
    features: Features,
) -> Result<BackendView, ErrorView> {
    if features.azure && is_azure {
        Ok(
            BackendView::Azure {
                url: source,
                user_assigned: text::text_of_ref(options.user_assigned),
                credential: options.credential,
            },
        )
    } else if !features.azure && has_http_prefix(source) {
        Err(ErrorView::Protocol("HTTP(S) archives require the 'azure' cargo feature"@))
    } else if features.s3 && s3::bucket_and_key(source) is Some {
        let (bucket, key) = s3::bucket_and_key(source)->0;
        Ok(BackendView::S3 { bucket, key })
    } else if !features.s3 && "s3://"@.is_prefix_of(source) {
        Err(ErrorView::Protocol("S3 archives require the 's3' cargo feature"@))
    } else {
        Ok(BackendView::Local { path: source })
    }
}

/// Pick the backend for `source`, where `is_azure` says whether it is an Azure Blob URL.
pub fn route<'a>(
    source: &'a str,
    is_azure: bool,
    options: AzureOptions<'a>,
    features: Features,
) -> (r: Result<Backend<'a>, Error>)
    ensures
        match r {
            Ok(backend) => backend_for(source@, is_azure, options, features) == Ok::<
                BackendView,
                ErrorView,
            >(backend@),
            Err(e) => backend_for(source@, is_azure, options, features) == Err::<
                BackendView,
                ErrorView,
            >(e@),
        },
        features.azure && is_azure ==> (r matches Ok(Backend::Azure { url, options: given })
            && url@ == source@ && given == options),
        r matches Ok(Backend::Azure { .. }) ==> features.azure && is_azure,
        r matches Ok(Backend::S3 { bucket, key }) ==> features.s3 && source@ == "s3://"@ + bucket@
            + seq!['/'] + key@ && !bucket@.contains('/'),
        r matches Ok(Backend::Local { path }) ==> path@ == source@,
        r matches Err(e) ==> e is Protocol && !(features.azure && features.s3),
{
    proof {
        if s3::bucket_and_key(source@) is Some {
            let (bucket, key) = s3::bucket_and_key(source@)->0;
            s3::lemma_parts_make_the_url(source@, bucket, key);
        }
    }
    if features.azure {
        if is_azure {
            return Ok(Backend::Azure { url: source, options });
        }
    } else if text::starts_with(source, "https://") || text::starts_with(source, "http://") {
        return Err(
            Error::Protocol("HTTP(S) archives require the 'azure' cargo feature".to_owned()),
        );
    }
    if features.s3 {
        if let Some((bucket, key)) = s3::parse_s3_url(source) {
            return Ok(Backend::S3 { bucket, key });
        }
    } else if text::starts_with(source, "s3://") {
        return Err(Error::Protocol("S3 archives require the 's3' cargo feature".to_owned()));
    }
    Ok(Backend::Local { path: source })
}

/// What a range read does next.
#[allow(inconsistent_fields)]
pub enum ReadStep<'a, S, A, L> {
    /// It is over: no backend has to be asked.
    Done(Bytes),
    /// Send this request with this client.
    S3 { client: &'a S, request: RangedRead },
    /// Send this request with this client.
    AzureBlob { client: &'a A, request: BlobRead },
    /// Read exactly `length` bytes at `offset` from this file.
    Local { file: &'a L, offset: u64, length: u64 },
}

/// A [`ReadStep`] as a value.
#[allow(inconsistent_fields)]
pub enum StepView<S, A, L> {
    Done(Seq<u8>),
    S3 { client: S, bucket: Seq<char>, key: Seq<char>, range: Seq<char>, if_match: Seq<char> },
    AzureBlob { client: A, offset: int, length: int, if_match: Seq<char> },
    Local { file: L, offset: int, length: int },
}

impl<'a, S, A, L> View for ReadStep<'a, S, A, L> {
    type V = StepView<S, A, L>;

    open spec fn view(&self) -> StepView<S, A, L> {
        match self {
            ReadStep::Done(data) => StepView::Done(external::bytes_contents(*data)),
            ReadStep::S3 { client, request } => StepView::S3 {
                client: **client,
                bucket: request.bucket@,
                key: request.key@,
                range: request.range@,
                if_match: request.if_match@,
            },
            ReadStep::AzureBlob { client, request } => StepView::AzureBlob {
                client: **client,
                offset: request.offset as int,
                length: request.length as int,
                if_match: request.if_match@,
            },
            ReadStep::Local { file, offset, length } => StepView::Local {
                file: **file,
                offset: *offset as int,
                length: *length as int,
            },
        }
    }
}

impl<S, A, L> StepView<S, A, L> {
    /// The ETag that the request insists on, where it insists on one.
    pub open spec fn if_match(self) -> Option<Seq<char>> {
        match self {
            StepView::S3 { if_match, .. } => Some(if_match),
            StepView::AzureBlob { if_match, .. } => Some(if_match),
            _ => None,
        }
    }

    /// The range of the archive that the request names, where there is a request: the offset of
    /// its first byte and its length.
    pub open spec fn range(self) -> Option<(int, int)> {
        match self {
            StepView::Done(_) => None,
            StepView::S3 { range, .. } => s3::named_range(range),
            StepView::AzureBlob { offset, length, .. } => Some((offset, length)),
            StepView::Local { offset, length, .. } => Some((offset, length)),
        }
    }
}

/// The error for a read that came back with `got` bytes.
pub open spec fn short_read(offset: u64, length: u64, got: nat) -> ErrorView {
    ErrorView::Io(
        "short read at offset="@ + text::decimal(offset as nat) + ": asked for "@ + text::decimal(
            length as nat,
        ) + " bytes, got "@ + text::decimal(got),
    )
}

/// What a backend replied to a read: the data, or why the answer could not be read, or why there
/// was none.
pub enum ReplyView {
    Data(Seq<u8>),
    Unreadable(Seq<char>),
    Failed(Seq<char>),
}

/// A reply as a value.
pub open spec fn reply_view(reply: Result<Result<Bytes, String>, String>) -> ReplyView {
    match reply {
        Ok(Ok(data)) => ReplyView::Data(external::bytes_contents(data)),
        Ok(Err(detail)) => ReplyView::Unreadable(detail@),
        Err(detail) => ReplyView::Failed(detail@),
    }
}

impl<S, A, L> Storage<S, A, L> {
    /// Pick the backend to open `source` with: an S3 URL (`s3://bucket/key`), an Azure Blob HTTPS
    /// URL, or a local filesystem path. Anything else is treated as a local path.
    pub fn open<'a>(source: &'a str, options: AzureOptions<'a>, features: Features) -> (r: Result<
        Backend<'a>,
        Error,
    >)
        ensures
            match r {
                Ok(backend) => backend_for(
                    source@,
                    azure::is_azure_location(external::parsed_url(source@)),
                    options,
                    features,
                ) == Ok::<BackendView, ErrorView>(backend@),
                Err(e) => backend_for(
                    source@,
                    azure::is_azure_location(external::parsed_url(source@)),
                    options,
                    features,
                ) == Err::<BackendView, ErrorView>(e@),
            },
            azure::is_plainly_not_http(source@) ==> match r {
                Ok(backend) => backend_for(source@, false, options, features) == Ok::<
                    BackendView,
                    ErrorView,
                >(backend@),
                Err(e) => backend_for(source@, false, options, features) == Err::<
                    BackendView,
                    ErrorView,
                >(e@),
            },
            features.s3 ==> (s3::bucket_and_key(source@) matches Some((bucket, key)) ==> r matches Ok(
                backend,
            ) && backend@ == (BackendView::S3 { bucket, key })),
            features.azure && azure::is_azure_location(external::parsed_url(source@)) ==> (
            r matches Ok(Backend::Azure { url, options: given }) && url@ == source@ && given
                == options),
            r matches Ok(Backend::Azure { .. }) ==> features.azure && azure::is_azure_location(
                external::parsed_url(source@),
            ),
            r matches Ok(Backend::S3 { bucket, key }) ==> features.s3 && source@ == "s3://"@
                + bucket@ + seq!['/'] + key@ && !bucket@.contains('/'),
            r matches Ok(Backend::Local { path }) ==> path@ == source@,
            r matches Err(e) ==> e is Protocol && !(features.azure && features.s3),
    {
        proof {
            if s3::bucket_and_key(source@) is Some {
                s3::lemma_s3_is_not_http(source@);
            }
        }
        let is_azure = azure::is_azure_url(source);
        route(source, is_azure, options, features)
    }

    /// The ETag that reads are pinned to, where the backend has one.
    pub open spec fn pinned_etag(self) -> Option<Seq<char>> {
        match self {
            Storage::S3 { etag, .. } => Some(etag@),
            Storage::AzureBlob { etag, .. } => Some(etag@),
            Storage::Local { .. } => None,
        }
    }

    /// How a read of `length` bytes at `offset` starts: an empty one is over at once, any other
    /// asks the backend for exactly that range of the version that it is pinned to.
    pub open spec fn step(self, offset: u64, length: u64) -> StepView<S, A, L> {
        if length == 0 {
            StepView::Done(Seq::empty())
        } else {
            match self {
                Storage::S3 { client, bucket, key, etag } => StepView::S3 {
                    client,
                    bucket: bucket@,
                    key: key@,
                    range: s3::byte_range(offset as int, offset + length - 1),
                    if_match: etag@,
                },
                Storage::AzureBlob { client, etag } => StepView::AzureBlob {
                    client,
                    offset: offset as int,
                    length: length as int,
                    if_match: etag@,
                },
                Storage::Local { file } => StepView::Local {
                    file,
                    offset: offset as int,
                    length: length as int,
                },
            }
        }
    }

    /// Start a read of `length` bytes at `offset`. The only place where the backends diverge.
    pub fn read_range(&self, offset: u64, length: u64) -> (r: ReadStep<'_, S, A, L>)
        requires
            self is S3 && length > 0 ==> offset + length <= u64::MAX,
        ensures
            r@ == self.step(offset, length),
            r is Done <==> length == 0,
            r matches ReadStep::Done(data) ==> external::bytes_contents(data).len() == 0,
            length > 0 ==> match *self {
                Storage::S3 { client, bucket, key, etag } => {
                    &&& r matches ReadStep::S3 { client: c, request }
                    &&& *c == client
                    &&& request.bucket@ == bucket@
                    &&& request.key@ == key@
                    &&& request.if_match@ == etag@
                    &&& s3::named_range(request.range@) == Some((offset as int, length as int))
                },
                Storage::AzureBlob { client, etag } => {
                    &&& r matches ReadStep::AzureBlob { client: c, request }
                    &&& *c == client
                    &&& request.offset == offset
                    &&& request.length == length
                    &&& request.if_match@ == etag@
                },
                Storage::Local { file } => {
                    &&& r matches ReadStep::Local { file: f, offset: o, length: l }
                    &&& *f == file
                    &&& o == offset
                    &&& l == length
                },
            },
    {
        proof {
            if self is S3 && length > 0 {
                s3::lemma_byte_range_names_the_range(offset, length);
            }
        }
        if length == 0 {
            return ReadStep::Done(Bytes::new());
        }
        match self {
            Storage::S3 { client, bucket, key, etag } => ReadStep::S3 {
                client,
                request: s3::ranged_read(&**bucket, &**key, &**etag, offset, length),
            },
            Storage::AzureBlob { client, etag } => ReadStep::AzureBlob {
                client,
                request: azure::ranged_download(&**etag, offset, length),
            },
            Storage::Local { file } => ReadStep::Local { file, offset, length },
        }
    }

    /// What the backend's failure to read `length` bytes at `offset` is reported as: `Ok` holds
    /// why the answer could not be read, `Err` why there was none.
    pub open spec fn read_error(
        self,
        offset: u64,
        length: u64,
        failure: Result<Seq<char>, Seq<char>>,
    ) -> ErrorView {
        match (self, failure) {
            (Storage::S3 { .. }, Ok(detail)) => ErrorView::Io(
                "reading S3 response body: "@ + detail,
            ),
            (Storage::S3 { .. }, Err(detail)) => s3::request_failed(detail),
            (Storage::AzureBlob { .. }, Ok(detail)) => ErrorView::Io(
                "reading blob response body: "@ + detail,
            ),
            (Storage::AzureBlob { .. }, Err(detail)) => azure::download_failed(
                offset,
                length,
                detail,
            ),
            (Storage::Local { .. }, Ok(detail)) => local::read_failed(offset, length, detail),
            (Storage::Local { .. }, Err(detail)) => ErrorView::Io(
                "local read task panicked: "@ + detail,
            ),
        }
    }

    /// What a read of `length` bytes at `offset` comes to, given what the backend replied: the data
    /// if it has exactly that length, else an error.
    pub open spec fn finished(self, offset: u64, length: u64, reply: ReplyView) -> Result<
        Seq<u8>,
        ErrorView,
    > {
        match reply {
            ReplyView::Data(data) => if data.len() == length {
                Ok(data)
            } else {
                Err(short_read(offset, length, data.len()))
            },
            ReplyView::Unreadable(detail) => Err(self.read_error(offset, length, Ok(detail))),
            ReplyView::Failed(detail) => Err(self.read_error(offset, length, Err(detail))),
        }
    }

    /// What a read of `length` bytes at `offset` comes to, from its start to its end: `reply` is
    /// what the backend replies if it is asked.
    pub open spec fn read_with(self, offset: u64, length: u64, reply: ReplyView) -> Result<
        Seq<u8>,
        ErrorView,
    > {
        match self.step(offset, length) {
            StepView::Done(data) => Ok(data),
            _ => self.finished(offset, length, reply),
        }
    }

    /// `reply` is one that a backend whose archive holds `content` may give to a read of `length`
    /// bytes at `offset`. It may always fail. The data that it gives stands in the archive where
    /// the range that the request names starts, or at `offset` where the read is empty and sends no
    /// request; a remote backend may give less or more than was asked for, a local one gives
    /// exactly that.
    pub open spec fn may_reply(
        self,
        content: Seq<u8>,
        offset: u64,
        length: u64,
        reply: ReplyView,
    ) -> bool {
        reply matches ReplyView::Data(data) ==> {
            let asked = self.step(offset, length).range();
            let (start, count) = match asked {
                Some(range) => range,
                None => (offset as int, 0int),
            };
            &&& asked is None ==> length == 0
            &&& start + data.len() <= content.len()
            &&& data == content.subrange(start, start + data.len())
            &&& self is Local ==> data.len() == count
        }
    }

    /// Finish a read of `length` bytes at `offset` with what the backend replied: the data, or
    /// why the answer could not be read, or why there was none.
    ///
    /// Callers index into the result assuming it is exactly `length` bytes. A ranged GET may
    /// return less, so this is enforced here once for every backend.
    pub fn finish_read(
        &self,
        offset: u64,
        length: u64,
        reply: Result<Result<Bytes, String>, String>,
    ) -> (r: Result<Bytes, Error>)
        ensures
            match r {
                Ok(data) => self.finished(offset, length, reply_view(reply)) == Ok::<
                    Seq<u8>,
                    ErrorView,
                >(external::bytes_contents(data)),
                Err(e) => self.finished(offset, length, reply_view(reply)) == Err::<
                    Seq<u8>,
                    ErrorView,
                >(e@),
            },
            r matches Ok(data) ==> reply == Ok::<Result<Bytes, String>, String>(
                Ok::<Bytes, String>(data),
            ) && external::bytes_contents(data).len() == length,
    {
        let read = match self {
            Storage::S3 { .. } => s3::read_s3_range(reply),
            Storage::AzureBlob { .. } => azure::read_azure_range(offset, length, reply),
            Storage::Local { .. } => local::read_local_range(offset, length, reply),
        };
        let data = match read {
            Ok(data) => data,
            Err(e) => {
                return Err(e);
            },
        };
        let got: u64 = data.len() as u64;
        if got != length {
            let mut message = "short read at offset=".to_owned();
            text::push_decimal(&mut message, offset);
            message.append(": asked for ");
            text::push_decimal(&mut message, length);
            message.append(" bytes, got ");
            text::push_decimal(&mut message, got);
            return Err(Error::Io(message));
        }
        Ok(data)
    }
}

} // verus!
