//! What holds of the storage layer as a whole, beyond the contract of any one function.

use vstd::prelude::*;

use crate::error::ErrorView;
use crate::external;
use crate::external::UrlView;
use crate::storage;
use crate::storage::azure;
use crate::storage::azure::EnvView;
use crate::storage::local;
use crate::storage::s3;
use crate::storage::AzureOptions;
use crate::storage::CredentialKind;
use crate::storage::Features;
use crate::storage::ReplyView;
use crate::storage::SourceView;
use crate::storage::Storage;
use crate::text;

pub mod credentials;
pub mod errors;
pub mod locations;
pub mod reads;
pub mod sources;
pub mod texts;

verus! {

/// What is shown of a location is the start of it.
pub proof fn redaction_only_cuts_off(source: Seq<char>)
    ensures
        storage::redacted(source).is_prefix_of(source),
{
    text::lemma_first_at_splits(source, '?');
}

/// A location without a question mark is shown whole, and so is one that is no URL over HTTP or
/// HTTPS.
pub proof fn redaction_spares_what_has_no_query(
    source: Seq<char>,
    parsed: Result<UrlView, Seq<char>>,
)
    requires
        !storage::is_http_url(source, parsed) || !source.contains('?'),
    ensures
        storage::shown(source, parsed) == source,
{
    text::lemma_first_at_splits(source, '?');
    assert(source.take(source.len() as int) =~= source);
}

/// What is shown of a URL is what stands before its query, whatever the query is.
pub proof fn redaction_forgets_the_query(
    head: Seq<char>,
    query: Seq<char>,
    parsed: Result<UrlView, Seq<char>>,
)
    requires
        storage::is_written_as_http(head) || storage::is_http_url(
            head + seq!['?'] + query,
            parsed,
        ),
        !head.contains('?'),
    ensures
        storage::shown(head + seq!['?'] + query, parsed) == head,
{
    let source = head + seq!['?'] + query;
    if storage::is_written_as_http(head) {
        lemma_http_prefix_stays(head, source);
    }
    assert forall|j: int| 0 <= j < head.len() implies source[j] != '?' by {
        assert(source[j] == head[j]);
        assert(head.contains(head[j]));
    }
    assert(source[head.len() as int] == '?');
    text::lemma_first_at(source, '?', head.len() as int);
    assert(source.take(head.len() as int) =~= head);
}

/// What is shown of a URL over HTTP or HTTPS, however it is written, and so of every location that
/// the Azure backend serves, holds no question mark and carries no SAS.
pub proof fn redaction_hides_the_sas(source: Seq<char>)
    ensures
        storage::is_http_url(source, external::parsed_url(source)) || azure::is_azure_location(
            external::parsed_url(source),
        ) ==> !storage::redacted(source).contains('?') && !azure::carries_sas(
            storage::redacted(source),
        ),
{
    if storage::is_http_url(source, external::parsed_url(source)) {
        storage::lemma_shown_without_query(source, external::parsed_url(source));
    }
}

/// Showing what is already fit to be shown changes nothing.
pub proof fn redaction_is_idempotent(source: Seq<char>)
    ensures
        storage::redacted(storage::redacted(source)) == storage::redacted(source),
{
    let head = storage::redacted(source);
    if storage::is_http_url(source, external::parsed_url(source)) {
        redaction_hides_the_sas(source);
        redaction_spares_what_has_no_query(head, external::parsed_url(head));
    }
}

/// The errors about a URL, whether it is served as a blob or taken for a path, are the same
/// whatever its query is: no SAS reaches them.
pub proof fn no_error_shows_the_query(
    head: Seq<char>,
    query: Seq<char>,
    kind: CredentialKind,
    detail: Seq<char>,
    stat: Result<local::FileMetadata, String>,
)
    requires
        !head.contains('?'),
    ensures
        storage::is_written_as_http(head) || storage::is_http_url(
            head + seq!['?'] + query,
            external::parsed_url(head + seq!['?'] + query),
        ) || azure::is_azure_location(external::parsed_url(head + seq!['?'] + query)) ==> {
            &&& azure::probe_error(head + seq!['?'] + query, kind, detail) == azure::probe_error(
                head,
                kind,
                detail,
            )
            &&& local::local_source(head + seq!['?'] + query, stat) == local::local_source(
                head,
                stat,
            )
            &&& local::open_failed(head + seq!['?'] + query, detail) == local::open_failed(
                head,
                detail,
            )
        },
{
    let source = head + seq!['?'] + query;
    if storage::is_written_as_http(head) || storage::is_http_url(
        source,
        external::parsed_url(source),
    ) {
        redaction_forgets_the_query(head, query, external::parsed_url(source));
        redaction_spares_what_has_no_query(head, external::parsed_url(head));
    }
}

/// Nor does the query reach the error about a text that is written as a URL and does not parse.
pub proof fn no_invalid_url_is_shown_with_its_query(
    head: Seq<char>,
    query: Seq<char>,
    detail: Seq<char>,
    env: EnvView,
    user_assigned: Option<Seq<char>>,
    override_kind: Option<CredentialKind>,
)
    requires
        storage::is_written_as_http(head),
        !head.contains('?'),
    ensures
        azure::probe_for(
            head + seq!['?'] + query,
            Err(detail),
            env,
            user_assigned,
            override_kind,
        ) == azure::probe_for(head, Err(detail), env, user_assigned, override_kind),
{
    redaction_forgets_the_query(head, query, Err(detail));
    redaction_spares_what_has_no_query(head, Err(detail));
}

/// A text that begins with one that is written as an HTTP URL is so written itself.
proof fn lemma_http_prefix_stays(head: Seq<char>, source: Seq<char>)
    requires
        storage::is_written_as_http(head),
        head.is_prefix_of(source),
    ensures
        storage::is_written_as_http(source),
{
    let lower = text::ascii_lowercase(head);
    let all = text::ascii_lowercase(source);
    assert forall|j: int| 0 <= j < head.len() implies all[j] == lower[j] by {
        assert(source.subrange(0, head.len() as int)[j] == source[j]);
    }
    if "http://"@.is_prefix_of(lower) {
        let n = "http://"@.len() as int;
        assert(all.subrange(0, n) =~= lower.subrange(0, n));
    } else {
        let n = "https://"@.len() as int;
        assert(all.subrange(0, n) =~= lower.subrange(0, n));
    }
}

/// A bucket and a key written as a URL are read back as they were.
pub proof fn s3_url_round_trip(bucket: Seq<char>, key: Seq<char>)
    requires
        !bucket.contains('/'),
    ensures
        s3::bucket_and_key("s3://"@ + bucket + seq!['/'] + key) == Some((bucket, key)),
{
    let url = "s3://"@ + bucket + seq!['/'] + key;
    let path = bucket + seq!['/'] + key;
    assert(url.subrange(0, "s3://"@.len() as int) =~= "s3://"@);
    assert(url.skip("s3://"@.len() as int) =~= path);
    assert forall|j: int| 0 <= j < bucket.len() implies path[j] != '/' by {
        assert(path[j] == bucket[j]);
        assert(bucket.contains(bucket[j]));
    }
    assert(path[bucket.len() as int] == '/');
    text::lemma_first_at(path, '/', bucket.len() as int);
    assert(path.take(bucket.len() as int) =~= bucket);
    assert(path.skip(bucket.len() as int + 1) =~= key);
}

/// What an S3 URL is split into makes up the whole of it, and the bucket ends at the first
/// slash.
pub proof fn s3_url_parts_make_the_url(url: Seq<char>, bucket: Seq<char>, key: Seq<char>)
    requires
        s3::bucket_and_key(url) == Some((bucket, key)),
    ensures
        url == "s3://"@ + bucket + seq!['/'] + key,
        !bucket.contains('/'),
{
    s3::lemma_parts_make_the_url(url, bucket, key);
}

/// With every backend built in, every location is opened by one of them, and one that is
/// neither an Azure Blob URL nor an S3 URL is a local path.
pub proof fn anything_else_is_a_local_path(
    source: Seq<char>,
    is_azure: bool,
    options: AzureOptions,
    features: Features,
)
    requires
        features.s3 && features.azure,
    ensures
        storage::backend_for(source, is_azure, options, features) is Ok,
        !is_azure && s3::bucket_and_key(source) is None ==> storage::backend_for(
            source,
            is_azure,
            options,
            features,
        ) == Ok::<storage::BackendView, ErrorView>(storage::BackendView::Local { path: source }),
{
}

/// A backend that is left out is never chosen, and a location that asks for it by its scheme is
/// refused.
pub proof fn a_backend_left_out_is_refused(
    source: Seq<char>,
    is_azure: bool,
    options: AzureOptions,
    features: Features,
)
    ensures
        !features.azure && storage::has_http_prefix(source) ==> storage::backend_for(
            source,
            is_azure,
            options,
            features,
        ) is Err,
        !features.azure ==> !(storage::backend_for(source, is_azure, options, features) matches Ok(
            storage::BackendView::Azure { .. },
        )),
        !features.s3 && !is_azure && "s3://"@.is_prefix_of(source) ==> storage::backend_for(
            source,
            is_azure,
            options,
            features,
        ) is Err,
        !features.s3 ==> !(storage::backend_for(source, is_azure, options, features) matches Ok(
            storage::BackendView::S3 { .. },
        )),
{
}

/// A location with none of the schemes of the remote backends is a local path, whatever is built
/// in.
pub proof fn local_archives_need_no_backend_built_in(
    source: Seq<char>,
    options: AzureOptions,
    features: Features,
)
    requires
        !storage::has_http_prefix(source),
        !"s3://"@.is_prefix_of(source),
    ensures
        storage::backend_for(source, false, options, features) == Ok::<
            storage::BackendView,
            ErrorView,
        >(storage::BackendView::Local { path: source }),
{
}

/// The Azure options make no difference to a location that is not an Azure Blob URL.
pub proof fn azure_options_are_inert_elsewhere(
    source: Seq<char>,
    options: AzureOptions,
    others: AzureOptions,
    features: Features,
)
    ensures
        storage::backend_for(source, false, options, features) == storage::backend_for(
            source,
            false,
            others,
            features,
        ),
{
}

/// A location that is given a credential is reached over https, has an Azure Blob host, carries
/// no SAS, and is one that the Azure backend serves, whatever the environment holds and the
/// operator asks for.
pub proof fn only_a_blob_host_over_https_is_credentialed(
    url: Result<UrlView, Seq<char>>,
    sas: bool,
    env: EnvView,
    override_kind: Option<CredentialKind>,
)
    requires
        azure::chosen(url, sas, env, override_kind) != CredentialKind::Anonymous,
    ensures
        !sas,
        url matches Ok(parts) && parts.scheme == "https"@ && azure::on_blob_host(parts),
        azure::is_azure_location(url),
{
}

/// An operator who names a credential gets that one, where the location may be given any.
pub proof fn a_named_credential_wins_over_detection(
    url: Result<UrlView, Seq<char>>,
    sas: bool,
    env: EnvView,
    kind: CredentialKind,
)
    requires
        azure::may_be_credentialed(url, sas),
    ensures
        azure::chosen(url, sas, env, Some(kind)) == kind,
{
}

/// The first condition that holds decides: a federated token, then a whole service principal,
/// then an identity endpoint, then the developer tools.
pub proof fn detection_goes_by_rank(env: EnvView)
    ensures
        ({
            let federated = azure::is_set(env.federated_token_file);
            let principal = azure::is_set(env.tenant_id) && azure::is_set(env.client_id)
                && azure::is_set(env.client_secret);
            let managed = azure::is_set(env.identity_endpoint) || azure::is_set(env.msi_endpoint);
            &&& azure::detected(env) == CredentialKind::WorkloadIdentity <==> federated
            &&& azure::detected(env) == CredentialKind::ClientSecret <==> !federated && principal
            &&& azure::detected(env) == CredentialKind::ManagedIdentity <==> !federated
                && !principal && managed
            &&& azure::detected(env) == CredentialKind::DeveloperTools <==> !federated
                && !principal && !managed
        }),
{
}

/// `env` with every empty marker taken out.
pub open spec fn without_empty_markers(env: EnvView) -> EnvView {
    EnvView {
        identity_endpoint: non_empty(env.identity_endpoint),
        msi_endpoint: non_empty(env.msi_endpoint),
        federated_token_file: non_empty(env.federated_token_file),
        tenant_id: non_empty(env.tenant_id),
        client_id: non_empty(env.client_id),
        client_secret: non_empty(env.client_secret),
    }
}

/// `marker`, if it is not empty.
pub open spec fn non_empty(marker: Option<Seq<char>>) -> Option<Seq<char>> {
    if azure::is_set(marker) {
        marker
    } else {
        None
    }
}

/// Empty markers are not markers: nothing about a credential changes when they are taken out.
pub proof fn empty_markers_are_not_markers(
    url: Result<UrlView, Seq<char>>,
    sas: bool,
    env: EnvView,
    override_kind: Option<CredentialKind>,
    user_assigned: Option<Seq<char>>,
)
    ensures
        azure::chosen(url, sas, env, override_kind) == azure::chosen(
            url,
            sas,
            without_empty_markers(env),
            override_kind,
        ),
        forall|kind: CredentialKind|
            #![trigger azure::credential_for(env, kind, user_assigned)]
            azure::credential_for(env, kind, user_assigned) == azure::credential_for(
                without_empty_markers(env),
                kind,
                user_assigned,
            ),
{
}

/// Detection never picks a credential that lacks what it needs.
pub proof fn a_detected_credential_can_be_built(
    url: Result<UrlView, Seq<char>>,
    sas: bool,
    env: EnvView,
    user_assigned: Option<Seq<char>>,
)
    ensures
        azure::credential_for(env, azure::chosen(url, sas, env, None), user_assigned) is Ok,
{
}

/// Only a service principal can lack something, and no request goes out without a credential
/// unless it is meant to be anonymous.
pub proof fn only_a_service_principal_can_be_incomplete(
    env: EnvView,
    kind: CredentialKind,
    user_assigned: Option<Seq<char>>,
)
    ensures
        azure::credential_for(env, kind, user_assigned) is Err <==> kind
            == CredentialKind::ClientSecret && !(azure::is_set(env.tenant_id) && azure::is_set(
            env.client_id,
        ) && azure::is_set(env.client_secret)),
        azure::credential_for(env, kind, user_assigned) matches Ok(credential) ==> (
        credential is None <==> kind == CredentialKind::Anonymous),
{
}

/// The total length that a `Content-Range` header ends with is read back, whatever range stands
/// before it.
pub proof fn content_range_round_trip(range: Seq<char>, total: u64)
    ensures
        azure::content_range_total(
            "bytes "@ + range + seq!['/'] + text::decimal(total as nat),
        ) == Some(total),
{
    let digits = text::decimal(total as nat);
    let header = "bytes "@ + range + seq!['/'] + digits;
    let rest = range + seq!['/'] + digits;
    assert(header.subrange(0, "bytes "@.len() as int) =~= "bytes "@);
    assert(header.skip("bytes "@.len() as int) =~= rest);
    text::lemma_decimal_value(total as nat);
    assert forall|j: int| range.len() + 1 <= j < rest.len() implies rest[j] != '/' by {
        assert(rest[j] == digits[j - range.len() - 1]);
        assert(text::is_digit(digits[j - range.len() - 1]));
    }
    assert(rest[range.len() as int] == '/');
    text::lemma_last_end(rest, '/', range.len() as int + 1);
    assert(rest.skip(range.len() as int + 1) =~= digits);
    text::lemma_decimal_trimmed(total as nat);
    text::lemma_unsigned_decimal(total);
}

/// A total length that the server does not know is not taken for one.
pub proof fn an_unknown_total_is_no_total(range: Seq<char>)
    ensures
        azure::content_range_total("bytes "@ + range + seq!['/', '*']) is None,
{
    let header = "bytes "@ + range + seq!['/', '*'];
    let rest = range + seq!['/', '*'];
    assert(header.subrange(0, "bytes "@.len() as int) =~= "bytes "@);
    assert(header.skip("bytes "@.len() as int) =~= rest);
    text::lemma_last_end(rest, '/', range.len() as int + 1);
    assert(rest.skip(range.len() as int + 1) =~= seq!['*']);
    assert(text::trimmed(seq!['*']) =~= seq!['*']);
    assert(!text::is_digit(seq!['*'][0]));
}

/// Two numbers in base ten with a mark between them that is no digit: from the text the numbers
/// can be told.
proof fn lemma_pair_of_numbers(
    before: Seq<char>,
    mark: char,
    after: Seq<char>,
    a: nat,
    b: nat,
    c: nat,
    d: nat,
)
    requires
        !text::is_digit(mark),
        before + text::decimal(a) + seq![mark] + text::decimal(b) + after == before
            + text::decimal(c) + seq![mark] + text::decimal(d) + after,
    ensures
        a == c,
        b == d,
{
    let left = before + text::decimal(a) + seq![mark] + text::decimal(b) + after;
    let right = before + text::decimal(c) + seq![mark] + text::decimal(d) + after;
    text::lemma_decimal_value(a);
    text::lemma_decimal_value(b);
    text::lemma_decimal_value(c);
    text::lemma_decimal_value(d);
    let n = before.len() as int;
    let i = text::decimal(a).len() as int;
    let j = text::decimal(c).len() as int;
    assert(left[n + i] == mark);
    assert(right[n + j] == mark);
    if i < j {
        assert(right[n + i] == text::decimal(c)[i]);
        assert(text::is_digit(text::decimal(c)[i]));
    } else if j < i {
        assert(left[n + j] == text::decimal(a)[j]);
        assert(text::is_digit(text::decimal(a)[j]));
    }
    assert(text::decimal(a) =~= left.subrange(n, n + i));
    assert(text::decimal(c) =~= right.subrange(n, n + i));
    let k = left.len() - after.len();
    assert(text::decimal(b) =~= left.subrange(n + i + 1, k));
    assert(text::decimal(d) =~= right.subrange(n + i + 1, k));
}

/// The ETag of a local archive tells its modification time, in whole seconds, and its size: it
/// changes whenever one of them does.
pub proof fn local_etag_changes_with_the_archive(mtime: u64, size: u64, mtime2: u64, size2: u64)
    requires
        local::local_etag(mtime, size) == local::local_etag(mtime2, size2),
    ensures
        mtime == mtime2,
        size == size2,
{
    reveal_strlit("-");
    assert("-"@ =~= seq!['-']);
    lemma_pair_of_numbers(
        "\""@,
        '-',
        "\""@,
        mtime as nat,
        size as nat,
        mtime2 as nat,
        size2 as nat,
    );
}

/// The `Range` header of a read tells its offset and its length.
pub proof fn byte_range_tells_the_read(offset: u64, length: u64, offset2: u64, length2: u64)
    requires
        length > 0,
        length2 > 0,
        s3::byte_range(offset as int, offset + length - 1) == s3::byte_range(
            offset2 as int,
            offset2 + length2 - 1,
        ),
    ensures
        offset == offset2,
        length == length2,
{
    reveal_strlit("-");
    assert("-"@ =~= seq!['-']);
    let empty = Seq::<char>::empty();
    let first = s3::byte_range(offset as int, offset + length - 1);
    let second = s3::byte_range(offset2 as int, offset2 + length2 - 1);
    assert(first + empty =~= first);
    assert(second + empty =~= second);
    lemma_pair_of_numbers(
        "bytes="@,
        '-',
        empty,
        offset as nat,
        (offset + length - 1) as nat,
        offset2 as nat,
        (offset2 + length2 - 1) as nat,
    );
}

/// Every read of an archive that is not local, unless it is empty, insists on the ETag that came
/// with the archive when it was opened.
pub proof fn every_remote_read_is_pinned_to_the_opened_version<S, A, L>(
    storage: Storage<S, A, L>,
    source: SourceView,
    offset: u64,
    length: u64,
)
    requires
        storage.pinned_etag() == Some(source.etag),
        length > 0,
    ensures
        storage.step(offset, length).if_match() == Some(source.etag),
{
}

/// A read asks a backend for something exactly when it is not empty.
pub proof fn only_an_empty_read_asks_for_nothing<S, A, L>(
    storage: Storage<S, A, L>,
    offset: u64,
    length: u64,
)
    ensures
        storage.step(offset, length) == storage::StepView::<S, A, L>::Done(Seq::empty()) <==> length
            == 0,
        storage.step(offset, length) is Done <==> length == 0,
{
}

/// Two reads of one S3 object, neither of them empty, that send the same request are the same
/// read.
pub proof fn s3_requests_tell_the_read<S, A, L>(
    storage: Storage<S, A, L>,
    offset: u64,
    length: u64,
    offset2: u64,
    length2: u64,
)
    requires
        storage is S3,
        length > 0,
        length2 > 0,
        storage.step(offset, length) == storage.step(offset2, length2),
    ensures
        offset == offset2,
        length == length2,
{
    byte_range_tells_the_read(offset, length, offset2, length2);
}

/// A location that is routed to Azure Blob is a URL that parses, and it is probed for its first
/// block unless the operator asks for a service principal that lacks a variable.
pub proof fn a_routed_blob_is_probed(
    url: Seq<char>,
    parsed: Result<UrlView, Seq<char>>,
    env: EnvView,
    user_assigned: Option<Seq<char>>,
    override_kind: Option<CredentialKind>,
)
    requires
        azure::is_azure_location(parsed),
    ensures
        parsed is Ok,
        azure::probe_for(url, parsed, env, user_assigned, override_kind) is Err ==> {
            &&& override_kind == Some(CredentialKind::ClientSecret)
            &&& !(azure::is_set(env.tenant_id) && azure::is_set(env.client_id) && azure::is_set(
                env.client_secret,
            ))
        },
        azure::probe_for(url, parsed, env, user_assigned, override_kind) matches Ok(probe) ==> {
            &&& probe.offset == 0
            &&& probe.length == azure::PROBE_LEN
            &&& probe.credential is None <==> probe.kind == CredentialKind::Anonymous
        },
{
}

/// What a read gives back is exactly the range that was asked for, so a read that goes past the
/// end fails, whatever the backend replies.
pub proof fn a_read_gives_back_the_range<S, A, L>(
    storage: Storage<S, A, L>,
    content: Seq<u8>,
    offset: u64,
    length: u64,
    reply: ReplyView,
)
    requires
        length > 0,
        storage.may_reply(content, offset, length, reply),
    ensures
        storage.read_with(offset, length, reply) matches Ok(data) ==> {
            &&& offset + length <= content.len()
            &&& data == content.subrange(offset as int, offset + length)
        },
        offset + length > content.len() ==> storage.read_with(offset, length, reply) is Err,
{
    reads::a_request_names_the_range(storage, offset, length);
}

/// A read of a range that lies in the archive succeeds when the backend replies with that range.
pub proof fn a_range_in_the_archive_can_be_read<S, A, L>(
    storage: Storage<S, A, L>,
    content: Seq<u8>,
    offset: u64,
    length: u64,
)
    requires
        offset + length <= content.len(),
    ensures
        ({
            let range = content.subrange(offset as int, offset + length);
            &&& storage.may_reply(content, offset, length, ReplyView::Data(range))
            &&& storage.read_with(offset, length, ReplyView::Data(range)) == Ok::<
                Seq<u8>,
                ErrorView,
            >(range)
        }),
{
    if length == 0 {
        assert(content.subrange(offset as int, offset as int) =~= Seq::<u8>::empty());
    } else {
        reads::a_request_names_the_range(storage, offset, length);
    }
}

/// Data of another length than was asked for, which only a remote backend gives, fails the read
/// with both lengths; any other failure is reported as the backend gave it.
pub proof fn a_failed_read_says_why<S, A, L>(
    storage: Storage<S, A, L>,
    content: Seq<u8>,
    offset: u64,
    length: u64,
    reply: ReplyView,
)
    requires
        length > 0,
        storage.may_reply(content, offset, length, reply),
    ensures
        storage.read_with(offset, length, reply) matches Err(e) ==> match reply {
            ReplyView::Data(data) => !(storage is Local) && data.len() != length && e
                == storage::short_read(offset, length, data.len()),
            ReplyView::Unreadable(detail) => e == storage.read_error(offset, length, Ok(detail)),
            ReplyView::Failed(detail) => e == storage.read_error(offset, length, Err(detail)),
        },
{
    reads::a_request_names_the_range(storage, offset, length);
}

/// Where a read and the reads of the two parts of its range all succeed, the data of the parts
/// makes up the data of the whole, whatever came between the reads: they are positional and leave
/// no state behind.
pub proof fn adjacent_reads_make_up_one<S, A, L>(
    storage: Storage<S, A, L>,
    content: Seq<u8>,
    offset: u64,
    a: u64,
    b: u64,
    replies: (ReplyView, ReplyView, ReplyView),
    whole: Seq<u8>,
    first: Seq<u8>,
    second: Seq<u8>,
)
    requires
        offset + a + b <= u64::MAX,
        storage.may_reply(content, offset, (a + b) as u64, replies.0),
        storage.may_reply(content, offset, a, replies.1),
        storage.may_reply(content, (offset + a) as u64, b, replies.2),
        storage.read_with(offset, (a + b) as u64, replies.0) == Ok::<Seq<u8>, ErrorView>(whole),
        storage.read_with(offset, a, replies.1) == Ok::<Seq<u8>, ErrorView>(first),
        storage.read_with((offset + a) as u64, b, replies.2) == Ok::<Seq<u8>, ErrorView>(second),
    ensures
        first + second == whole,
{
    if a + b > 0 {
        a_read_gives_back_the_range(storage, content, offset, (a + b) as u64, replies.0);
    }
    if a > 0 {
        a_read_gives_back_the_range(storage, content, offset, a, replies.1);
    }
    if b > 0 {
        a_read_gives_back_the_range(storage, content, (offset + a) as u64, b, replies.2);
    }
    assert(first + second =~= whole);
}

/// Where a reply completes a read, replies that are the two parts of it complete the reads of the
/// two parts of the range, and together they are the whole.
pub proof fn replies_in_parts_make_up_one<S, A, L>(
    storage: Storage<S, A, L>,
    offset: u64,
    a: u64,
    b: u64,
    whole: bytes::Bytes,
    first: bytes::Bytes,
    second: bytes::Bytes,
)
    requires
        offset + a + b <= u64::MAX,
        external::bytes_contents(whole).len() == a + b,
        external::bytes_contents(first) == external::bytes_contents(whole).take(a as int),
        external::bytes_contents(second) == external::bytes_contents(whole).skip(a as int),
    ensures
        ({
            let data = external::bytes_contents(whole);
            let part1 = external::bytes_contents(first);
            let part2 = external::bytes_contents(second);
            &&& storage.finished(offset, (a + b) as u64, storage::reply_view(Ok(Ok(whole))))
                == Ok::<Seq<u8>, ErrorView>(data)
            &&& storage.finished(offset, a, storage::reply_view(Ok(Ok(first)))) == Ok::<
                Seq<u8>,
                ErrorView,
            >(part1)
            &&& storage.finished((offset + a) as u64, b, storage::reply_view(Ok(Ok(second))))
                == Ok::<Seq<u8>, ErrorView>(part2)
            &&& part1 + part2 == data
        }),
{
    let data = external::bytes_contents(whole);
    assert(data.take(a as int) + data.skip(a as int) =~= data);
}

} // verus!
