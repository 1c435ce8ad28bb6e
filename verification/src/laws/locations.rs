//! What holds of archive locations: what is shown of them, which of them Azure Blob serves, and
//! which backend they go to.

use vstd::prelude::*;

use super::texts;
use crate::external;
use crate::external::UrlView;
use crate::storage;
use crate::storage::azure;
use crate::storage::s3;
use crate::storage::AzureOptions;
use crate::storage::BackendView;
use crate::storage::Features;
use crate::text;

verus! {

/// `s` begins with `word`, a word in small letters, perhaps with capitals in their place.
pub open spec fn begins_in_any_case(s: Seq<char>, word: Seq<char>) -> bool {
    &&& s.len() >= word.len()
    &&& forall|j: int|
        0 <= j < word.len() ==> {
            ||| #[trigger] s[j] == word[j]
            ||| 'A' as int <= s[j] as int <= 'Z' as int && s[j] as int + 0x20 == word[j] as int
        }
}

/// The parser takes the location for a URL over HTTP or HTTPS.
pub open spec fn parses_as_http(parsed: Result<UrlView, Seq<char>>) -> bool {
    match parsed {
        Ok(parts) => parts.scheme == "http"@ || parts.scheme == "https"@,
        Err(_) => false,
    }
}

/// What begins with a word once its letters are small begins with it in any case.
proof fn lemma_begins_in_any_case(s: Seq<char>, word: Seq<char>)
    requires
        forall|j: int|
            0 <= j < word.len() ==> !('A' as int <= (#[trigger] word[j]) as int <= 'Z' as int),
    ensures
        word.is_prefix_of(text::ascii_lowercase(s)) <==> begins_in_any_case(s, word),
{
    let lower = text::ascii_lowercase(s);
    let n = word.len() as int;
    if word.is_prefix_of(lower) {
        assert forall|j: int| 0 <= j < n implies {
            ||| #[trigger] s[j] == word[j]
            ||| 'A' as int <= s[j] as int <= 'Z' as int && s[j] as int + 0x20 == word[j] as int
        } by {
            assert(lower.subrange(0, n)[j] == lower[j]);
            text::lemma_ascii_lower(s[j]);
        }
    }
    if begins_in_any_case(s, word) {
        assert forall|j: int| 0 <= j < n implies lower[j] == word[j] by {
            text::lemma_ascii_lower(s[j]);
            assert(lower[j] == text::ascii_lower(s[j]));
            assert(s[j] == word[j] || s[j] as int + 0x20 == word[j] as int);
        }
        assert(lower.subrange(0, n) =~= word);
    }
}

/// A location is written as a URL exactly when it begins with `http://` or `https://`, with any of
/// the letters in capitals.
pub proof fn a_scheme_is_known_in_any_case(source: Seq<char>)
    ensures
        storage::is_written_as_http(source) <==> begins_in_any_case(source, "http://"@)
            || begins_in_any_case(source, "https://"@),
{
    reveal_strlit("http://");
    reveal_strlit("https://");
    lemma_begins_in_any_case(source, "http://"@);
    lemma_begins_in_any_case(source, "https://"@);
}

/// A URL, whether it is written as one or the parser takes it for one, is shown up to its first
/// question mark; any other location is shown whole.
pub proof fn a_url_is_shown_up_to_its_query(
    source: Seq<char>,
    parsed: Result<UrlView, Seq<char>>,
)
    ensures
        ({
            let shown = storage::shown(source, parsed);
            let is_url = begins_in_any_case(source, "http://"@) || begins_in_any_case(
                source,
                "https://"@,
            ) || parses_as_http(parsed);
            &&& shown.is_prefix_of(source)
            &&& is_url ==> !shown.contains('?')
            &&& shown.len() < source.len() ==> is_url && source[shown.len() as int] == '?'
        }),
{
    a_scheme_is_known_in_any_case(source);
    storage::lemma_shown_ends_at_the_query(source, parsed);
    if storage::is_http_url(source, parsed) {
        storage::lemma_shown_without_query(source, parsed);
    }
}

/// What is shown of a location is decided by what the parser makes of that location.
pub proof fn a_location_is_shown_as_it_parses(source: Seq<char>)
    ensures
        ({
            let shown = storage::redacted(source);
            let is_url = begins_in_any_case(source, "http://"@) || begins_in_any_case(
                source,
                "https://"@,
            ) || parses_as_http(external::parsed_url(source));
            &&& shown.is_prefix_of(source)
            &&& is_url ==> !shown.contains('?')
            &&& shown.len() < source.len() ==> is_url && source[shown.len() as int] == '?'
        }),
{
    a_url_is_shown_up_to_its_query(source, external::parsed_url(source));
}

/// A path without a colon, or one that begins with a visible character that is no letter, is taken
/// for no URL, and so is a location that begins with `s3://`: each is shown whole.
pub proof fn a_plain_path_is_no_url(
    source: Seq<char>,
    first: char,
    parsed: Result<UrlView, Seq<char>>,
)
    requires
        !parses_as_http(parsed),
    ensures
        !source.contains(':') ==> azure::is_plainly_not_http(source),
        source.len() > 0 && source[0] == first && first as int > ' ' as int && !('a' as int
            <= first as int <= 'z' as int) && !('A' as int <= first as int <= 'Z' as int) ==> azure::is_plainly_not_http(source),
        "s3://"@.is_prefix_of(source) ==> azure::is_plainly_not_http(source),
        azure::is_plainly_not_http(source) ==> storage::shown(source, parsed) == source,
{
    if "s3://"@.is_prefix_of(source) {
        s3::lemma_s3_is_not_http(source);
    }
    if azure::is_plainly_not_http(source) {
        storage::lemma_plainly_not_http(source);
    }
}

/// `host` is `account` in one of the four clouds.
pub open spec fn is_account_in_a_cloud(host: Seq<char>, account: Seq<char>) -> bool {
    &&& account.len() > 0
    &&& {
        ||| host == account + ".blob.core.windows.net"@
        ||| host == account + ".blob.core.usgovcloudapi.net"@
        ||| host == account + ".blob.core.chinacloudapi.cn"@
        ||| host == account + ".blob.core.cloudapi.de"@
    }
}

/// Every account has a blob host in each of the four clouds, and there are no other blob hosts.
pub proof fn a_blob_host_is_an_account_in_a_cloud(host: Seq<char>, account: Seq<char>)
    ensures
        is_account_in_a_cloud(host, account) ==> azure::is_blob_host(host),
        azure::is_blob_host(host) ==> exists|account: Seq<char>|
            is_account_in_a_cloud(host, account),
{
    lemma_account_host(host, account, ".blob.core.windows.net"@);
    lemma_account_host(host, account, ".blob.core.usgovcloudapi.net"@);
    lemma_account_host(host, account, ".blob.core.chinacloudapi.cn"@);
    lemma_account_host(host, account, ".blob.core.cloudapi.de"@);
    if azure::is_blob_host(host) {
        let suffix = if azure::is_account_host(host, ".blob.core.windows.net"@) {
            ".blob.core.windows.net"@
        } else if azure::is_account_host(host, ".blob.core.usgovcloudapi.net"@) {
            ".blob.core.usgovcloudapi.net"@
        } else if azure::is_account_host(host, ".blob.core.chinacloudapi.cn"@) {
            ".blob.core.chinacloudapi.cn"@
        } else {
            ".blob.core.cloudapi.de"@
        };
        assert(is_account_in_a_cloud(host, host.take(host.len() - suffix.len())));
    }
}

/// The host of an account is the account and the suffix.
proof fn lemma_account_host(host: Seq<char>, account: Seq<char>, suffix: Seq<char>)
    ensures
        account.len() > 0 && host == account + suffix ==> azure::is_account_host(host, suffix),
        azure::is_account_host(host, suffix) ==> host == host.take(host.len() - suffix.len())
            + suffix,
{
    if host == account + suffix {
        assert(host.subrange(account.len() as int, host.len() as int) =~= suffix);
    }
    if azure::is_account_host(host, suffix) {
        let n = host.len() - suffix.len();
        assert(host =~= host.take(n) + host.subrange(n, host.len() as int));
    }
}

/// `url` has a query with a parameter `sig`: `head` stands before its first question mark, `before`
/// before that parameter, and `value` after `sig=`.
pub open spec fn is_signed_by(
    url: Seq<char>,
    head: Seq<char>,
    before: Seq<char>,
    value: Seq<char>,
) -> bool {
    &&& url == head + seq!['?'] + before + "sig="@ + value
    &&& !head.contains('?')
    &&& before.len() == 0 || before[before.len() - 1] == '&'
}

/// A URL carries a SAS exactly when a parameter of its query is named `sig`, wherever in the query
/// that stands, and whatever stands before and after it.
pub proof fn a_sas_is_a_parameter_named_sig(
    url: Seq<char>,
    head: Seq<char>,
    before: Seq<char>,
    value: Seq<char>,
)
    ensures
        is_signed_by(url, head, before, value) ==> azure::carries_sas(url),
        azure::carries_sas(url) ==> exists|head: Seq<char>, before: Seq<char>, value: Seq<char>|
            is_signed_by(url, head, before, value),
{
    let sig = "sig="@;
    if is_signed_by(url, head, before, value) {
        let query = before + sig + value;
        assert(url =~= head + seq!['?'] + query);
        texts::what_is_joined_is_cut_apart(head, '?', query);
        let i = before.len() as int;
        assert(query.skip(i) =~= sig + value);
        assert((sig + value).subrange(0, sig.len() as int) =~= sig);
        assert(azure::is_signature(query, i)) by {
            if i > 0 {
                assert(query[i - 1] == before[i - 1]);
            }
        }
        assert(azure::has_signature(query));
    }
    if azure::carries_sas(url) {
        texts::a_cut_is_at_the_first(url, '?');
        let (h, query) = text::cut_first(url, '?')->0;
        let i = choose|i: int| #[trigger] azure::is_signature(query, i);
        let b = query.take(i);
        let rest = query.skip(i);
        let v = rest.skip(sig.len() as int);
        assert(rest =~= rest.subrange(0, sig.len() as int) + v);
        assert(query =~= b + rest);
        assert(url =~= h + seq!['?'] + b + sig + v);
        assert(is_signed_by(url, h, b, v));
    }
}

/// Azure Blob serves a location over https exactly when its host is an account in one of the
/// clouds, and one over http also when the first segment of its path is the development account,
/// whatever its host; it serves nothing else.
pub proof fn azure_serves_blob_hosts_and_the_emulator(parts: UrlView, detail: Seq<char>)
    ensures
        ({
            let served = azure::is_azure_location(Ok(parts));
            let blob = exists|account: Seq<char>|
                parts.host is Some && is_account_in_a_cloud(parts.host->0, account);
            let emulator = parts.path_segments is Some && parts.path_segments->0.len() > 0
                && parts.path_segments->0[0] == "devstoreaccount1"@;
            &&& parts.scheme == "https"@ ==> (served <==> blob)
            &&& parts.scheme == "http"@ ==> (served <==> blob || emulator)
            &&& parts.scheme != "https"@ && parts.scheme != "http"@ ==> !served
        }),
        !azure::is_azure_location(Err(detail)),
{
    reveal_strlit("http");
    reveal_strlit("https");
    assert("http"@.len() != "https"@.len());
    if let Some(host) = parts.host {
        assert forall|account: Seq<char>|
            is_account_in_a_cloud(host, account) implies azure::is_blob_host(host) by {
            a_blob_host_is_an_account_in_a_cloud(host, account);
        }
        a_blob_host_is_an_account_in_a_cloud(host, host);
    }
}

/// With Azure built in, a blob URL is given to the Azure backend as it was written, character for
/// character and query included, with the id and the credential that the operator passed.
pub proof fn a_blob_url_is_handed_on_as_written(
    source: Seq<char>,
    options: AzureOptions,
    features: Features,
)
    requires
        features.azure,
    ensures
        storage::backend_for(source, true, options, features) matches Ok(
            BackendView::Azure { url, user_assigned, credential },
        ) && {
            &&& url == source
            &&& options.user_assigned is Some <==> user_assigned is Some
            &&& options.user_assigned matches Some(id) ==> user_assigned == Some(id@)
            &&& credential == options.credential
        },
{
}

/// Every location goes to one backend: a blob URL to Azure, where that is built in; an S3 URL to
/// S3, where that is built in, as the bucket and the key that make it up; and any other to the
/// file at the path that it is. What asks by its scheme for a backend that is left out is refused.
pub proof fn a_location_goes_to_its_backend(
    source: Seq<char>,
    is_azure: bool,
    options: AzureOptions,
    features: Features,
    bucket: Seq<char>,
    key: Seq<char>,
)
    ensures
        ({
            let backend = storage::backend_for(source, is_azure, options, features);
            let blob = features.azure && is_azure;
            let refused_http = !features.azure && ("http://"@.is_prefix_of(source)
                || "https://"@.is_prefix_of(source));
            let by_bucket = source == "s3://"@ + bucket + seq!['/'] + key && !bucket.contains('/');
            let refused_s3 = !features.s3 && "s3://"@.is_prefix_of(source) && !blob;
            &&& backend is Err <==> refused_http || refused_s3
            &&& backend matches Err(e) ==> e is Protocol
            &&& backend matches Ok(chosen) ==> {
                &&& chosen is Azure <==> blob
                &&& chosen == (BackendView::S3 { bucket, key }) <==> !blob && features.s3
                    && by_bucket
                &&& chosen matches BackendView::S3 { bucket: b, key: k } ==> source == "s3://"@ + b
                    + seq!['/'] + k
                &&& chosen matches BackendView::Local { path } ==> path == source && !by_bucket
            }
        }),
{
    texts::a_prefix_comes_off("s3://"@, bucket + seq!['/'] + key, source);
    assert("s3://"@ + bucket + seq!['/'] + key =~= "s3://"@ + (bucket + seq!['/'] + key));
    if source == "s3://"@ + bucket + seq!['/'] + key && !bucket.contains('/') {
        super::s3_url_round_trip(bucket, key);
        s3::lemma_s3_is_not_http(source);
        assert(source.subrange(0, "s3://"@.len() as int) =~= "s3://"@);
    }
    if let Some((b, k)) = s3::bucket_and_key(source) {
        s3::lemma_parts_make_the_url(source, b, k);
    }
}

/// A location is an S3 URL exactly when it begins with `s3://` and has a slash behind that; the
/// bucket ends at the first such slash, and the key is all the rest.
pub proof fn an_s3_url_is_a_bucket_and_a_key(url: Seq<char>, path: Seq<char>)
    ensures
        url == "s3://"@ + path ==> (s3::bucket_and_key(url) is Some <==> path.contains('/')),
        !"s3://"@.is_prefix_of(url) ==> s3::bucket_and_key(url) is None,
        s3::bucket_and_key(url) matches Some((bucket, key)) ==> url == "s3://"@ + bucket + seq!['/']
            + key && !bucket.contains('/'),
{
    texts::a_prefix_comes_off("s3://"@, path, url);
    texts::a_cut_is_at_the_first(path, '/');
    if let Some((head, tail)) = text::cut_first(path, '/') {
        assert((head + seq!['/'] + tail)[head.len() as int] == '/');
    }
    if let Some((b, k)) = s3::bucket_and_key(url) {
        s3::lemma_parts_make_the_url(url, b, k);
    }
}

/// A location that is refused for want of Azure is told so in other words than one that is refused
/// for want of S3.
pub proof fn a_refusal_names_the_backend(
    http: Seq<char>,
    object: Seq<char>,
    options: AzureOptions,
    features: Features,
)
    requires
        !features.azure && !features.s3,
        "http://"@.is_prefix_of(http) || "https://"@.is_prefix_of(http),
        "s3://"@.is_prefix_of(object),
    ensures
        storage::backend_for(http, false, options, features) matches Err(e) && (
        storage::backend_for(object, false, options, features) matches Err(f) && e != f),
{
    reveal_strlit("HTTP(S) archives require the 'azure' cargo feature");
    reveal_strlit("S3 archives require the 's3' cargo feature");
    s3::lemma_s3_is_not_http(object);
    assert("HTTP(S) archives require the 'azure' cargo feature"@[0] == 'H');
    assert("S3 archives require the 's3' cargo feature"@[0] == 'S');
}

} // verus!
