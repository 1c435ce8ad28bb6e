//! The outside functions that the storage layer computes with, and what is taken on trust
//! about each of them.

use aws_sdk_s3::primitives::DateTime;
use aws_sdk_s3::primitives::DateTimeFormat;
use azure_core::http::Url;
use bytes::Bytes;
use vstd::prelude::*;

verus! {

/// `bytes::Bytes`, a shared buffer. What it holds is [`bytes_contents`].
#[verifier::external_type_specification]
#[verifier::external_body]
pub struct ExBytes(Bytes);

/// The bytes that a `bytes::Bytes` holds, in order.
pub uninterp spec fn bytes_contents(b: Bytes) -> Seq<u8>;

/// `bytes::Bytes::new`: the buffer that it makes is empty.
pub assume_specification[ Bytes::new ]() -> (b: Bytes)
    ensures
        bytes_contents(b) == Seq::<u8>::empty(),
;

/// `bytes::Bytes::len`: how many bytes the buffer holds.
pub assume_specification[ Bytes::len ](b: &Bytes) -> (n: usize)
    ensures
        n == bytes_contents(*b).len(),
;

/// `String::into_boxed_str`: the box holds the text of the string.
pub assume_specification[ String::into_boxed_str ](s: String) -> (b: Box<str>)
    ensures
        b@ == s@,
;

/// What the storage layer reads of a URL.
pub struct UrlParts {
    /// The scheme, in lower case.
    pub scheme: String,
    /// The host, in lower case where the scheme is `http` or `https`.
    pub host: Option<String>,
    /// The path between its slashes.
    pub path_segments: Option<Vec<String>>,
}

/// [`UrlParts`] as a value.
pub struct UrlView {
    pub scheme: Seq<char>,
    pub host: Option<Seq<char>>,
    pub path_segments: Option<Seq<Seq<char>>>,
}

impl View for UrlParts {
    type V = UrlView;

    open spec fn view(&self) -> UrlView {
        UrlView {
            scheme: self.scheme@,
            host: match self.host {
                Some(host) => Some(host@),
                None => None,
            },
            path_segments: match self.path_segments {
                Some(segments) => Some(segments@.map_values(|s: String| s@)),
                None => None,
            },
        }
    }
}

/// What `Url::parse` makes of `source`: the parts of the URL, or the text of its error.
pub uninterp spec fn parsed_url(source: Seq<char>) -> Result<UrlView, Seq<char>>;

/// `c` is an ASCII letter.
pub open spec fn is_letter(c: char) -> bool {
    ('a' as u32 <= c as u32 <= 'z' as u32) || ('A' as u32 <= c as u32 <= 'Z' as u32)
}

/// `s` is a URL scheme written with lower-case letters and digits only.
pub open spec fn is_plain_scheme(s: Seq<char>) -> bool {
    &&& s.len() > 0
    &&& is_letter(s[0])
    &&& forall|i: int|
        0 <= i < s.len() ==> ('a' as u32 <= (#[trigger] s[i]) as u32 <= 'z' as u32) || ('0' as u32
            <= s[i] as u32 <= '9' as u32)
}

/// `Url::parse` of the `url` crate, as `azure_core` hands it on, with `Url::scheme`,
/// `Url::host_str` and `Url::path_segments` of its result.
///
/// What it returns is a function of the text alone and is called [`parsed_url`]. Beyond that:
/// text without a colon is no URL, for a scheme ends with one; text whose first character is
/// neither a letter nor one that is trimmed off (a control character or a space) is no URL;
/// and a scheme that is written in lower-case letters and digits right at the start comes out
/// as it is written.
#[verifier::external_body]
pub(crate) fn parse_url(source: &str) -> (r: Result<UrlParts, String>)
    ensures
        match r {
            Ok(parts) => parsed_url(source@) == Ok::<UrlView, Seq<char>>(parts@),
            Err(text) => parsed_url(source@) == Err::<UrlView, Seq<char>>(text@),
        },
        r is Ok ==> source@.contains(':'),
        r is Ok && source@[0] as u32 > ' ' as u32 ==> is_letter(source@[0]),
        r matches Ok(parts) ==> forall|scheme: Seq<char>|
            is_plain_scheme(scheme) && #[trigger] (scheme + seq![':']).is_prefix_of(source@)
                ==> parts.scheme@ == scheme,
{
    let url = Url::parse(source).map_err(|e| e.to_string())?;
    Ok(
        UrlParts {
            scheme: url.scheme().to_string(),
            host: url.host_str().map(|host| host.to_string()),
            path_segments: url.path_segments().map(|s| s.map(|p| p.to_string()).collect()),
        },
    )
}

/// What `httpdate::fmt_http_date` writes for the time `secs` seconds after the Unix epoch.
pub uninterp spec fn http_date(secs: u64) -> Seq<char>;

/// The first second, counted from the Unix epoch, that an HTTP date cannot name: the start of
/// the year 10000.
pub const HTTP_DATE_END: u64 = 253_402_300_800;

/// `httpdate::fmt_http_date`, on a whole number of seconds after the Unix epoch.
///
/// It writes an IMF-fixdate, such as `Fri, 15 May 2015 15:34:21 GMT`; the text is a function of
/// the seconds alone and is called [`http_date`]. It panics from [`HTTP_DATE_END`] on.
#[verifier::external_body]
pub(crate) fn fmt_http_date(secs: u64) -> (r: String)
    requires
        secs < HTTP_DATE_END,
    ensures
        r@ == http_date(secs),
{
    httpdate::fmt_http_date(std::time::UNIX_EPOCH + std::time::Duration::from_secs(secs))
}

/// What `DateTime::fmt` of the S3 client writes, in the format `HttpDate`, for the time `secs`
/// seconds and `nanos` nanoseconds after the Unix epoch.
pub uninterp spec fn s3_http_date(secs: i64, nanos: u32) -> Option<Seq<char>>;

/// `DateTime::fmt` of the S3 client in the format `HttpDate`, with its error dropped.
///
/// It writes an IMF-fixdate. The text is a function of the time alone and is called
/// [`s3_http_date`]; there is one exactly for the times from the start of the year 1 to the end
/// of the year 9999.
#[verifier::external_body]
pub(crate) fn fmt_s3_http_date(secs: i64, nanos: u32) -> (r: Option<String>)
    ensures
        match r {
            Some(text) => s3_http_date(secs, nanos) == Some(text@),
            None => s3_http_date(secs, nanos) is None,
        },
        r is Some <==> in_s3_date_range(secs, nanos),
{
    let mut time = DateTime::from_secs(secs);
    time.set_subsec_nanos(nanos);
    time.fmt(DateTimeFormat::HttpDate).ok()
}

/// The time `secs` seconds and `nanos` nanoseconds after the Unix epoch lies in one of the
/// years 1 to 9999.
pub open spec fn in_s3_date_range(secs: i64, nanos: u32) -> bool {
    -62_135_596_800_000_000_000 <= secs * 1_000_000_000 + nanos < 253_402_300_800_000_000_000
}

} // verus!
