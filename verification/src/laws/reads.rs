//! What holds of reads: the request that a read sends, and what its reply is made into.

use vstd::prelude::*;

use super::texts;
use crate::error::ErrorView;
use crate::external;
use crate::storage;
use crate::storage::s3;
use crate::storage::ReplyView;
use crate::storage::StepView;
use crate::storage::Storage;
use crate::text;

verus! {

/// A read that is not empty asks the client of the archive, or its file, for the bytes from
/// `offset` up to `offset + length`, of the object that was opened, in the version that was
/// opened.
pub proof fn a_request_names_the_range<S, A, L>(
    storage: Storage<S, A, L>,
    offset: u64,
    length: u64,
)
    requires
        length > 0,
    ensures
        storage.step(offset, length).range() == Some((offset as int, length as int)),
        match storage {
            Storage::S3 { client, bucket, key, etag } => {
                &&& storage.step(offset, length) matches StepView::S3 {
                    client: c,
                    bucket: b,
                    key: k,
                    range,
                    if_match,
                }
                &&& c == client && b == bucket@ && k == key@ && if_match == etag@
                &&& s3::named_range(range) == Some((offset as int, length as int))
            },
            Storage::AzureBlob { client, etag } => {
                &&& storage.step(offset, length) matches StepView::AzureBlob {
                    client: c,
                    offset: o,
                    length: l,
                    if_match,
                }
                &&& c == client && o == offset && l == length && if_match == etag@
            },
            Storage::Local { file } => {
                &&& storage.step(offset, length) matches StepView::Local {
                    file: f,
                    offset: o,
                    length: l,
                }
                &&& f == file && o == offset && l == length
            },
        },
{
    s3::lemma_byte_range_names_the_range(offset, length);
}

/// The data that a backend may reply with stands in the archive at the offset that was asked for,
/// and a local backend replies with as many bytes as were asked for.
pub proof fn a_reply_stands_at_the_offset<S, A, L>(
    storage: Storage<S, A, L>,
    content: Seq<u8>,
    offset: u64,
    length: u64,
    data: Seq<u8>,
)
    ensures
        storage.may_reply(content, offset, length, ReplyView::Data(data)) <==> {
            &&& offset + data.len() <= content.len()
            &&& data == content.subrange(offset as int, offset + data.len())
            &&& storage is Local ==> data.len() == length
        },
{
    if length > 0 {
        a_request_names_the_range(storage, offset, length);
    }
}

/// Two reads of one archive, neither of them empty, that send the same request are the same read.
pub proof fn requests_tell_the_reads_apart<S, A, L>(
    storage: Storage<S, A, L>,
    offset: u64,
    length: u64,
    offset2: u64,
    length2: u64,
)
    requires
        length > 0,
        length2 > 0,
        storage.step(offset, length) == storage.step(offset2, length2),
    ensures
        offset == offset2,
        length == length2,
{
    a_request_names_the_range(storage, offset, length);
    a_request_names_the_range(storage, offset2, length2);
}

/// The `Range` header of a read spells out, behind `bytes=` and on the two sides of a dash, the
/// offsets of the first and of the last byte that is read.
pub proof fn a_range_header_spells_out_the_bounds(offset: u64, length: u64)
    requires
        0 < length,
        offset + length - 1 <= u64::MAX,
    ensures
        "bytes="@.is_prefix_of(s3::byte_range(offset as int, offset + length - 1)),
        text::cut_first(
            s3::byte_range(offset as int, offset + length - 1).skip("bytes="@.len() as int),
            '-',
        ) matches Some((first, last)) && text::unsigned(first) == Some(offset) && text::unsigned(
            last,
        ) == Some((offset + length - 1) as u64),
{
    reveal_strlit("-");
    let first = text::decimal(offset as nat);
    let last = text::decimal((offset + length - 1) as nat);
    let header = s3::byte_range(offset as int, offset + length - 1);
    let n = "bytes="@.len() as int;
    assert(header.subrange(0, n) =~= "bytes="@);
    assert(header.skip(n) =~= first + seq!['-'] + last);
    lemma_no_mark_in_a_number(offset as nat, '-');
    texts::what_is_joined_is_cut_apart(first, '-', last);
    text::lemma_unsigned_decimal(offset);
    text::lemma_unsigned_decimal((offset + length - 1) as u64);
}

/// What is no digit does not occur in a number.
pub proof fn lemma_no_mark_in_a_number(n: nat, mark: char)
    requires
        !text::is_digit(mark),
    ensures
        !text::decimal(n).contains(mark),
{
    text::lemma_decimal_value(n);
    let s = text::decimal(n);
    assert forall|j: int| 0 <= j < s.len() implies s[j] != mark by {
        assert(text::is_digit(s[j]));
    }
}

/// A reply is made into the data that it brought exactly when there are as many bytes as were
/// asked for; anything else, and every failure, is an I/O error.
pub proof fn a_read_succeeds_with_what_was_asked_for<S, A, L>(
    storage: Storage<S, A, L>,
    offset: u64,
    length: u64,
    data: Seq<u8>,
    detail: Seq<char>,
)
    ensures
        data.len() == length ==> storage.finished(offset, length, ReplyView::Data(data)) == Ok::<
            Seq<u8>,
            ErrorView,
        >(data),
        data.len() != length ==> (storage.finished(offset, length, ReplyView::Data(data)) matches Err(
            e,
        ) && e is Io),
        storage.finished(offset, length, ReplyView::Unreadable(detail)) matches Err(e) && e is Io,
        storage.finished(offset, length, ReplyView::Failed(detail)) matches Err(e) && e is Io,
{
}

/// A reply is taken as it came: the bytes of its data, or the text of its failure.
pub proof fn a_reply_is_taken_as_it_came(data: bytes::Bytes, detail: String)
    ensures
        storage::reply_view(Ok(Ok(data))) == ReplyView::Data(external::bytes_contents(data)),
        storage::reply_view(Ok(Err(detail))) == ReplyView::Unreadable(detail@),
        storage::reply_view(Err(detail)) == ReplyView::Failed(detail@),
{
}

/// An empty read succeeds with no data, whatever the backend would have replied, and any other
/// read is decided by the reply.
pub proof fn only_the_reply_decides<S, A, L>(
    storage: Storage<S, A, L>,
    offset: u64,
    length: u64,
    reply: ReplyView,
)
    ensures
        length == 0 ==> storage.read_with(offset, length, reply) == Ok::<Seq<u8>, ErrorView>(
            Seq::empty(),
        ),
        length > 0 ==> storage.read_with(offset, length, reply) == storage.finished(
            offset,
            length,
            reply,
        ),
{
}

} // verus!
