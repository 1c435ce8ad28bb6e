//! What holds of text: cutting, trimming, and decimal numbers.

use vstd::prelude::*;

use crate::text;

verus! {

/// Every character of `s` is white space.
pub open spec fn is_blank(s: Seq<char>) -> bool {
    forall|i: int| 0 <= i < s.len() ==> text::white_space(#[trigger] s[i])
}

/// `s` neither begins nor ends with white space.
pub open spec fn is_bare(s: Seq<char>) -> bool {
    s.len() == 0 || (!text::white_space(s[0]) && !text::white_space(s[s.len() - 1]))
}

/// A text is cut at its first `c` and nowhere else: what stands before it holds no `c`, the two
/// parts with the `c` between them make up the text, and only a text without a `c` is not cut.
pub proof fn a_cut_is_at_the_first(s: Seq<char>, c: char)
    ensures
        match text::cut_first(s, c) {
            Some((head, tail)) => s == head + seq![c] + tail && !head.contains(c),
            None => !s.contains(c),
        },
{
    text::lemma_first_at_splits(s, c);
    if let Some((head, tail)) = text::cut_first(s, c) {
        assert(s =~= head + seq![c] + tail);
        assert forall|j: int| 0 <= j < head.len() implies head[j] != c by {
            assert(head[j] == s[j]);
        }
    }
}

/// What is joined by a `c` is cut apart again, where the first part holds no `c`.
pub proof fn what_is_joined_is_cut_apart(head: Seq<char>, c: char, tail: Seq<char>)
    requires
        !head.contains(c),
    ensures
        text::cut_first(head + seq![c] + tail, c) == Some((head, tail)),
{
    let s = head + seq![c] + tail;
    assert forall|j: int| 0 <= j < head.len() implies s[j] != c by {
        assert(s[j] == head[j]);
        assert(head.contains(head[j]));
    }
    assert(s[head.len() as int] == c);
    text::lemma_first_at(s, c, head.len() as int);
    assert(s.take(head.len() as int) =~= head);
    assert(s.skip(head.len() as int + 1) =~= tail);
}

/// A text is cut at its last `c` likewise: what stands after it holds no `c`.
pub proof fn a_cut_is_at_the_last(s: Seq<char>, c: char)
    ensures
        match text::cut_last(s, c) {
            Some((head, tail)) => s == head + seq![c] + tail && !tail.contains(c),
            None => !s.contains(c),
        },
    decreases s.len(),
{
    if s.len() == 0 {
    } else if s.last() == c {
        assert(text::last_end(s, c) == s.len());
        assert(s =~= s.take(s.len() - 1) + seq![c] + s.skip(s.len() as int));
    } else {
        let rest = s.drop_last();
        a_cut_is_at_the_last(rest, c);
        assert(text::last_end(s, c) == text::last_end(rest, c));
        match text::cut_last(rest, c) {
            Some((head, tail)) => {
                let n = text::last_end(s, c) as int;
                assert(rest == head + seq![c] + tail);
                assert(rest.len() == head.len() + 1 + tail.len());
                assert(n <= rest.len()) by {
                    assert(tail.len() <= rest.len());
                    lemma_last_end_inside(rest, c);
                }
                assert(s.take(n - 1) =~= head);
                assert(s.skip(n) =~= tail.push(s.last()));
                assert(s =~= rest.push(s.last()));
                assert(s =~= head + seq![c] + tail.push(s.last()));
                assert forall|j: int| 0 <= j < s.skip(n).len() implies s.skip(n)[j] != c by {
                    if j < tail.len() {
                        assert(s.skip(n)[j] == tail[j]);
                        assert(tail.contains(tail[j]));
                    }
                }
            },
            None => {
                assert(text::last_end(s, c) == 0);
                assert forall|j: int| 0 <= j < s.len() implies s[j] != c by {
                    if j < rest.len() {
                        assert(s[j] == rest[j]);
                        assert(rest.contains(rest[j]));
                    }
                }
            },
        }
    }
}

/// The last `c` stands in the text.
proof fn lemma_last_end_inside(s: Seq<char>, c: char)
    ensures
        text::last_end(s, c) <= s.len(),
    decreases s.len(),
{
    if s.len() > 0 && s.last() != c {
        lemma_last_end_inside(s.drop_last(), c);
    }
}

/// What is joined by a `c` is cut apart at the last `c`, where the second part holds none.
pub proof fn what_is_joined_is_cut_apart_at_the_last(head: Seq<char>, c: char, tail: Seq<char>)
    requires
        !tail.contains(c),
    ensures
        text::cut_last(head + seq![c] + tail, c) == Some((head, tail)),
{
    let s = head + seq![c] + tail;
    let n = head.len() as int + 1;
    assert forall|j: int| n <= j < s.len() implies s[j] != c by {
        assert(s[j] == tail[j - n]);
        assert(tail.contains(tail[j - n]));
    }
    assert(s[n - 1] == c);
    text::lemma_last_end(s, c, n);
    assert(s.take(n - 1) =~= head);
    assert(s.skip(n) =~= tail);
}

/// A prefix that is put before a text is taken off again, and what a prefix is taken off begins
/// with it.
pub proof fn a_prefix_comes_off(prefix: Seq<char>, rest: Seq<char>, s: Seq<char>)
    ensures
        text::after_prefix(prefix + rest, prefix) == Some(rest),
        text::after_prefix(s, prefix) == Some(rest) ==> s == prefix + rest,
        text::after_prefix(s, prefix) is None ==> s != prefix + rest,
{
    let all = prefix + rest;
    assert(all.subrange(0, prefix.len() as int) =~= prefix);
    assert(all.skip(prefix.len() as int) =~= rest);
    if text::after_prefix(s, prefix) == Some(rest) {
        assert(s =~= s.subrange(0, prefix.len() as int) + s.skip(prefix.len() as int));
    }
}

/// White space around a text comes off, and nothing else does.
pub proof fn only_the_space_around_comes_off(
    before: Seq<char>,
    middle: Seq<char>,
    after: Seq<char>,
)
    requires
        is_blank(before),
        is_bare(middle),
        is_blank(after),
    ensures
        text::trimmed(before + middle + after) == middle,
{
    let s = before + middle + after;
    let i = before.len() as int;
    assert forall|j: int| 0 <= j < i implies text::white_space(s[j]) by {
        assert(s[j] == before[j]);
    }
    if middle.len() == 0 {
        assert forall|j: int| 0 <= j < s.len() implies text::white_space(s[j]) by {
            if j >= i {
                assert(s[j] == after[j - i]);
            }
        }
        text::lemma_without_leading(s, s.len() as int);
        assert(s.skip(s.len() as int) =~= Seq::<char>::empty());
        assert(middle =~= Seq::<char>::empty());
    } else {
        assert(s[i] == middle[0]);
        text::lemma_without_leading(s, i);
        let rest = s.skip(i);
        let n = middle.len() as int;
        assert forall|j: int| n <= j < rest.len() implies text::white_space(rest[j]) by {
            assert(rest[j] == after[j - n]);
        }
        assert(rest[n - 1] == middle[n - 1]);
        text::lemma_without_trailing(rest, n);
        assert(rest.take(n) =~= middle);
    }
}

/// The digits are the characters from `0` to `9`.
proof fn lemma_digit(c: char)
    ensures
        text::is_digit(c) <==> '0' as int <= c as int <= '9' as int,
{
}

/// One digit spells its value.
pub proof fn a_digit_spells_its_value(c: char)
    requires
        '0' as int <= c as int <= '9' as int,
    ensures
        text::unsigned(seq![c]) matches Some(n) && n == c as int - '0' as int,
{
    reveal_with_fuel(text::decimal_value, 2);
    assert(seq![c].drop_last() =~= Seq::<char>::empty());
    assert(text::decimal_value(seq![c]) == (c as u32 - '0' as u32) as nat);
}

/// A digit more behind a number makes ten times the number and the digit, unless that takes more
/// than 64 bits; what spells too large a number stays too large.
pub proof fn a_digit_more_makes_ten_times_the_number(s: Seq<char>, c: char)
    requires
        '0' as int <= c as int <= '9' as int,
    ensures
        text::unsigned(s) matches Some(n) ==> if 10 * n + (c as int - '0' as int) <= u64::MAX {
            text::unsigned(s.push(c)) matches Some(m) && m == 10 * n + (c as int - '0' as int)
        } else {
            text::unsigned(s.push(c)) is None
        },
        text::unsigned(s) is None && s.len() > 0 && '0' as int <= s[s.len() - 1] as int
            <= '9' as int ==> text::unsigned(s.push(c)) is None,
{
    let t = s.push(c);
    if s.len() > 0 {
        let plus = s[0] == '+';
        let a = if plus {
            s.skip(1)
        } else {
            s
        };
        let b = if plus {
            t.skip(1)
        } else {
            t
        };
        assert(t[0] == s[0]);
        assert(b =~= a.push(c));
        assert(b.drop_last() =~= a);
        assert(text::decimal_value(b) == 10 * text::decimal_value(a) + (c as u32 - '0' as u32) as nat);
        if text::all_digits(b) {
            assert forall|i: int| 0 <= i < a.len() implies text::is_digit(#[trigger] a[i]) by {
                assert(a[i] == b[i]);
            }
        }
        if text::all_digits(a) {
            assert forall|i: int| 0 <= i < b.len() implies text::is_digit(#[trigger] b[i]) by {
                if i < a.len() {
                    assert(b[i] == a[i]);
                }
            }
        }
        if text::unsigned(s) is None && '0' as int <= s[s.len() - 1] as int <= '9' as int {
            assert(a.len() > 0);
        }
    }
}

/// A plus sign before a number changes nothing.
pub proof fn a_plus_sign_changes_nothing(s: Seq<char>)
    requires
        s.len() == 0 || s[0] != '+',
    ensures
        text::unsigned(seq!['+'] + s) == text::unsigned(s),
{
    assert((seq!['+'] + s).skip(1) =~= s);
}

/// A number is spelled by digits alone, but for a plus sign before them, and by one digit at least.
pub proof fn only_digits_spell_a_number(s: Seq<char>, i: int)
    requires
        text::unsigned(s) is Some,
    ensures
        s.len() > 0,
        '0' as int <= s[s.len() - 1] as int <= '9' as int,
        0 <= i < s.len() ==> '0' as int <= s[i] as int <= '9' as int || (i == 0 && s[i] == '+'),
{
    let plus = s.len() > 0 && s[0] == '+';
    let digits = if plus {
        s.skip(1)
    } else {
        s
    };
    assert(text::is_digit(digits[digits.len() - 1]));
    assert(digits[digits.len() - 1] == s[s.len() - 1]);
    lemma_digit(s[s.len() - 1]);
    if 0 <= i < s.len() {
        lemma_digit(s[i]);
        if plus {
            if i > 0 {
                assert(text::is_digit(digits[i - 1]));
            }
        } else {
            assert(text::is_digit(digits[i]));
        }
    }
}

/// A number is written with its last digit behind the digits of a tenth of it, and a number below
/// ten as the one digit that it is.
pub proof fn a_number_is_written_digit_by_digit(n: nat, d: nat)
    requires
        d < 10,
    ensures
        text::decimal(d).len() == 1,
        text::decimal(d)[0] as int == '0' as int + d,
        n > 0 ==> text::decimal(10 * n + d) == text::decimal(n) + text::decimal(d),
{
    if n > 0 {
        let m = 10 * n + d;
        assert(m / 10 == n && m % 10 == d);
        assert(text::decimal(m) =~= text::decimal(n) + text::decimal(d));
    }
}

/// Writing a number and reading it back gives the number.
pub proof fn a_written_number_is_read_back(n: u64)
    ensures
        text::unsigned(text::decimal(n as nat)) == Some(n),
{
    text::lemma_unsigned_decimal(n);
}

} // verus!
