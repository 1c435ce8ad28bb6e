//! Text as the storage layer reads and writes it: cutting a string at a character or a
//! prefix, trimming it, and decimal numbers in both directions.
//!
//! A string is modelled by its characters, `Seq<char>`.

use vstd::prelude::*;

verus! {

/// The text that an optional string holds.
pub open spec fn text_of(s: Option<String>) -> Option<Seq<char>> {
    match s {
        Some(s) => Some(s@),
        None => None,
    }
}

/// The text that an optional string slice holds.
pub open spec fn text_of_ref(s: Option<&str>) -> Option<Seq<char>> {
    match s {
        Some(s) => Some(s@),
        None => None,
    }
}

/// How many characters of `s` come before the first `c`; all of them when `c` does not occur.
pub open spec fn first_at(s: Seq<char>, c: char) -> nat
    decreases s.len(),
{
    if s.len() == 0 || s[0] == c {
        0
    } else {
        1 + first_at(s.skip(1), c)
    }
}

/// How many characters of `s` there are up to and including the last `c`; none when `c` does
/// not occur.
pub open spec fn last_end(s: Seq<char>, c: char) -> nat
    decreases s.len(),
{
    if s.len() == 0 || s.last() == c {
        s.len()
    } else {
        last_end(s.drop_last(), c)
    }
}

/// `s` cut at its first `c`: what stands before it and what stands after it.
pub open spec fn cut_first(s: Seq<char>, c: char) -> Option<(Seq<char>, Seq<char>)> {
    let i = first_at(s, c) as int;
    if i < s.len() {
        Some((s.take(i), s.skip(i + 1)))
    } else {
        None
    }
}

/// `s` cut at its last `c`: what stands before it and what stands after it.
pub open spec fn cut_last(s: Seq<char>, c: char) -> Option<(Seq<char>, Seq<char>)> {
    let n = last_end(s, c) as int;
    if n > 0 {
        Some((s.take(n - 1), s.skip(n)))
    } else {
        None
    }
}

/// What stands in `s` after `prefix`, where `s` begins with it.
pub open spec fn after_prefix(s: Seq<char>, prefix: Seq<char>) -> Option<Seq<char>> {
    if prefix.is_prefix_of(s) {
        Some(s.skip(prefix.len() as int))
    } else {
        None
    }
}

/// `c`, in lower case where it is an ASCII letter.
pub open spec fn ascii_lower(c: char) -> char {
    if 'A' as u32 <= c as u32 <= 'Z' as u32 {
        (c as u32 + 0x20) as char
    } else {
        c
    }
}

/// `s` with its ASCII letters in lower case.
pub open spec fn ascii_lowercase(s: Seq<char>) -> Seq<char> {
    s.map_values(|c: char| ascii_lower(c))
}

/// The characters with the Unicode property `White_Space`.
pub open spec fn white_space(c: char) -> bool {
    let n = c as u32;
    ||| 0x9 <= n <= 0xd
    ||| n == 0x20
    ||| n == 0x85
    ||| n == 0xa0
    ||| n == 0x1680
    ||| 0x2000 <= n <= 0x200a
    ||| n == 0x2028
    ||| n == 0x2029
    ||| n == 0x202f
    ||| n == 0x205f
    ||| n == 0x3000
}

/// `s` without the white space at its start.
pub open spec fn without_leading(s: Seq<char>) -> Seq<char>
    decreases s.len(),
{
    if s.len() > 0 && white_space(s[0]) {
        without_leading(s.skip(1))
    } else {
        s
    }
}

/// `s` without the white space at its end.
pub open spec fn without_trailing(s: Seq<char>) -> Seq<char>
    decreases s.len(),
{
    if s.len() > 0 && white_space(s.last()) {
        without_trailing(s.drop_last())
    } else {
        s
    }
}

/// `s` without the white space around it.
pub open spec fn trimmed(s: Seq<char>) -> Seq<char> {
    without_trailing(without_leading(s))
}

/// An ASCII digit.
pub open spec fn is_digit(c: char) -> bool {
    '0' as u32 <= c as u32 <= '9' as u32
}

/// Every character of `s` is an ASCII digit.
pub open spec fn all_digits(s: Seq<char>) -> bool {
    forall|i: int| 0 <= i < s.len() ==> is_digit(#[trigger] s[i])
}

/// The digit that stands for `d`.
pub open spec fn digit(d: nat) -> char {
    ('0' as u32 + d) as char
}

/// The number that the digits of `s` spell in base ten.
pub open spec fn decimal_value(s: Seq<char>) -> nat
    decreases s.len(),
{
    if s.len() == 0 {
        0
    } else {
        10 * decimal_value(s.drop_last()) + (s.last() as u32 - '0' as u32) as nat
    }
}

/// `n` in base ten, without leading zeros.
pub open spec fn decimal(n: nat) -> Seq<char>
    decreases n,
{
    if n < 10 {
        seq![digit(n)]
    } else {
        decimal(n / 10).push(digit(n % 10))
    }
}

/// The number that `s` spells: at least one digit, perhaps behind a plus sign, and a value
/// that fits in 64 bits.
pub open spec fn unsigned(s: Seq<char>) -> Option<u64> {
    let digits = if s.len() > 0 && s[0] == '+' {
        s.skip(1)
    } else {
        s
    };
    if digits.len() > 0 && all_digits(digits) && decimal_value(digits) <= u64::MAX {
        Some(decimal_value(digits) as u64)
    } else {
        None
    }
}

/// `first_at` is the one position with no `c` before it and a `c`, or the end, at it.
pub proof fn lemma_first_at(s: Seq<char>, c: char, i: int)
    requires
        0 <= i <= s.len(),
        forall|j: int| 0 <= j < i ==> s[j] != c,
        i < s.len() ==> s[i] == c,
    ensures
        first_at(s, c) == i,
    decreases s.len(),
{
    if i > 0 {
        lemma_first_at(s.skip(1), c, i - 1);
    }
}

/// Nothing before `first_at` is a `c`, and what stands there, short of the end, is one.
pub proof fn lemma_first_at_splits(s: Seq<char>, c: char)
    ensures
        first_at(s, c) <= s.len(),
        forall|j: int| 0 <= j < first_at(s, c) ==> s[j] != c,
        first_at(s, c) < s.len() ==> s[first_at(s, c) as int] == c,
    decreases s.len(),
{
    if s.len() > 0 && s[0] != c {
        let rest = s.skip(1);
        lemma_first_at_splits(rest, c);
        assert forall|j: int| 0 <= j < first_at(s, c) implies s[j] != c by {
            if j > 0 {
                assert(s[j] == rest[j - 1]);
            }
        }
    }
}

/// `last_end` is the one position with a `c`, or the start, before it and no `c` from it on.
pub proof fn lemma_last_end(s: Seq<char>, c: char, n: int)
    requires
        0 <= n <= s.len(),
        forall|j: int| n <= j < s.len() ==> s[j] != c,
        n > 0 ==> s[n - 1] == c,
    ensures
        last_end(s, c) == n,
    decreases s.len(),
{
    if n < s.len() {
        lemma_last_end(s.drop_last(), c, n);
    }
}

/// Writing a number in base ten and reading it back gives the number.
pub proof fn lemma_decimal_value(n: nat)
    ensures
        decimal(n).len() > 0,
        all_digits(decimal(n)),
        decimal_value(decimal(n)) == n,
    decreases n,
{
    let s = decimal(n);
    if n < 10 {
        assert(s.drop_last() =~= Seq::<char>::empty());
        reveal_with_fuel(decimal_value, 2);
    } else {
        lemma_decimal_value(n / 10);
        assert(s.drop_last() =~= decimal(n / 10));
    }
}

/// The digits of a number spell it.
pub proof fn lemma_unsigned_decimal(n: u64)
    ensures
        unsigned(decimal(n as nat)) == Some(n),
{
    lemma_decimal_value(n as nat);
    assert(is_digit(decimal(n as nat)[0]));
}

/// A number in base ten has no white space around it.
pub proof fn lemma_decimal_trimmed(n: nat)
    ensures
        trimmed(decimal(n)) == decimal(n),
{
    lemma_decimal_value(n);
    assert(is_digit(decimal(n)[0]));
    assert(is_digit(decimal(n).last()));
}

/// Reading on never makes the value smaller.
pub proof fn lemma_decimal_value_grows(s: Seq<char>, i: int)
    requires
        0 <= i <= s.len(),
    ensures
        decimal_value(s.take(i)) <= decimal_value(s),
    decreases s.len(),
{
    if i == s.len() {
        assert(s.take(i) =~= s);
    } else {
        assert(s.drop_last().take(i) =~= s.take(i));
        lemma_decimal_value_grows(s.drop_last(), i);
    }
}

/// Whether `a` and `b` hold the same text.
pub fn same(a: &str, b: &str) -> (r: bool)
    ensures
        r == (a@ == b@),
{
    let r = a.unicode_len() == b.unicode_len() && starts_with(a, b);
    proof {
        if r {
            assert(a@.subrange(0, b@.len() as int) =~= a@);
        }
    }
    r
}

/// Whether `s` begins with `prefix`.
pub fn starts_with(s: &str, prefix: &str) -> (r: bool)
    ensures
        r == prefix@.is_prefix_of(s@),
{
    let mut rest = s.chars();
    for p in it: prefix.chars()
        invariant
            it.seq() == prefix@,
            it.index() <= s@.len(),
            vstd::std_specs::iter::IteratorSpec::remaining(&rest) == s@.skip(it.index()),
            prefix@.take(it.index()) == s@.take(it.index()),
    {
        match rest.next() {
            Some(c) => {
                if c != p {
                    return false;
                }
            },
            None => {
                return false;
            },
        }
    }
    true
}

/// `c`, in lower case where it is an ASCII letter.
fn to_ascii_lower(c: char) -> (r: char)
    ensures
        r == ascii_lower(c),
{
    let n: u32 = c as u32;
    if 0x41 <= n && n <= 0x5a {
        (n as u8 + 0x20) as char
    } else {
        c
    }
}

/// An ASCII capital stands 32 characters before its small letter; nothing else is moved.
pub proof fn lemma_ascii_lower(c: char)
    ensures
        ascii_lower(c) as int == if 'A' as int <= c as int <= 'Z' as int {
            c as int + 0x20
        } else {
            c as int
        },
{
}

/// Whether `s`, with its ASCII letters in lower case, begins with `prefix`.
pub fn starts_with_in_any_case(s: &str, prefix: &str) -> (r: bool)
    ensures
        r == prefix@.is_prefix_of(ascii_lowercase(s@)),
        r <==> prefix@.len() <= s@.len() && forall|j: int|
            0 <= j < prefix@.len() ==> (#[trigger] prefix@[j]) as int == if 'A' as int <= s@[j] as int
                <= 'Z' as int {
                s@[j] as int + 0x20
            } else {
                s@[j] as int
            },
{
    let ghost lower = ascii_lowercase(s@);
    let mut rest = s.chars();
    for p in it: prefix.chars()
        invariant
            it.seq() == prefix@,
            it.index() <= s@.len(),
            lower == ascii_lowercase(s@),
            vstd::std_specs::iter::IteratorSpec::remaining(&rest) == s@.skip(it.index()),
            prefix@.take(it.index()) == lower.take(it.index()),
            forall|j: int|
                0 <= j < it.index() ==> #[trigger] prefix@[j] == ascii_lower(s@[j]),
    {
        let ghost i = it.index();
        match rest.next() {
            Some(c) => {
                assert(c == s@[i] && p == prefix@[i]);
                proof {
                    lemma_ascii_lower(c);
                }
                if to_ascii_lower(c) != p {
                    return false;
                }
            },
            None => {
                return false;
            },
        }
    }
    proof {
        assert forall|j: int| 0 <= j < prefix@.len() implies #[trigger] prefix@[j] as int == if 'A' as int
            <= s@[j] as int <= 'Z' as int {
            s@[j] as int + 0x20
        } else {
            s@[j] as int
        } by {
            lemma_ascii_lower(s@[j]);
        }
    }
    true
}

/// Whether `s` ends with `suffix`.
pub fn ends_with(s: &str, suffix: &str) -> (r: bool)
    ensures
        r == suffix@.is_suffix_of(s@),
{
    let n: usize = s.unicode_len();
    let m: usize = suffix.unicode_len();
    m <= n && same(s.substring_char(n - m, n), suffix)
}

/// What follows `prefix` in `s`, if `s` begins with it.
pub fn strip_prefix<'a>(s: &'a str, prefix: &str) -> (r: Option<&'a str>)
    ensures
        match r {
            Some(rest) => after_prefix(s@, prefix@) == Some(rest@),
            None => after_prefix(s@, prefix@) is None,
        },
        match r {
            Some(rest) => s@ == prefix@ + rest@,
            None => !prefix@.is_prefix_of(s@),
        },
{
    if starts_with(s, prefix) {
        Some(s.substring_char(prefix.unicode_len(), s.unicode_len()))
    } else {
        None
    }
}

/// The text before and after the first `c` in `s`, if there is one.
pub fn split_once<'a>(s: &'a str, c: char) -> (r: Option<(&'a str, &'a str)>)
    ensures
        match r {
            Some((head, tail)) => cut_first(s@, c) == Some((head@, tail@)),
            None => cut_first(s@, c) is None,
        },
        match r {
            Some((head, tail)) => s@ == head@ + seq![c] + tail@ && !head@.contains(c),
            None => !s@.contains(c),
        },
{
    let n: usize = s.unicode_len();
    let mut i: usize = 0;
    for x in it: s.chars()
        invariant
            it.seq() == s@,
            i == it.index(),
            n == s@.len(),
            forall|j: int| 0 <= j < i ==> s@[j] != c,
    {
        if x == c {
            proof {
                lemma_first_at(s@, c, i as int);
            }
            return Some((s.substring_char(0, i), s.substring_char(i + 1, n)));
        }
        i = i + 1;
    }
    proof {
        lemma_first_at(s@, c, s@.len() as int);
    }
    None
}

/// The text before and after the last `c` in `s`, if there is one.
pub fn rsplit_once<'a>(s: &'a str, c: char) -> (r: Option<(&'a str, &'a str)>)
    ensures
        match r {
            Some((head, tail)) => cut_last(s@, c) == Some((head@, tail@)),
            None => cut_last(s@, c) is None,
        },
        match r {
            Some((head, tail)) => s@ == head@ + seq![c] + tail@ && !tail@.contains(c),
            None => !s@.contains(c),
        },
{
    let n: usize = s.unicode_len();
    let mut i: usize = 0;
    let mut end: usize = 0;
    for x in it: s.chars()
        invariant
            it.seq() == s@,
            i == it.index(),
            n == s@.len(),
            end <= i,
            end > 0 ==> s@[end - 1] == c,
            forall|j: int| end <= j < i ==> s@[j] != c,
    {
        i = i + 1;
        if x == c {
            end = i;
        }
    }
    proof {
        lemma_last_end(s@, c, end as int);
    }
    if end > 0 {
        Some((s.substring_char(0, end - 1), s.substring_char(end, n)))
    } else {
        None
    }
}

/// Whether `c` has the Unicode property `White_Space`.
pub fn is_white_space(c: char) -> (r: bool)
    ensures
        r == white_space(c),
{
    let n: u32 = c as u32;
    (0x9 <= n && n <= 0xd) || n == 0x20 || n == 0x85 || n == 0xa0 || n == 0x1680 || (0x2000 <= n
        && n <= 0x200a) || n == 0x2028 || n == 0x2029 || n == 0x202f || n == 0x205f || n == 0x3000
}

/// `without_leading` cuts off exactly the white space before position `i`.
pub proof fn lemma_without_leading(s: Seq<char>, i: int)
    requires
        0 <= i <= s.len(),
        forall|j: int| 0 <= j < i ==> white_space(s[j]),
        i < s.len() ==> !white_space(s[i]),
    ensures
        without_leading(s) == s.skip(i),
    decreases s.len(),
{
    if i > 0 {
        lemma_without_leading(s.skip(1), i - 1);
        assert(s.skip(1).skip(i - 1) =~= s.skip(i));
    } else {
        assert(s.skip(0) =~= s);
    }
}

/// `without_trailing` cuts off exactly the white space from position `n` on.
pub proof fn lemma_without_trailing(s: Seq<char>, n: int)
    requires
        0 <= n <= s.len(),
        forall|j: int| n <= j < s.len() ==> white_space(s[j]),
        n > 0 ==> !white_space(s[n - 1]),
    ensures
        without_trailing(s) == s.take(n),
    decreases s.len(),
{
    if n < s.len() {
        lemma_without_trailing(s.drop_last(), n);
        assert(s.drop_last().take(n) =~= s.take(n));
    } else {
        assert(s.take(n) =~= s);
    }
}

/// `s` without the white space around it.
pub fn trim<'a>(s: &'a str) -> (r: &'a str)
    ensures
        r@ == trimmed(s@),
{
    let n: usize = s.unicode_len();
    let mut i: usize = 0;
    let mut start: usize = 0;
    let mut end: usize = 0;
    for x in it: s.chars()
        invariant
            it.seq() == s@,
            i == it.index(),
            n == s@.len(),
            start <= end <= i,
            forall|j: int| 0 <= j < start ==> white_space(s@[j]),
            forall|j: int| end <= j < i ==> white_space(s@[j]),
            start < end ==> !white_space(s@[start as int]) && !white_space(s@[end - 1]),
            start == end ==> start == 0 && end == 0,
    {
        let blank = is_white_space(x);
        if !blank {
            if start == end {
                start = i;
            }
            end = i + 1;
        }
        i = i + 1;
    }
    proof {
        if start == end {
            lemma_without_leading(s@, n as int);
            assert(s@.skip(n as int) =~= Seq::<char>::empty());
        } else {
            lemma_without_leading(s@, start as int);
            lemma_without_trailing(s@.skip(start as int), end - start);
        }
        assert(trimmed(s@) =~= s@.subrange(start as int, end as int));
    }
    s.substring_char(start, end)
}

/// The number that `s` spells in base ten, perhaps behind a plus sign, if it fits in 64 bits.
pub fn parse_unsigned(s: &str) -> (r: Option<u64>)
    ensures
        r == unsigned(s@),
{
    let digits = match strip_prefix(s, "+") {
        Some(rest) => rest,
        None => s,
    };
    proof {
        reveal_strlit("+");
        assert("+"@ =~= seq!['+']);
        assert(s@.len() > 0 ==> s@.subrange(0, 1)[0] == s@[0]);
        assert("+"@.is_prefix_of(s@) <==> s@.len() > 0 && s@[0] == '+');
        assert(digits@ == if s@.len() > 0 && s@[0] == '+' {
            s@.skip(1)
        } else {
            s@
        });
    }
    if digits.is_empty() {
        return None;
    }
    let mut value: u64 = 0;
    for x in it: digits.chars()
        invariant
            it.seq() == digits@,
            all_digits(digits@.take(it.index())),
            value == decimal_value(digits@.take(it.index())),
            digits@.len() > 0,
            digits@ == if s@.len() > 0 && s@[0] == '+' {
                s@.skip(1)
            } else {
                s@
            },
    {
        let ghost i = it.index();
        let n: u32 = x as u32;
        if n < 0x30 || 0x39 < n {
            assert(!is_digit(digits@[i]));
            return None;
        }
        let d: u64 = (n - 0x30) as u64;
        proof {
            assert(digits@.take(i + 1).drop_last() =~= digits@.take(i));
            assert(digits@.take(i + 1).last() == x);
            lemma_decimal_value_grows(digits@, i + 1);
        }
        if value > (u64::MAX - d) / 10 {
            return None;
        }
        value = 10 * value + d;
    }
    assert(digits@.take(digits@.len() as int) =~= digits@);
    Some(value)
}

/// The digit that stands for `d`, as text.
fn digit_text(d: u64) -> (r: &'static str)
    requires
        d < 10,
    ensures
        r@ == seq![digit(d as nat)],
{
    proof {
        reveal_strlit("0");
        reveal_strlit("1");
        reveal_strlit("2");
        reveal_strlit("3");
        reveal_strlit("4");
        reveal_strlit("5");
        reveal_strlit("6");
        reveal_strlit("7");
        reveal_strlit("8");
        reveal_strlit("9");
    }
    let r = match d {
        0 => "0",
        1 => "1",
        2 => "2",
        3 => "3",
        4 => "4",
        5 => "5",
        6 => "6",
        7 => "7",
        8 => "8",
        _ => "9",
    };
    assert(r@ =~= seq![digit(d as nat)]);
    r
}

/// Appends `n` in base ten to `out`.
pub fn push_decimal(out: &mut String, n: u64)
    ensures
        final(out)@ == old(out)@ + decimal(n as nat),
    decreases n,
{
    if n >= 10 {
        push_decimal(out, n / 10);
    }
    out.append(digit_text(n % 10));
    assert(out@ =~= old(out)@ + decimal(n as nat));
}

} // verus!
