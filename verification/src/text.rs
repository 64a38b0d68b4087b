//! Small verified operations on text, stated over sequences of characters.

use vstd::prelude::*;
use vstd::string::StrSliceExecFns;
use vstd::string::StringExecFns;

verus! {

/// What is left of `s` once a leading `prefix` is taken away; `s` itself
/// when it does not begin with `prefix`.
pub open spec fn stripped(s: Seq<char>, prefix: Seq<char>) -> Seq<char> {
    if prefix.is_prefix_of(s) {
        s.skip(prefix.len() as int)
    } else {
        s
    }
}

/// Position `i` holds the first `c` of `s`.
pub open spec fn first_at(s: Seq<char>, c: char, i: int) -> bool {
    &&& 0 <= i < s.len()
    &&& s[i] == c
    &&& forall|j: int| 0 <= j < i ==> s[j] != c
}

/// The position of the first `c` in `s`; meaningful when `s` holds `c`.
pub open spec fn first_index(s: Seq<char>, c: char) -> int {
    choose|i: int| first_at(s, c, i)
}

/// The two halves of `s` around the first occurrence of `c`, if there is one.
pub open spec fn halves(s: Seq<char>, c: char) -> Option<(Seq<char>, Seq<char>)> {
    if s.contains(c) {
        let i = first_index(s, c);
        Some((s.take(i), s.skip(i + 1)))
    } else {
        None
    }
}

/// A text has at most one first occurrence of a character, and
/// `first_index` names it.
pub proof fn first_occurrence_is_index(s: Seq<char>, c: char, i: int)
    requires
        first_at(s, c, i),
    ensures
        s.contains(c),
        first_index(s, c) == i,
{
    let k = first_index(s, c);
    assert(first_at(s, c, k));
    if k < i {
        assert(s[k] != c);
    }
    if i < k {
        assert(s[i] != c);
    }
}

/// Reports whether `c` occurs in `s`.
pub fn contains_char(s: &str, c: char) -> (found: bool)
    ensures
        found == s@.contains(c),
{
    let n: usize = s.unicode_len();
    let mut i: usize = 0;
    while i < n
        invariant
            n == s@.len(),
            i <= n,
            forall|j: int| 0 <= j < i ==> s@[j] != c,
        decreases n - i,
    {
        if s.get_char(i) == c {
            assert(s@.contains(c));
            return true;
        }
        i = i + 1;
    }
    false
}

/// Reports whether the two texts hold the same characters.
pub fn same_text(a: &str, b: &str) -> (same: bool)
    ensures
        same == (a@ == b@),
{
    let n: usize = a.unicode_len();
    if b.unicode_len() != n {
        return false;
    }
    let mut i: usize = 0;
    while i < n
        invariant
            n == a@.len(),
            n == b@.len(),
            i <= n,
            forall|j: int| 0 <= j < i ==> a@[j] == b@[j],
        decreases n - i,
    {
        if a.get_char(i) != b.get_char(i) {
            return false;
        }
        i = i + 1;
    }
    assert(a@ =~= b@);
    true
}

/// Reports whether `s` begins with `prefix`.
pub fn starts_with(s: &str, prefix: &str) -> (yes: bool)
    ensures
        yes == prefix@.is_prefix_of(s@),
{
    let n: usize = prefix.unicode_len();
    if s.unicode_len() < n {
        return false;
    }
    let mut i: usize = 0;
    while i < n
        invariant
            n == prefix@.len(),
            n <= s@.len(),
            i <= n,
            forall|j: int| 0 <= j < i ==> prefix@[j] == s@[j],
        decreases n - i,
    {
        if prefix.get_char(i) != s.get_char(i) {
            assert(s@.subrange(0, n as int)[i as int] == s@[i as int]);
            return false;
        }
        i = i + 1;
    }
    assert(prefix@ =~= s@.subrange(0, n as int));
    true
}

/// An owned copy of `s`.
pub fn owned(s: &str) -> (copy: String)
    ensures
        copy@ == s@,
{
    String::from_str(s)
}

/// The text from position `from` to the end.
pub fn tail_from(s: &str, from: usize) -> (tail: String)
    requires
        from <= s@.len(),
    ensures
        tail@ == s@.skip(from as int),
{
    let n: usize = s.unicode_len();
    let part = s.substring_char(from, n);
    assert(s@.subrange(from as int, n as int) =~= s@.skip(from as int));
    String::from_str(part)
}

/// The text before position `to`.
pub fn head_to(s: &str, to: usize) -> (head: String)
    requires
        to <= s@.len(),
    ensures
        head@ == s@.take(to as int),
{
    let part = s.substring_char(0, to);
    assert(s@.subrange(0, to as int) =~= s@.take(to as int));
    String::from_str(part)
}

/// `s` without a leading `prefix`, or `s` unchanged when it has none.
pub fn without_prefix(s: &str, prefix: &str) -> (rest: String)
    ensures
        rest@ == stripped(s@, prefix@),
{
    if starts_with(s, prefix) {
        let k: usize = prefix.unicode_len();
        tail_from(s, k)
    } else {
        String::from_str(s)
    }
}

/// The two texts one after the other.
pub fn joined(a: &str, b: &str) -> (both: String)
    ensures
        both@ == a@ + b@,
{
    let mut out = String::from_str(a);
    out.append(b);
    out
}

/// Cuts `s` at the first `c`: the text before it and the text after it.
pub fn split_once(s: &str, c: char) -> (parts: Option<(String, String)>)
    ensures
        match parts {
            Some((before, after)) => halves(s@, c) == Some((before@, after@)),
            None => halves(s@, c) is None,
        },
{
    let n: usize = s.unicode_len();
    let mut i: usize = 0;
    while i < n
        invariant
            n == s@.len(),
            i <= n,
            forall|j: int| 0 <= j < i ==> s@[j] != c,
        decreases n - i,
    {
        if s.get_char(i) == c {
            proof {
                first_occurrence_is_index(s@, c, i as int);
            }
            let before = head_to(s, i);
            let after = tail_from(s, i + 1);
            return Some((before, after));
        }
        i = i + 1;
    }
    None
}

/// A decimal digit of ASCII.
pub open spec fn is_digit(c: char) -> bool {
    '0' <= c && c <= '9'
}

/// Every character of `s` is a decimal digit of ASCII.
pub open spec fn all_digits(s: Seq<char>) -> bool {
    forall|i: int| 0 <= i < s.len() ==> is_digit(#[trigger] s[i])
}

/// The number that a text of decimal digits writes.
pub open spec fn digits_value(s: Seq<char>) -> int
    decreases s.len(),
{
    if s.len() == 0 {
        0
    } else {
        digits_value(s.drop_last()) * 10 + (s.last() as int - '0' as int)
    }
}

/// The texts that write a number of 32 bits with a sign, as
/// `str::parse::<i32>` reads them: an optional sign, then one or more
/// decimal digits that write a number in the range of `i32`.
pub open spec fn is_i32_text(s: Seq<char>) -> bool {
    let signed = s.len() > 0 && (s[0] == '+' || s[0] == '-');
    let negative = s.len() > 0 && s[0] == '-';
    let digits = if signed { s.skip(1) } else { s };
    &&& digits.len() > 0
    &&& all_digits(digits)
    &&& if negative {
        digits_value(digits) <= 2147483648
    } else {
        digits_value(digits) <= 2147483647
    }
}

/// The number that a text of digits writes is not negative.
pub proof fn digits_value_is_natural(s: Seq<char>)
    requires
        all_digits(s),
    ensures
        0 <= digits_value(s),
    decreases s.len(),
{
    if s.len() > 0 {
        assert(all_digits(s.drop_last())) by {
            assert forall|i: int| 0 <= i < s.drop_last().len() implies is_digit(
                #[trigger] s.drop_last()[i],
            ) by {
                assert(is_digit(s[i]));
            }
        }
        digits_value_is_natural(s.drop_last());
        assert(is_digit(s[s.len() - 1]));
    }
}

/// The number that a text of digits writes is no less than the number
/// that any beginning of it writes.
pub proof fn digits_value_grows(s: Seq<char>, k: int)
    requires
        all_digits(s),
        0 <= k <= s.len(),
    ensures
        digits_value(s.take(k)) <= digits_value(s),
    decreases s.len() - k,
{
    if k == s.len() {
        assert(s.take(k) =~= s);
    } else {
        let longer = s.take(k + 1);
        assert(longer.drop_last() =~= s.take(k));
        assert(longer.last() == s[k]);
        assert(is_digit(s[k]));
        assert(all_digits(s.take(k))) by {
            assert forall|i: int| 0 <= i < s.take(k).len() implies is_digit(
                #[trigger] s.take(k)[i],
            ) by {
                assert(is_digit(s[i]));
            }
        }
        digits_value_is_natural(s.take(k));
        digits_value_grows(s, k + 1);
    }
}

/// The value of a decimal digit, or nothing for any other character.
pub fn digit_value(c: char) -> (value: Option<u32>)
    ensures
        match value {
            Some(v) => is_digit(c) && v == c as int - '0' as int,
            None => !is_digit(c),
        },
{
    let code: u32 = c as u32;
    if 48 <= code && code <= 57 {
        Some(code - 48)
    } else {
        None
    }
}

/// Reports whether a text writes a number of 32 bits with a sign.
pub fn parses_as_i32(s: &str) -> (ok: bool)
    ensures
        ok == is_i32_text(s@),
{
    let n: usize = s.unicode_len();
    if n == 0 {
        return false;
    }
    let first = s.get_char(0);
    let negative = first == '-';
    let signed = negative || first == '+';
    let start: usize = if signed {
        1
    } else {
        0
    };
    let limit: u64 = if negative {
        2147483648
    } else {
        2147483647
    };
    let ghost digits = if signed {
        s@.skip(1)
    } else {
        s@
    };
    let mut value: u64 = 0;
    let mut i: usize = start;
    assert(digits.take(0) =~= Seq::<char>::empty());
    while i < n
        invariant
            n == s@.len(),
            start <= i <= n,
            start <= 1,
            digits.len() == n - start,
            forall|j: int| 0 <= j < digits.len() ==> digits[j] == s@[j + start],
            forall|j: int| 0 <= j < i - start ==> is_digit(#[trigger] digits[j]),
            value == digits_value(digits.take(i - start)),
            value <= limit,
            signed == (s@.len() > 0 && (s@[0] == '+' || s@[0] == '-')),
            negative == (s@.len() > 0 && s@[0] == '-'),
            digits == (if signed {
                s@.skip(1)
            } else {
                s@
            }),
            limit == (if negative {
                2147483648u64
            } else {
                2147483647u64
            }),
        decreases n - i,
    {
        let c = s.get_char(i);
        let ghost longer = digits.take(i - start + 1);
        assert(longer.drop_last() =~= digits.take(i - start));
        assert(longer.last() == c);
        match digit_value(c) {
            None => {
                assert(!is_digit(digits[i - start]));
                return false;
            },
            Some(d) => {
                let next: u64 = value * 10 + d as u64;
                assert(next == digits_value(longer));
                if next > limit {
                    proof {
                        if all_digits(digits) {
                            digits_value_grows(digits, i - start + 1);
                        }
                    }
                    return false;
                }
                value = next;
            },
        }
        i = i + 1;
    }
    assert(digits.take(n - start) =~= digits);
    n > start
}

/// The character that writes a decimal digit.
pub open spec fn digit_char(d: nat) -> char {
    if d == 0 {
        '0'
    } else if d == 1 {
        '1'
    } else if d == 2 {
        '2'
    } else if d == 3 {
        '3'
    } else if d == 4 {
        '4'
    } else if d == 5 {
        '5'
    } else if d == 6 {
        '6'
    } else if d == 7 {
        '7'
    } else if d == 8 {
        '8'
    } else {
        '9'
    }
}

/// A number written in decimal, without leading zeros.
pub open spec fn decimal_text(n: nat) -> Seq<char>
    decreases n,
{
    if n < 10 {
        seq![digit_char(n)]
    } else {
        decimal_text(n / 10).push(digit_char(n % 10))
    }
}

/// The text of one decimal digit.
pub fn digit_text(d: u32) -> (text: &'static str)
    requires
        d < 10,
    ensures
        text@ == seq![digit_char(d as nat)],
{
    proof {
        reveal_strlit("0");
        reveal_strlit("1");
        reveal_strlit("2");
        reveal_strlit("3");
        reveal_strlit("4");
        reveal_strlit("5");
        reveal_strlit("6");
        reveal_strlit("7");
        reveal_strlit("8");
        reveal_strlit("9");
    }
    let text = if d == 0 {
        "0"
    } else if d == 1 {
        "1"
    } else if d == 2 {
        "2"
    } else if d == 3 {
        "3"
    } else if d == 4 {
        "4"
    } else if d == 5 {
        "5"
    } else if d == 6 {
        "6"
    } else if d == 7 {
        "7"
    } else if d == 8 {
        "8"
    } else {
        "9"
    };
    assert(text@ =~= seq![digit_char(d as nat)]);
    text
}

/// Writes a number in decimal.
pub fn decimal(n: u32) -> (text: String)
    ensures
        text@ == decimal_text(n as nat),
    decreases n,
{
    if n < 10 {
        String::from_str(digit_text(n))
    } else {
        let mut text = decimal(n / 10);
        text.append(digit_text(n % 10));
        assert(text@ =~= decimal_text((n / 10) as nat).push(digit_char((n % 10) as nat)));
        text
    }
}

/// A copy of a list of texts.
pub fn clone_list(list: &Vec<String>) -> (copy: Vec<String>)
    ensures
        copy.deep_view() == list.deep_view(),
{
    let mut copy: Vec<String> = Vec::new();
    let mut i: usize = 0;
    while i < list.len()
        invariant
            i <= list.len(),
            copy.len() == i,
            forall|j: int| 0 <= j < i ==> copy@[j]@ == list@[j]@,
        decreases list.len() - i,
    {
        copy.push(list[i].clone());
        i = i + 1;
    }
    assert(copy.deep_view() =~= list.deep_view());
    copy
}

/// A copy of a list of texts that may be absent.
pub fn clone_opt_list(list: &Option<Vec<String>>) -> (copy: Option<Vec<String>>)
    ensures
        copy.deep_view() == list.deep_view(),
{
    match list {
        Some(v) => Some(clone_list(v)),
        None => None,
    }
}

/// A copy of a text that may be absent.
pub fn clone_opt(text: &Option<String>) -> (copy: Option<String>)
    ensures
        copy.deep_view() == text.deep_view(),
{
    match text {
        Some(t) => Some(t.clone()),
        None => None,
    }
}

/// `needle` stands in `s` at position `at`.
pub open spec fn occurs_at(s: Seq<char>, needle: Seq<char>, at: int) -> bool {
    &&& 0 <= at
    &&& at + needle.len() <= s.len()
    &&& s.subrange(at, at + needle.len()) == needle
}

/// `needle` stands somewhere in `s`.
pub open spec fn holds_text(s: Seq<char>, needle: Seq<char>) -> bool {
    exists|at: int| occurs_at(s, needle, at)
}

/// Reports whether `needle` stands in `s` at position `at`.
pub fn matches_at(s: &str, needle: &str, at: usize) -> (yes: bool)
    requires
        at + needle@.len() <= s@.len(),
    ensures
        yes == occurs_at(s@, needle@, at as int),
{
    let n: usize = s.unicode_len();
    let m: usize = needle.unicode_len();
    let mut j: usize = 0;
    while j < m
        invariant
            n == s@.len(),
            m == needle@.len(),
            at + m <= n,
            j <= m,
            forall|k: int| 0 <= k < j ==> s@[at + k] == needle@[k],
        decreases m - j,
    {
        if s.get_char(at + j) != needle.get_char(j) {
            assert(s@.subrange(at as int, at + m)[j as int] == s@[at + j]);
            return false;
        }
        j = j + 1;
    }
    assert(s@.subrange(at as int, at + m) =~= needle@);
    true
}

/// Reports whether `needle` stands somewhere in `s`.
pub fn contains_text(s: &str, needle: &str) -> (found: bool)
    ensures
        found == holds_text(s@, needle@),
{
    let n: usize = s.unicode_len();
    let m: usize = needle.unicode_len();
    if m > n {
        return false;
    }
    let last: usize = n - m;
    let mut at: usize = 0;
    loop
        invariant
            n == s@.len(),
            m == needle@.len(),
            m <= n,
            last == n - m,
            at <= last,
            forall|k: int| 0 <= k < at ==> !occurs_at(s@, needle@, k),
        decreases last - at,
    {
        if matches_at(s, needle, at) {
            return true;
        }
        if at == last {
            return false;
        }
        at = at + 1;
    }
}

} // verus!
