//! Text helpers over `Seq<char>`: the common vocabulary of the string
//! contracts in this crate, with the executable functions that compute them.

use vstd::prelude::*;

verus! {

/// `s` ends with `suffix`.
pub open spec fn ends_with(s: Seq<char>, suffix: Seq<char>) -> bool {
    suffix.len() <= s.len() && s.subrange(s.len() - suffix.len(), s.len() as int) == suffix
}

/// `needle` occurs in `s` as a contiguous run.
pub open spec fn contains_text(s: Seq<char>, needle: Seq<char>) -> bool {
    exists|i: int| 0 <= i && i + needle.len() <= s.len() && #[trigger] s.subrange(i, i + needle.len()) == needle
}

/// `s` without any trailing occurrences of `c`.
pub open spec fn strip_trailing(s: Seq<char>, c: char) -> Seq<char>
    decreases s.len(),
{
    if s.len() > 0 && s.last() == c {
        strip_trailing(s.drop_last(), c)
    } else {
        s
    }
}

/// `s` with `suffix` removed from its end as often as it occurs there.
pub open spec fn strip_suffix_repeated(s: Seq<char>, suffix: Seq<char>) -> Seq<char>
    decreases s.len(),
{
    if suffix.len() > 0 && ends_with(s, suffix) {
        strip_suffix_repeated(s.subrange(0, s.len() - suffix.len()), suffix)
    } else {
        s
    }
}

/// The part of `s` after the last occurrence of `c`; all of `s` when `c`
/// does not occur.
pub open spec fn after_last(s: Seq<char>, c: char) -> Seq<char>
    decreases s.len(),
{
    if s.len() == 0 {
        s
    } else if s.last() == c {
        Seq::empty()
    } else {
        after_last(s.drop_last(), c).push(s.last())
    }
}

/// `after_last` is a suffix of its argument that holds no `c`, and it is
/// the longest such suffix.
pub proof fn lemma_after_last(s: Seq<char>, c: char)
    ensures
        after_last(s, c).len() <= s.len(),
        after_last(s, c) == s.subrange(s.len() - after_last(s, c).len(), s.len() as int),
        !after_last(s, c).contains(c),
        after_last(s, c).len() < s.len() ==> s[s.len() - after_last(s, c).len() - 1] == c,
        after_last(s, c).len() == s.len() <==> !s.contains(c),
    decreases s.len(),
{
    if s.len() == 0 {
        assert(after_last(s, c) =~= s.subrange(0, 0));
    } else if s.last() == c {
        assert(after_last(s, c) =~= s.subrange(s.len() as int, s.len() as int));
        assert(s[s.len() - 1] == c);
    } else {
        let shorter = s.drop_last();
        lemma_after_last(shorter, c);
        let tail = after_last(shorter, c);
        let full = tail.push(s.last());
        assert(full =~= s.subrange(s.len() - full.len(), s.len() as int));
        assert forall|i: int| 0 <= i < full.len() implies full[i] != c by {
            if i < tail.len() {
                assert(tail.contains(tail[i]));
            }
        }
        if tail.len() < shorter.len() {
            assert(s[s.len() - full.len() - 1] == shorter[shorter.len() - tail.len() - 1]);
        }
        if s.contains(c) {
            let k = choose|k: int| 0 <= k < s.len() && s[k] == c;
            assert(shorter[k] == c);
            assert(shorter.contains(c));
        }
        if shorter.contains(c) {
            let k = choose|k: int| 0 <= k < shorter.len() && shorter[k] == c;
            assert(s[k] == c);
        }
    }
}

/// The characters of `s`, in order.
pub fn chars_of(s: &str) -> (v: Vec<char>)
    ensures
        v@ == s@,
{
    let mut v: Vec<char> = Vec::new();
    for c in it: s.chars()
        invariant
            it.seq() == s@,
            v@ == it.seq().take(it.index() as int),
    {
        v.push(c);
    }
    assert(v@ =~= s@);
    v
}

/// Whether two strings hold the same characters.
pub fn same_text(a: &str, b: &str) -> (r: bool)
    ensures
        r == (a@ == b@),
{
    let x = a.to_owned();
    let y = b.to_owned();
    x.eq(&y)
}

/// `a` followed by `b`.
pub fn concat(a: &str, b: &str) -> (r: String)
    ensures
        r@ == a@ + b@,
{
    let mut r = String::from_str(a);
    r.append(b);
    r
}

/// `a`, `b` and `c` in a row.
pub fn concat3(a: &str, b: &str, c: &str) -> (r: String)
    ensures
        r@ == a@ + b@ + c@,
{
    let mut r = String::from_str(a);
    r.append(b);
    r.append(c);
    r
}

/// Whether `c` occurs in `chars` from position `start` up to `end`.
pub fn holds_char(chars: &Vec<char>, start: usize, end: usize, c: char) -> (r: bool)
    requires
        start <= end <= chars.len(),
    ensures
        r == chars@.subrange(start as int, end as int).contains(c),
{
    let mut i: usize = start;
    while i < end
        invariant
            start <= i <= end <= chars.len(),
            forall|k: int| start <= k < i ==> chars@[k] != c,
        decreases end - i,
    {
        if chars[i] == c {
            assert(chars@.subrange(start as int, end as int)[i - start] == c);
            return true;
        }
        i += 1;
    }
    assert forall|k: int| 0 <= k < end - start implies #[trigger] chars@.subrange(
        start as int,
        end as int,
    )[k] != c by {
        assert(chars@[start + k] != c);
    }
    false
}

/// Where the first `end` characters of `chars` end once the trailing
/// occurrences of `c` are left off.
pub fn strip_trailing_end(chars: &Vec<char>, end: usize, c: char) -> (r: usize)
    requires
        end <= chars.len(),
    ensures
        r <= end,
        chars@.take(r as int) == strip_trailing(chars@.take(end as int), c),
{
    let mut r: usize = end;
    while r > 0 && chars[r - 1] == c
        invariant
            r <= end <= chars.len(),
            strip_trailing(chars@.take(r as int), c) == strip_trailing(chars@.take(end as int), c),
        decreases r,
    {
        assert(chars@.take(r as int).drop_last() =~= chars@.take(r - 1));
        r -= 1;
    }
    r
}

/// Where the first `end` characters of `chars` end once `suffix` is left
/// off as often as it stands at the end.
pub fn strip_suffix_end(chars: &Vec<char>, end: usize, suffix: &Vec<char>) -> (r: usize)
    requires
        end <= chars.len(),
    ensures
        r <= end,
        chars@.take(r as int) == strip_suffix_repeated(chars@.take(end as int), suffix@),
{
    let n: usize = suffix.len();
    if n == 0 {
        return end;
    }
    let mut r: usize = end;
    while ends_with_at(chars, r, suffix)
        invariant
            r <= end <= chars.len(),
            n == suffix.len(),
            n > 0,
            strip_suffix_repeated(chars@.take(r as int), suffix@) == strip_suffix_repeated(
                chars@.take(end as int),
                suffix@,
            ),
        decreases r,
    {
        assert(chars@.take(r as int).subrange(0, r - n) =~= chars@.take(r - n));
        r -= n;
    }
    r
}

/// A suffix of `s` that holds no `c` and has a `c` before it, or is all
/// of `s`, is `after_last(s, c)`.
pub proof fn lemma_after_last_unique(s: Seq<char>, c: char, k: int)
    requires
        0 <= k <= s.len(),
        !s.subrange(k, s.len() as int).contains(c),
        k > 0 ==> s[k - 1] == c,
    ensures
        after_last(s, c) == s.subrange(k, s.len() as int),
{
    lemma_after_last(s, c);
    let tail = after_last(s, c);
    let m = s.len() - tail.len();
    if k < m {
        assert(s.subrange(k, s.len() as int)[m - 1 - k] == c);
        assert(s.subrange(k, s.len() as int).contains(c));
    }
    if k > m {
        assert(tail[k - 1 - m] == c);
        assert(tail.contains(c));
    }
}

/// Where the part after the last `c` begins among the first `end`
/// characters of `chars`.
pub fn last_segment_start(chars: &Vec<char>, end: usize, c: char) -> (r: usize)
    requires
        end <= chars.len(),
    ensures
        r <= end,
        chars@.subrange(r as int, end as int) == after_last(chars@.take(end as int), c),
{
    let mut r: usize = end;
    while r > 0 && chars[r - 1] != c
        invariant
            r <= end <= chars.len(),
            forall|k: int| r <= k < end ==> chars@[k] != c,
        decreases r,
    {
        r -= 1;
    }
    proof {
        let s = chars@.take(end as int);
        assert(s.subrange(r as int, end as int) =~= chars@.subrange(r as int, end as int));
        assert forall|k: int| 0 <= k < end - r implies #[trigger] s.subrange(r as int, end as int)[k]
            != c by {
            assert(chars@[r + k] != c);
        }
        lemma_after_last_unique(s, c, r as int);
    }
    r
}

/// Whether the first `end` characters of `chars` end with `suffix`.
pub fn ends_with_at(chars: &Vec<char>, end: usize, suffix: &Vec<char>) -> (r: bool)
    requires
        end <= chars.len(),
    ensures
        r == ends_with(chars@.take(end as int), suffix@),
{
    let n: usize = suffix.len();
    if n > end {
        return false;
    }
    let start: usize = end - n;
    let ghost window = chars@.take(end as int).subrange(end - n, end as int);
    let mut i: usize = 0;
    while i < n
        invariant
            i <= n,
            n == suffix.len(),
            start + n == end,
            end <= chars.len(),
            window == chars@.take(end as int).subrange(end - n, end as int),
            forall|k: int| 0 <= k < i ==> window[k] == suffix@[k],
        decreases n - i,
    {
        if chars[start + i] != suffix[i] {
            assert(window[i as int] != suffix@[i as int]);
            return false;
        }
        i += 1;
    }
    assert(window =~= suffix@);
    true
}

/// Whether `needle` occurs in `chars`.
pub fn holds_text(chars: &Vec<char>, needle: &Vec<char>) -> (r: bool)
    ensures
        r == contains_text(chars@, needle@),
{
    let n: usize = needle.len();
    if n > chars.len() {
        return false;
    }
    if n == 0 {
        assert(chars@.subrange(0int, 0int + needle@.len()) =~= needle@);
        return true;
    }
    let last: usize = chars.len() - n;
    let mut i: usize = 0;
    while i <= last
        invariant
            i <= last + 1,
            last + n == chars.len(),
            n == needle.len(),
            n > 0,
            forall|k: int| 0 <= k < i ==> #[trigger] chars@.subrange(k, k + n) != needle@,
        decreases last + 1 - i,
    {
        let found = ends_with_at(chars, i + n, needle);
        assert(chars@.take(i + n).subrange(i as int, i + n) =~= chars@.subrange(i as int, i + n));
        if found {
            return true;
        }
        i += 1;
    }
    false
}

/// A copy of an optional string.
pub fn clone_opt(v: &Option<String>) -> (r: Option<String>)
    ensures
        r.deep_view() == v.deep_view(),
{
    match v {
        Some(s) => Some(s.clone()),
        None => None,
    }
}

/// The first `n` characters of `s`, or all of `s` where it has fewer.
pub open spec fn prefix(s: Seq<char>, n: nat) -> Seq<char> {
    if n <= s.len() {
        s.take(n as int)
    } else {
        s
    }
}

/// The first `n` characters of `s`, or all of `s` where it has fewer.
pub fn take_prefix(s: &str, n: usize) -> (r: String)
    ensures
        r@ == prefix(s@, n as nat),
{
    let len: usize = s.unicode_len();
    if n <= len {
        let cut = s.substring_char(0, n);
        assert(s@.subrange(0, n as int) =~= s@.take(n as int));
        String::from_str(cut)
    } else {
        String::from_str(s)
    }
}

/// White space as Unicode's `White_Space` property has it.
pub open spec fn is_space(c: char) -> bool {
    let n = c as u32;
    (0x09 <= n <= 0x0d) || n == 0x20 || n == 0x85 || n == 0xa0 || n == 0x1680 || (0x2000 <= n
        <= 0x200a) || n == 0x2028 || n == 0x2029 || n == 0x202f || n == 0x205f || n == 0x3000
}

/// `s` without the white space at its end.
pub open spec fn trim_end(s: Seq<char>) -> Seq<char>
    decreases s.len(),
{
    if s.len() > 0 && is_space(s.last()) {
        trim_end(s.drop_last())
    } else {
        s
    }
}

/// `s` without the white space at its start.
pub open spec fn trim_start(s: Seq<char>) -> Seq<char>
    decreases s.len(),
{
    if s.len() > 0 && is_space(s.first()) {
        trim_start(s.drop_first())
    } else {
        s
    }
}

/// `s` without the white space at either end.
pub open spec fn trim(s: Seq<char>) -> Seq<char> {
    trim_start(trim_end(s))
}

/// Whether `c` is white space.
pub fn is_whitespace(c: char) -> (b: bool)
    ensures
        b == is_space(c),
{
    let n: u32 = c as u32;
    (0x09 <= n && n <= 0x0d) || n == 0x20 || n == 0x85 || n == 0xa0 || n == 0x1680 || (0x2000 <= n
        && n <= 0x200a) || n == 0x2028 || n == 0x2029 || n == 0x202f || n == 0x205f || n == 0x3000
}

/// `s` without the white space at either end.
pub fn trimmed(s: &str) -> (r: String)
    ensures
        r@ == trim(s@),
{
    let chars = chars_of(s);
    let mut end: usize = chars.len();
    assert(chars@.take(end as int) =~= chars@);
    while end > 0 && is_whitespace(chars[end - 1])
        invariant
            end <= chars.len(),
            trim_end(chars@) == trim_end(chars@.take(end as int)),
        decreases end,
    {
        assert(chars@.take(end as int).drop_last() =~= chars@.take(end - 1));
        end -= 1;
    }
    let ghost kept = chars@.take(end as int);
    assert(trim_end(chars@) == kept);
    let mut start: usize = 0;
    assert(kept.subrange(0, end as int) =~= kept);
    while start < end && is_whitespace(chars[start])
        invariant
            start <= end <= chars.len(),
            kept == chars@.take(end as int),
            trim_start(kept) == trim_start(kept.subrange(start as int, end as int)),
        decreases end - start,
    {
        assert(kept.subrange(start as int, end as int).drop_first() =~= kept.subrange(
            start + 1,
            end as int,
        ));
        start += 1;
    }
    assert(trim_start(kept) == kept.subrange(start as int, end as int));
    assert(kept.subrange(start as int, end as int) =~= s@.subrange(start as int, end as int));
    String::from_str(s.substring_char(start, end))
}

/// The text, or the empty text where there is none.
pub open spec fn text_or_empty(t: Option<Seq<char>>) -> Seq<char> {
    match t {
        Some(s) => s,
        None => Seq::empty(),
    }
}

/// A copy of the text, or the empty string where there is none.
pub fn or_empty(t: &Option<String>) -> (r: String)
    ensures
        r@ == text_or_empty(t.deep_view()),
{
    match t {
        Some(s) => s.clone(),
        None => String::new(),
    }
}

/// The ten decimal digits.
pub open spec fn decimal_digits() -> Seq<char> {
    seq!['0', '1', '2', '3', '4', '5', '6', '7', '8', '9']
}

/// A natural number in decimal, without leading zeros.
pub open spec fn nat_text(n: nat) -> Seq<char>
    decreases n,
{
    if n < 10 {
        seq![decimal_digits()[n as int]]
    } else {
        nat_text(n / 10).push(decimal_digits()[(n % 10) as int])
    }
}

/// An integer in decimal, with a minus sign where it is negative.
pub open spec fn int_text(n: int) -> Seq<char> {
    if n < 0 {
        seq!['-'] + nat_text((-n) as nat)
    } else {
        nat_text(n as nat)
    }
}

fn digit_str(d: u64) -> (s: &'static str)
    requires
        d < 10,
    ensures
        s@ == seq![decimal_digits()[d as int]],
{
    proof {
        reveal_strlit("0");
        reveal_strlit("1");
        reveal_strlit("2");
        reveal_strlit("3");
        reveal_strlit("4");
        reveal_strlit("5");
        reveal_strlit("6");
        reveal_strlit("7");
        reveal_strlit("8");
        reveal_strlit("9");
    }
    let s = if d == 0 {
        "0"
    } else if d == 1 {
        "1"
    } else if d == 2 {
        "2"
    } else if d == 3 {
        "3"
    } else if d == 4 {
        "4"
    } else if d == 5 {
        "5"
    } else if d == 6 {
        "6"
    } else if d == 7 {
        "7"
    } else if d == 8 {
        "8"
    } else {
        "9"
    };
    assert(s@ =~= seq![decimal_digits()[d as int]]);
    s
}

/// Appends `n` in decimal to `s`.
pub fn push_decimal(s: &mut String, n: u64)
    ensures
        final(s)@ == old(s)@ + nat_text(n as nat),
    decreases n,
{
    if n >= 10 {
        push_decimal(s, n / 10);
    }
    let ghost before = s@;
    s.append(digit_str(n % 10));
    assert(before + seq![decimal_digits()[(n % 10) as int]] =~= before.push(
        decimal_digits()[(n % 10) as int],
    ));
    if n >= 10 {
        assert(old(s)@ + nat_text((n / 10) as nat).push(decimal_digits()[(n % 10) as int]) =~= (old(
            s,
        )@ + nat_text((n / 10) as nat)).push(decimal_digits()[(n % 10) as int]));
    }
}

/// `n` in decimal.
pub fn decimal(n: i64) -> (s: String)
    ensures
        s@ == int_text(n as int),
{
    let mut s = String::new();
    if n < 0 {
        s.append("-");
        proof {
            reveal_strlit("-");
            assert("-"@ =~= seq!['-']);
        }
        let magnitude: u64 = if n == i64::MIN {
            0x8000_0000_0000_0000u64
        } else {
            (-n) as u64
        };
        push_decimal(&mut s, magnitude);
        assert(s@ =~= seq!['-'] + nat_text((-n) as nat));
    } else {
        push_decimal(&mut s, n as u64);
        assert(s@ =~= nat_text(n as nat));
    }
    s
}

} // verus!
