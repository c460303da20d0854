//! Text handling: white space and words, fields between separators, parts of
//! a text, and numbers.

use vstd::prelude::*;

verus! {

/// Whether `c` is white space, that is, has the Unicode property `White_Space`.
pub open spec fn is_space(c: char) -> bool {
    let n = c as u32;
    ||| 0x09 <= n <= 0x0D
    ||| n == 0x20
    ||| n == 0x85
    ||| n == 0xA0
    ||| n == 0x1680
    ||| 0x2000 <= n <= 0x200A
    ||| n == 0x2028
    ||| n == 0x2029
    ||| n == 0x202F
    ||| n == 0x205F
    ||| n == 0x3000
}

/// Tells whether `c` is white space.
pub fn is_whitespace(c: char) -> (b: bool)
    ensures
        b == is_space(c),
{
    let n: u32 = c as u32;
    (0x09 <= n && n <= 0x0D) || n == 0x20 || n == 0x85 || n == 0xA0 || n == 0x1680 || (0x2000 <= n
        && n <= 0x200A) || n == 0x2028 || n == 0x2029 || n == 0x202F || n == 0x205F || n == 0x3000
}

/// The characters of `s` in order.
pub fn chars_of(s: &str) -> (v: Vec<char>)
    ensures
        v@ == s@,
{
    let mut v: Vec<char> = Vec::new();
    for c in it: s.chars()
        invariant
            v@ == it.seq().take(it.index() as int),
            it.seq() == s@,
    {
        v.push(c);
    }
    v
}

/// Tells whether two strings hold the same characters.
pub fn same_text(a: &str, b: &str) -> (r: bool)
    ensures
        r == (a@ == b@),
{
    a.to_owned() == b.to_owned()
}

/// Number of characters of `s` that stand before its first white space; the
/// length of `s` where it holds none.
pub open spec fn word_len(s: Seq<char>) -> nat
    decreases s.len(),
{
    if s.len() == 0 || is_space(s[0]) {
        0
    } else {
        1 + word_len(s.drop_first())
    }
}

/// The words of `s`: its maximal runs of characters that are not white space,
/// from left to right. Leading white space is skipped; otherwise the first word
/// is the longest prefix free of white space, and the other words are those of
/// what follows it.
pub open spec fn words(s: Seq<char>) -> Seq<Seq<char>>
    decreases s.len(),
    via words_decreases
{
    if s.len() == 0 {
        Seq::empty()
    } else if is_space(s[0]) {
        words(s.drop_first())
    } else {
        seq![s.take(word_len(s) as int)] + words(s.skip(word_len(s) as int))
    }
}

#[via_fn]
proof fn words_decreases(s: Seq<char>) {
    lemma_word_len(s);
}

/// `word_len(s)` is the position of the first white space in `s`.
pub proof fn lemma_word_len(s: Seq<char>)
    ensures
        word_len(s) <= s.len(),
        forall|k: int| 0 <= k < word_len(s) ==> !is_space(#[trigger] s[k]),
        word_len(s) < s.len() ==> is_space(s[word_len(s) as int]),
        s.len() > 0 && !is_space(s[0]) ==> word_len(s) >= 1,
    decreases s.len(),
{
    if s.len() > 0 && !is_space(s[0]) {
        let t = s.drop_first();
        lemma_word_len(t);
        assert forall|k: int| 0 <= k < word_len(s) implies !is_space(#[trigger] s[k]) by {
            if k > 0 {
                assert(s[k] == t[k - 1]);
            }
        }
        if word_len(s) < s.len() {
            assert(s[word_len(s) as int] == t[word_len(t) as int]);
        }
    }
}

/// A prefix of `n` characters free of white space, ending where `s` ends or at
/// a white space, is the first word's extent.
pub proof fn lemma_word_len_is(s: Seq<char>, n: int)
    requires
        0 <= n <= s.len(),
        forall|k: int| 0 <= k < n ==> !is_space(#[trigger] s[k]),
        n < s.len() ==> is_space(s[n]),
    ensures
        word_len(s) == n,
    decreases s.len(),
{
    if n > 0 {
        let t = s.drop_first();
        assert forall|k: int| 0 <= k < n - 1 implies !is_space(#[trigger] t[k]) by {
            assert(t[k] == s[k + 1]);
        }
        lemma_word_len_is(t, n - 1);
    }
}

/// Whether `w` can be a word: it is not empty and holds no white space.
pub open spec fn is_word(w: Seq<char>) -> bool {
    w.len() > 0 && forall|k: int| 0 <= k < w.len() ==> !is_space(#[trigger] w[k])
}

/// No word is empty, and no word holds white space.
pub proof fn lemma_words_are_clean(s: Seq<char>)
    ensures
        forall|i: int| 0 <= i < words(s).len() ==> is_word(#[trigger] words(s)[i]),
    decreases s.len(),
{
    if s.len() == 0 {
        assert(words(s).len() == 0);
    } else if is_space(s[0]) {
        lemma_words_are_clean(s.drop_first());
        assert(words(s) == words(s.drop_first()));
    } else {
        lemma_word_len(s);
        let n = word_len(s) as int;
        lemma_words_are_clean(s.skip(n));
        let first = s.take(n);
        let rest = words(s.skip(n));
        assert(words(s) == seq![first] + rest);
        assert forall|k: int| 0 <= k < first.len() implies !is_space(#[trigger] first[k]) by {
            assert(first[k] == s[k]);
        }
        assert(is_word(first));
        assert forall|i: int| 0 <= i < words(s).len() implies is_word(#[trigger] words(s)[i]) by {
            if i == 0 {
                assert(words(s)[0] == first);
            } else {
                assert(words(s)[i] == rest[i - 1]);
            }
        }
    }
}

/// A text that is not empty and holds no white space is its own single word.
pub proof fn lemma_word_alone(s: Seq<char>)
    requires
        is_word(s),
    ensures
        words(s) == seq![s],
{
    let n = s.len() as int;
    lemma_word_len_is(s, n);
    assert(s.take(n) == s);
    assert(s.skip(n) == Seq::<char>::empty());
    assert(words(s.skip(n)) == Seq::<Seq<char>>::empty());
    assert(!is_space(s[0]));
    assert(words(s) == seq![s.take(n)] + words(s.skip(n)));
    assert(seq![s] + Seq::<Seq<char>>::empty() == seq![s]);
}

/// The words of two texts joined by a white space are the words of the first
/// followed by the words of the second.
pub proof fn lemma_words_of_joined(a: Seq<char>, c: char, b: Seq<char>)
    requires
        is_space(c),
    ensures
        words(a + seq![c] + b) == words(a) + words(b),
    decreases a.len(),
{
    let joined = a + seq![c] + b;
    if a.len() == 0 {
        assert(joined.drop_first() == b);
        assert(words(a) + words(b) == words(b));
    } else if is_space(a[0]) {
        assert(joined[0] == a[0]);
        assert(joined.drop_first() == a.drop_first() + seq![c] + b);
        lemma_words_of_joined(a.drop_first(), c, b);
    } else {
        lemma_word_len(a);
        let n = word_len(a) as int;
        assert(joined[0] == a[0]);
        assert forall|k: int| 0 <= k < n implies !is_space(#[trigger] joined[k]) by {
            assert(joined[k] == a[k]);
        }
        if n < a.len() {
            assert(joined[n] == a[n]);
        } else {
            assert(joined[n] == c);
        }
        lemma_word_len_is(joined, n);
        assert(joined.take(n) == a.take(n));
        assert(joined.skip(n) == a.skip(n) + seq![c] + b);
        lemma_words_of_joined(a.skip(n), c, b);
        assert(seq![a.take(n)] + (words(a.skip(n)) + words(b)) == (seq![a.take(n)] + words(
            a.skip(n),
        )) + words(b));
    }
}

/// Position of the first `sep` in `t`; the length of `t` where it holds none.
pub open spec fn first_pos(t: Seq<char>, sep: char) -> nat
    decreases t.len(),
{
    if t.len() == 0 || t[0] == sep {
        0
    } else {
        1 + first_pos(t.drop_first(), sep)
    }
}

/// What stands before the first `sep` of `t`: all of `t` where it holds none.
pub open spec fn before_first(t: Seq<char>, sep: char) -> Seq<char> {
    t.take(first_pos(t, sep) as int)
}

/// What stands after the first `sep` of `t`: nothing where it holds none.
pub open spec fn after_first(t: Seq<char>, sep: char) -> Seq<char> {
    if first_pos(t, sep) < t.len() {
        t.skip(first_pos(t, sep) as int + 1)
    } else {
        Seq::empty()
    }
}

/// Whether `t` holds the character `sep`.
pub open spec fn holds(t: Seq<char>, sep: char) -> bool {
    first_pos(t, sep) < t.len()
}

/// `first_pos(t, sep)` is a position of `t` or its length, no `sep` stands
/// before it, and `sep` stands at it unless it is the length.
pub proof fn lemma_first_pos(t: Seq<char>, sep: char)
    ensures
        first_pos(t, sep) <= t.len(),
        forall|k: int| 0 <= k < first_pos(t, sep) ==> #[trigger] t[k] != sep,
        first_pos(t, sep) < t.len() ==> t[first_pos(t, sep) as int] == sep,
    decreases t.len(),
{
    if t.len() > 0 && t[0] != sep {
        let u = t.drop_first();
        lemma_first_pos(u, sep);
        assert forall|k: int| 0 <= k < first_pos(t, sep) implies #[trigger] t[k] != sep by {
            if k > 0 {
                assert(t[k] == u[k - 1]);
            }
        }
        if first_pos(t, sep) < t.len() {
            assert(t[first_pos(t, sep) as int] == u[first_pos(u, sep) as int]);
        }
    }
}

/// A prefix of `n` characters free of `sep`, ending where `t` ends or at a
/// `sep`, ends at the first `sep`'s position.
pub proof fn lemma_first_pos_is(t: Seq<char>, sep: char, n: int)
    requires
        0 <= n <= t.len(),
        forall|k: int| 0 <= k < n ==> #[trigger] t[k] != sep,
        n < t.len() ==> t[n] == sep,
    ensures
        first_pos(t, sep) == n,
    decreases t.len(),
{
    if n > 0 {
        let u = t.drop_first();
        assert forall|k: int| 0 <= k < n - 1 implies #[trigger] u[k] != sep by {
            assert(u[k] == t[k + 1]);
        }
        lemma_first_pos_is(u, sep, n - 1);
    }
}

/// Splits `t` once, at its first `sep`. Where `t` holds no `sep`, the left
/// side is all of `t` and the right side is empty.
pub fn split_at_first(t: &str, sep: char) -> (sides: (&str, &str))
    ensures
        sides.0@ == before_first(t@, sep),
        sides.1@ == after_first(t@, sep),
{
    let chars = chars_of(t);
    let n = chars.len();
    let mut i: usize = 0;
    while i < n && chars[i] != sep
        invariant
            i <= n,
            n == chars.len(),
            chars@ == t@,
            forall|k: int| 0 <= k < i ==> #[trigger] t@[k] != sep,
        decreases n - i,
    {
        i += 1;
    }
    proof {
        lemma_first_pos_is(t@, sep, i as int);
    }
    let left = t.substring_char(0, i);
    if i < n {
        (left, t.substring_char(i + 1, n))
    } else {
        assert(t@.subrange(n as int, n as int) == Seq::<char>::empty());
        (left, t.substring_char(n, n))
    }
}

/// The characters of each string of `v`.
pub open spec fn texts(v: Seq<&str>) -> Seq<Seq<char>> {
    v.map_values(|w: &str| w@)
}

/// Splits `s` at white space into its words.
pub fn split_whitespace(s: &str) -> (out: Vec<&str>)
    ensures
        texts(out@) == words(s@),
{
    let chars = chars_of(s);
    let n = chars.len();
    let mut out: Vec<&str> = Vec::new();
    let mut i: usize = 0;
    assert(s@.skip(0) == s@);
    assert(texts(out@) + words(s@) == words(s@));
    while i < n
        invariant
            i <= n,
            n == chars.len(),
            chars@ == s@,
            words(s@) == texts(out@) + words(s@.skip(i as int)),
        decreases n - i,
    {
        let ghost rest = s@.skip(i as int);
        let ghost done = texts(out@);
        if is_whitespace(chars[i]) {
            assert(rest.drop_first() == s@.skip(i + 1));
            i += 1;
        } else {
            let start = i;
            while i < n && !is_whitespace(chars[i])
                invariant
                    start <= i <= n,
                    n == chars.len(),
                    chars@ == s@,
                    forall|k: int| start <= k < i ==> !is_space(#[trigger] s@[k]),
                decreases n - i,
            {
                i += 1;
            }
            let word = s.substring_char(start, i);
            proof {
                assert forall|k: int| 0 <= k < i - start implies !is_space(#[trigger] rest[k]) by {
                    assert(rest[k] == s@[start + k]);
                }
                lemma_word_len_is(rest, i - start);
                assert(rest.take(i - start) == s@.subrange(start as int, i as int));
                assert(rest.skip(i - start) == s@.skip(i as int));
            }
            out.push(word);
            assert(texts(out@) == done + seq![word@]);
        }
    }
    assert(s@.skip(n as int) == Seq::<char>::empty());
    assert(texts(out@) + Seq::<Seq<char>>::empty() == texts(out@));
    out
}

/// The fields of `s` that `sep` separates, from left to right. A text without
/// `sep` is its own single field, and a field may be empty.
pub open spec fn fields(s: Seq<char>, sep: char) -> Seq<Seq<char>>
    decreases s.len(),
    via fields_decreases
{
    if holds(s, sep) {
        seq![before_first(s, sep)] + fields(after_first(s, sep), sep)
    } else {
        seq![s]
    }
}

#[via_fn]
proof fn fields_decreases(s: Seq<char>, sep: char) {
    lemma_first_pos(s, sep);
}

/// Splits `s` at every `sep` into its fields.
pub fn split_fields(s: &str, sep: char) -> (out: Vec<&str>)
    ensures
        texts(out@) == fields(s@, sep),
        out.len() >= 1,
{
    let chars = chars_of(s);
    let n = chars.len();
    let mut out: Vec<&str> = Vec::new();
    let mut start: usize = 0;
    let mut i: usize = 0;
    assert(s@.skip(0) == s@);
    assert(texts(out@) + fields(s@, sep) == fields(s@, sep));
    while i < n
        invariant
            start <= i <= n,
            n == chars.len(),
            chars@ == s@,
            forall|k: int| start <= k < i ==> #[trigger] s@[k] != sep,
            fields(s@, sep) == texts(out@) + fields(s@.skip(start as int), sep),
        decreases n - i,
    {
        if chars[i] == sep {
            let ghost rest = s@.skip(start as int);
            let ghost done = texts(out@);
            let field = s.substring_char(start, i);
            proof {
                assert forall|k: int| 0 <= k < i - start implies #[trigger] rest[k] != sep by {
                    assert(rest[k] == s@[start + k]);
                }
                assert(rest[i - start] == s@[i as int]);
                lemma_first_pos_is(rest, sep, i - start);
                assert(rest.take(i - start) == s@.subrange(start as int, i as int));
                assert(rest.skip(i - start + 1) == s@.skip(i + 1));
            }
            out.push(field);
            assert(texts(out@) == done + seq![field@]);
            start = i + 1;
        }
        i += 1;
    }
    let ghost rest = s@.skip(start as int);
    let ghost done = texts(out@);
    let field = s.substring_char(start, n);
    proof {
        assert forall|k: int| 0 <= k < n - start implies #[trigger] rest[k] != sep by {
            assert(rest[k] == s@[start + k]);
        }
        lemma_first_pos_is(rest, sep, n - start);
        assert(rest == s@.subrange(start as int, n as int));
    }
    out.push(field);
    assert(texts(out@) == done + seq![field@]);
    out
}

/// Whether `needle` stands in `hay` at position `at`.
pub open spec fn stands(hay: Seq<char>, needle: Seq<char>, at: int) -> bool {
    0 <= at <= hay.len() - needle.len() && hay.subrange(at, at + needle.len()) == needle
}

/// Whether `needle` stands somewhere in `hay`.
pub open spec fn has_text(hay: Seq<char>, needle: Seq<char>) -> bool {
    exists|at: int| stands(hay, needle, at)
}

/// Tells whether `needle` stands in `hay` at position `at`.
fn stands_at(hay: &Vec<char>, needle: &Vec<char>, at: usize) -> (r: bool)
    requires
        at + needle.len() <= hay.len(),
    ensures
        r == stands(hay@, needle@, at as int),
{
    let m = needle.len();
    let mut j: usize = 0;
    while j < m
        invariant
            j <= m,
            m == needle.len(),
            at + m <= hay.len(),
            forall|k: int| 0 <= k < j ==> hay@[at + k] == needle@[k],
        decreases m - j,
    {
        if hay[at + j] != needle[j] {
            assert(hay@.subrange(at as int, at + m)[j as int] == hay@[at + j]);
            return false;
        }
        j += 1;
    }
    assert(hay@.subrange(at as int, at + m) =~= needle@);
    true
}

/// Tells whether `needle` stands somewhere in `hay`.
pub fn contains_text(hay: &str, needle: &str) -> (r: bool)
    ensures
        r == has_text(hay@, needle@),
{
    let h = chars_of(hay);
    let m = chars_of(needle);
    if m.len() > h.len() {
        return false;
    }
    let last = h.len() - m.len();
    let mut i: usize = 0;
    loop
        invariant
            i <= last,
            last == h.len() - m.len(),
            h@ == hay@,
            m@ == needle@,
            forall|k: int| 0 <= k < i ==> !stands(hay@, needle@, k),
        decreases last - i,
    {
        if stands_at(&h, &m, i) {
            return true;
        }
        if i == last {
            return false;
        }
        i += 1;
    }
}

/// Whether `c` is one of the digits from 0 to 9.
pub open spec fn is_digit(c: char) -> bool {
    '0' <= c <= '9'
}

/// The number that the digits `s` write in base ten.
pub open spec fn decimal(s: Seq<char>) -> nat
    decreases s.len(),
{
    if s.len() == 0 {
        0
    } else {
        (10 * decimal(s.drop_last()) + (s.last() as u32 - '0' as u32)) as nat
    }
}

/// The digits of `text`: what follows its plus sign, or all of it where it
/// begins with none.
pub open spec fn unsigned(text: Seq<char>) -> Seq<char> {
    if text.len() > 0 && text[0] == '+' {
        text.drop_first()
    } else {
        text
    }
}

/// Whether `s` is made of digits only.
pub open spec fn all_digits(s: Seq<char>) -> bool {
    forall|k: int| 0 <= k < s.len() ==> is_digit(#[trigger] s[k])
}

/// The number that `text` writes: one or more digits, in base ten, with or
/// without a plus sign before them, if they write a number of 16 bits.
pub open spec fn number(text: Seq<char>) -> Option<u16> {
    let digits = unsigned(text);
    if digits.len() > 0 && all_digits(digits) && decimal(digits) <= u16::MAX {
        Some(decimal(digits) as u16)
    } else {
        None
    }
}

/// More digits never write a smaller number.
proof fn lemma_decimal_grows(s: Seq<char>, k: int)
    requires
        0 <= k <= s.len(),
        all_digits(s),
    ensures
        decimal(s.take(k)) <= decimal(s),
    decreases s.len() - k,
{
    if k < s.len() {
        lemma_decimal_grows(s, k + 1);
        assert(s.take(k + 1).drop_last() == s.take(k));
        assert(is_digit(s[k]));
        assert(s.take(k + 1).last() == s[k]);
    } else {
        assert(s.take(k) == s);
    }
}

/// Reads a number of 16 bits.
pub fn parse_u16(text: &str) -> (r: Option<u16>)
    ensures
        r == number(text@),
{
    let chars = chars_of(text);
    let n = chars.len();
    let first: usize = if n > 0 && chars[0] == '+' {
        1
    } else {
        0
    };
    let ghost digits = unsigned(text@);
    assert(digits == text@.skip(first as int));
    if first == n {
        return None;
    }
    let mut value: u32 = 0;
    let mut i: usize = first;
    assert(digits.take(0) == Seq::<char>::empty());
    while i < n
        invariant
            first <= i <= n,
            n == chars.len(),
            chars@ == text@,
            digits == unsigned(text@),
            digits == text@.skip(first as int),
            all_digits(digits.take(i - first)),
            value == decimal(digits.take(i - first)),
            value <= u16::MAX,
        decreases n - i,
    {
        let c = chars[i];
        let ghost seen = digits.take(i - first + 1);
        assert(digits[i - first] == c);
        if !('0' <= c && c <= '9') {
            assert(!is_digit(digits[i - first]));
            return None;
        }
        let next: u32 = 10 * value + (c as u32 - '0' as u32);
        proof {
            assert(seen.drop_last() == digits.take(i - first));
            assert(seen.last() == c);
            assert(next == decimal(seen));
            assert forall|k: int| 0 <= k < seen.len() implies is_digit(#[trigger] seen[k]) by {
                if k < i - first {
                    assert(seen[k] == digits.take(i - first)[k]);
                }
            }
        }
        if next > 65535 {
            proof {
                if all_digits(digits) {
                    lemma_decimal_grows(digits, i - first + 1);
                }
            }
            return None;
        }
        value = next;
        i += 1;
    }
    assert(digits.take(n - first) == digits);
    Some(value as u16)
}

} // verus!
