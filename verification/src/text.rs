//! Character-level helpers over `str` with exact specifications.

use vstd::prelude::*;

verus! {

/// The two strings hold the same characters.
pub fn str_eq(a: &str, b: &str) -> (equal: bool)
    ensures
        equal == (a@ == b@),
{
    let n = a.unicode_len();
    if n != b.unicode_len() {
        return false;
    }
    let mut i: usize = 0;
    while i < n
        invariant
            n == a@.len(),
            n == b@.len(),
            i <= n,
            forall|j: int| 0 <= j < i ==> a@[j] == b@[j],
        decreases n - i,
    {
        if a.get_char(i) != b.get_char(i) {
            return false;
        }
        i = i + 1;
    }
    assert(a@ =~= b@);
    true
}

/// A new `String` holding `prefix` followed by `rest`.
pub fn concat_str(prefix: &str, rest: &str) -> (s: String)
    ensures
        s@ == prefix@ + rest@,
{
    let mut s = prefix.to_owned();
    s.append(rest);
    s
}

/// Unicode `White_Space`, the property that `char::is_whitespace` and
/// `str::trim` go by.
pub open spec fn is_whitespace_spec(c: char) -> bool {
    let v = c as u32;
    ||| 0x09 <= v <= 0x0D
    ||| v == 0x20
    ||| v == 0x85
    ||| v == 0xA0
    ||| v == 0x1680
    ||| 0x2000 <= v <= 0x200A
    ||| v == 0x2028
    ||| v == 0x2029
    ||| v == 0x202F
    ||| v == 0x205F
    ||| v == 0x3000
}

pub fn is_whitespace_char(c: char) -> (ws: bool)
    ensures
        ws == is_whitespace_spec(c),
{
    let v = c as u32;
    (0x09 <= v && v <= 0x0D) || v == 0x20 || v == 0x85 || v == 0xA0 || v == 0x1680 || (0x2000
        <= v && v <= 0x200A) || v == 0x2028 || v == 0x2029 || v == 0x202F || v == 0x205F || v
        == 0x3000
}

/// The text is empty once surrounding whitespace is trimmed.
pub open spec fn is_blank_spec(s: Seq<char>) -> bool {
    forall|i: int| 0 <= i < s.len() ==> is_whitespace_spec(#[trigger] s[i])
}

pub fn is_blank(s: &str) -> (blank: bool)
    ensures
        blank == is_blank_spec(s@),
{
    let n = s.unicode_len();
    let mut i: usize = 0;
    while i < n
        invariant
            n == s@.len(),
            i <= n,
            forall|j: int| 0 <= j < i ==> is_whitespace_spec(#[trigger] s@[j]),
        decreases n - i,
    {
        if !is_whitespace_char(s.get_char(i)) {
            return false;
        }
        i = i + 1;
    }
    true
}

/// The characters of a string, in order.
pub fn chars_of(s: &str) -> (chars: Vec<char>)
    ensures
        chars@ == s@,
{
    broadcast use vstd::string::group_string_axioms;
    let mut chars: Vec<char> = Vec::new();
    for c in it: s.chars()
        invariant
            chars@ == it.seq().take(it.index() as int),
    {
        chars.push(c);
    }
    chars
}

/// Calls `String::from_iter` on `chars[from..to]`: the resulting string
/// holds exactly those characters, in order.
#[verifier::external_body]
pub(crate) fn string_from_chars(chars: &Vec<char>, from: usize, to: usize) -> (s: String)
    requires
        from <= to <= chars@.len(),
    ensures
        s@ == chars@.subrange(from as int, to as int),
{
    String::from_iter(&chars[from..to])
}

pub open spec fn views(strings: Seq<String>) -> Seq<Seq<char>> {
    strings.map_values(|w: String| w@)
}

proof fn lemma_views_push(strings: Seq<String>, w: String)
    ensures
        views(strings.push(w)) == views(strings).push(w@),
{
    assert(views(strings.push(w)) =~= views(strings).push(w@));
}

/// Scanning for whitespace-separated words: the words completed so far and
/// the word being read.
pub open spec fn word_scan(s: Seq<char>) -> (Seq<Seq<char>>, Seq<char>)
    decreases s.len(),
{
    if s.len() == 0 {
        (seq![], seq![])
    } else {
        let (done, current) = word_scan(s.drop_last());
        if is_whitespace_spec(s.last()) {
            if current.len() > 0 {
                (done.push(current), seq![])
            } else {
                (done, seq![])
            }
        } else {
            (done, current.push(s.last()))
        }
    }
}

/// The maximal runs of non-whitespace characters, in order (what
/// `str::split_whitespace` yields).
pub open spec fn words(s: Seq<char>) -> Seq<Seq<char>> {
    let (done, current) = word_scan(s);
    if current.len() > 0 {
        done.push(current)
    } else {
        done
    }
}

/// The whitespace-separated words of `s`.
pub fn split_words(s: &str) -> (result: Vec<String>)
    ensures
        views(result@) == words(s@),
{
    let chars = chars_of(s);
    let mut result: Vec<String> = Vec::new();
    let mut start: usize = 0;
    let mut i: usize = 0;
    while i < chars.len()
        invariant
            chars@ == s@,
            start <= i <= chars@.len(),
            views(result@) == word_scan(chars@.take(i as int)).0,
            chars@.subrange(start as int, i as int) == word_scan(chars@.take(i as int)).1,
        decreases chars@.len() - i,
    {
        assert(chars@.take(i + 1).drop_last() =~= chars@.take(i as int));
        assert(chars@.take(i + 1).last() == chars@[i as int]);
        if is_whitespace_char(chars[i]) {
            if start < i {
                let w = string_from_chars(&chars, start, i);
                proof {
                    lemma_views_push(result@, w);
                }
                result.push(w);
            }
            start = i + 1;
            assert(chars@.subrange(start as int, i + 1) =~= seq![]);
        } else {
            assert(chars@.subrange(start as int, i + 1) =~= chars@.subrange(
                start as int,
                i as int,
            ).push(chars@[i as int]));
        }
        i = i + 1;
    }
    assert(chars@.take(i as int) =~= chars@);
    if start < i {
        let w = string_from_chars(&chars, start, i);
        proof {
            lemma_views_push(result@, w);
        }
        result.push(w);
    }
    result
}

/// A line without the carriage return that ended it, if any.
pub open spec fn strip_carriage_return(line: Seq<char>) -> Seq<char> {
    if line.len() > 0 && line.last() == '\r' {
        line.drop_last()
    } else {
        line
    }
}

/// Scanning for lines: the lines completed so far and the line being read.
pub open spec fn line_scan(s: Seq<char>) -> (Seq<Seq<char>>, Seq<char>)
    decreases s.len(),
{
    if s.len() == 0 {
        (seq![], seq![])
    } else {
        let (done, current) = line_scan(s.drop_last());
        if s.last() == '\n' {
            (done.push(strip_carriage_return(current)), seq![])
        } else {
            (done, current.push(s.last()))
        }
    }
}

/// The lines of `s` as `str::lines` yields them: split at each `\n`, a `\r`
/// just before it removed, and no empty last line after a final newline.
pub open spec fn lines(s: Seq<char>) -> Seq<Seq<char>> {
    let (done, current) = line_scan(s);
    if current.len() > 0 {
        done.push(current)
    } else {
        done
    }
}

/// The lines of `s`.
pub fn split_lines(s: &str) -> (result: Vec<String>)
    ensures
        views(result@) == lines(s@),
{
    let chars = chars_of(s);
    let mut result: Vec<String> = Vec::new();
    let mut start: usize = 0;
    let mut i: usize = 0;
    while i < chars.len()
        invariant
            chars@ == s@,
            start <= i <= chars@.len(),
            views(result@) == line_scan(chars@.take(i as int)).0,
            chars@.subrange(start as int, i as int) == line_scan(chars@.take(i as int)).1,
        decreases chars@.len() - i,
    {
        assert(chars@.take(i + 1).drop_last() =~= chars@.take(i as int));
        assert(chars@.take(i + 1).last() == chars@[i as int]);
        if chars[i] == '\n' {
            let end = if start < i && chars[i - 1] == '\r' {
                i - 1
            } else {
                i
            };
            let w = string_from_chars(&chars, start, end);
            assert(w@ =~= strip_carriage_return(chars@.subrange(start as int, i as int)));
            proof {
                lemma_views_push(result@, w);
            }
            result.push(w);
            start = i + 1;
            assert(chars@.subrange(start as int, i + 1) =~= seq![]);
        } else {
            assert(chars@.subrange(start as int, i + 1) =~= chars@.subrange(
                start as int,
                i as int,
            ).push(chars@[i as int]));
        }
        i = i + 1;
    }
    assert(chars@.take(i as int) =~= chars@);
    if start < i {
        let w = string_from_chars(&chars, start, i);
        proof {
            lemma_views_push(result@, w);
        }
        result.push(w);
    }
    result
}

pub open spec fn digit_char(d: nat) -> char {
    if d == 0 { '0' } else if d == 1 { '1' } else if d == 2 { '2' } else if d == 3 { '3' }
    else if d == 4 { '4' } else if d == 5 { '5' } else if d == 6 { '6' } else if d == 7 { '7' }
    else if d == 8 { '8' } else { '9' }
}

/// The decimal digits of `n`, most significant first, without leading zeros.
pub open spec fn decimal(n: nat) -> Seq<char>
    decreases n,
{
    if n < 10 {
        seq![digit_char(n)]
    } else {
        decimal(n / 10).push(digit_char(n % 10))
    }
}

fn digit_to_char(d: u64) -> (c: char)
    requires
        d < 10,
    ensures
        c == digit_char(d as nat),
{
    if d == 0 { '0' } else if d == 1 { '1' } else if d == 2 { '2' } else if d == 3 { '3' }
    else if d == 4 { '4' } else if d == 5 { '5' } else if d == 6 { '6' } else if d == 7 { '7' }
    else if d == 8 { '8' } else { '9' }
}

fn push_decimal(out: &mut Vec<char>, n: u64)
    ensures
        final(out)@ == old(out)@ + decimal(n as nat),
    decreases n,
{
    if n >= 10 {
        push_decimal(out, n / 10);
    }
    let ghost before = out@;
    out.push(digit_to_char(n % 10));
    proof {
        if n >= 10 {
            assert(out@ =~= old(out)@ + decimal(n as nat));
        } else {
            assert(out@ =~= old(out)@ + decimal(n as nat));
        }
    }
}

/// `n` written in decimal, as `to_string` writes an integer.
pub fn decimal_string(n: u64) -> (s: String)
    ensures
        s@ == decimal(n as nat),
{
    let mut chars: Vec<char> = Vec::new();
    push_decimal(&mut chars, n);
    assert(chars@ =~= decimal(n as nat));
    string_from_chars(&chars, 0, chars.len())
}

pub open spec fn is_digit(c: char) -> bool {
    '0' <= c && c <= '9'
}

pub open spec fn digit_value(c: char) -> nat {
    (c as u32 - '0' as u32) as nat
}

/// The number a sequence of decimal digits denotes.
pub open spec fn digits_value(d: Seq<char>) -> nat
    decreases d.len(),
{
    if d.len() == 0 {
        0
    } else {
        digits_value(d.drop_last()) * 10 + digit_value(d.last())
    }
}

proof fn lemma_digits_value_grows(d: Seq<char>, k: int)
    requires
        0 <= k <= d.len(),
    ensures
        digits_value(d.take(k)) <= digits_value(d),
    decreases d.len() - k,
{
    if k < d.len() {
        lemma_digits_value_grows(d, k + 1);
        assert(d.take(k + 1).drop_last() =~= d.take(k));
    } else {
        assert(d.take(k) =~= d);
    }
}

/// `s` without one leading `+`, if it has one.
pub open spec fn without_plus(s: Seq<char>) -> Seq<char> {
    if s.len() > 0 && s[0] == '+' {
        s.drop_first()
    } else {
        s
    }
}

/// What `str::parse::<u64>` gives: an optional `+` followed by one or more
/// decimal digits whose value fits in a `u64`; anything else is refused.
pub open spec fn parse_u64_spec(s: Seq<char>) -> Option<u64> {
    let d = without_plus(s);
    if d.len() > 0 && (forall|i: int| 0 <= i < d.len() ==> is_digit(#[trigger] d[i]))
        && digits_value(d) <= u64::MAX {
        Some(digits_value(d) as u64)
    } else {
        None
    }
}

pub fn parse_u64(s: &str) -> (value: Option<u64>)
    ensures
        value == parse_u64_spec(s@),
{
    let chars = chars_of(s);
    let mut i: usize = 0;
    if chars.len() > 0 && chars[0] == '+' {
        i = 1;
    }
    let ghost d = without_plus(s@);
    let ghost start = i as int;
    assert(d =~= chars@.skip(start));
    if i == chars.len() {
        return None;
    }
    let mut acc: u64 = 0;
    while i < chars.len()
        invariant
            chars@ == s@,
            d == without_plus(s@),
            d == chars@.skip(start),
            0 <= start <= 1,
            start <= i <= chars@.len(),
            acc == digits_value(d.take(i - start)),
            forall|j: int| 0 <= j < i - start ==> is_digit(#[trigger] d[j]),
        decreases chars@.len() - i,
    {
        let c = chars[i];
        assert(d.len() == chars@.len() - start);
        assert(d[i - start] == chars@[i as int]);
        if !('0' <= c && c <= '9') {
            assert(!is_digit(d[i - start]));
            return None;
        }
        let digit = (c as u32 - '0' as u32) as u64;
        assert(d.take(i - start + 1).drop_last() =~= d.take(i - start));
        assert(digits_value(d.take(i - start + 1)) == acc * 10 + digit);
        match acc.checked_mul(10) {
            Some(m) => match m.checked_add(digit) {
                Some(next) => {
                    acc = next;
                },
                None => {
                    proof {
                        lemma_digits_value_grows(d, i - start + 1);
                    }
                    return None;
                },
            },
            None => {
                proof {
                    lemma_digits_value_grows(d, i - start + 1);
                }
                return None;
            },
        }
        i = i + 1;
    }
    assert(d.take(i - start) =~= d);
    Some(acc)
}

/// `s` begins with `prefix`.
pub open spec fn starts_with_spec(s: Seq<char>, prefix: Seq<char>) -> bool {
    prefix.len() <= s.len() && s.take(prefix.len() as int) == prefix
}

pub fn starts_with(s: &str, prefix: &str) -> (result: bool)
    ensures
        result == starts_with_spec(s@, prefix@),
{
    let a = chars_of(s);
    let b = chars_of(prefix);
    if b.len() > a.len() {
        return false;
    }
    let mut i: usize = 0;
    while i < b.len()
        invariant
            a@ == s@,
            b@ == prefix@,
            b@.len() <= a@.len(),
            i <= b@.len(),
            forall|j: int| 0 <= j < i ==> a@[j] == b@[j],
        decreases b@.len() - i,
    {
        if a[i] != b[i] {
            assert(s@.take(prefix@.len() as int)[i as int] != prefix@[i as int]);
            return false;
        }
        i = i + 1;
    }
    assert(s@.take(prefix@.len() as int) =~= prefix@);
    true
}

/// `s` ends with `suffix`.
pub open spec fn ends_with_spec(s: Seq<char>, suffix: Seq<char>) -> bool {
    suffix.len() <= s.len() && s.skip(s.len() - suffix.len()) == suffix
}

pub fn ends_with(s: &str, suffix: &str) -> (result: bool)
    ensures
        result == ends_with_spec(s@, suffix@),
{
    let a = chars_of(s);
    let b = chars_of(suffix);
    if b.len() > a.len() {
        return false;
    }
    let offset = a.len() - b.len();
    let mut i: usize = 0;
    while i < b.len()
        invariant
            a@ == s@,
            b@ == suffix@,
            offset as int + b@.len() == a@.len(),
            a@.len() == a.len(),
            i <= b@.len(),
            forall|j: int| 0 <= j < i ==> a@[offset + j] == b@[j],
        decreases b@.len() - i,
    {
        if a[offset + i] != b[i] {
            assert(s@.skip(offset as int)[i as int] != suffix@[i as int]);
            return false;
        }
        i = i + 1;
    }
    assert(s@.skip(offset as int) =~= suffix@);
    true
}

/// The strings joined, with `sep` between consecutive ones.
pub open spec fn join(parts: Seq<Seq<char>>, sep: Seq<char>) -> Seq<char>
    decreases parts.len(),
{
    if parts.len() == 0 {
        seq![]
    } else if parts.len() == 1 {
        parts[0]
    } else {
        join(parts.drop_last(), sep) + sep + parts.last()
    }
}

/// `parts[from..]` joined with `sep`.
pub fn join_from(parts: &Vec<String>, from: usize, sep: &str) -> (joined: String)
    requires
        from <= parts@.len(),
    ensures
        joined@ == join(views(parts@).skip(from as int), sep@),
{
    let mut joined = String::new();
    let mut i = from;
    while i < parts.len()
        invariant
            from <= i <= parts@.len(),
            joined@ == join(views(parts@).skip(from as int).take(i - from), sep@),
        decreases parts@.len() - i,
    {
        let ghost before = views(parts@).skip(from as int).take(i - from);
        assert(views(parts@).skip(from as int).take(i - from + 1).drop_last() =~= before);
        assert(views(parts@).skip(from as int).take(i - from + 1).last() == parts@[i as int]@);
        if i > from {
            joined.append(sep);
        } else {
            assert(before =~= seq![]);
        }
        joined.append(parts[i].as_str());
        i = i + 1;
    }
    assert(views(parts@).skip(from as int).take(i - from) =~= views(parts@).skip(from as int));
    joined
}

/// `s` with leading characters that satisfy `p` removed.
pub open spec fn trim_start_by(s: Seq<char>, p: spec_fn(char) -> bool) -> Seq<char>
    decreases s.len(),
{
    if s.len() > 0 && p(s[0]) {
        trim_start_by(s.drop_first(), p)
    } else {
        s
    }
}

/// `s` with trailing characters that satisfy `p` removed.
pub open spec fn trim_end_by(s: Seq<char>, p: spec_fn(char) -> bool) -> Seq<char>
    decreases s.len(),
{
    if s.len() > 0 && p(s.last()) {
        trim_end_by(s.drop_last(), p)
    } else {
        s
    }
}

/// `s` with leading and trailing characters that satisfy `p` removed.
pub open spec fn trim_by(s: Seq<char>, p: spec_fn(char) -> bool) -> Seq<char> {
    trim_end_by(trim_start_by(s, p), p)
}

/// The characters that trimming removes: one given character, or whitespace.
pub open spec fn trim_target(target: Option<char>) -> spec_fn(char) -> bool {
    |c: char|
        match target {
            Some(t) => c == t,
            None => is_whitespace_spec(c),
        }
}

/// What `str::trim` gives.
pub open spec fn trim_spec(s: Seq<char>) -> Seq<char> {
    trim_by(s, trim_target(None))
}

/// What `str::trim_matches` gives for a single character.
pub open spec fn trim_matches_spec(s: Seq<char>, c: char) -> Seq<char> {
    trim_by(s, trim_target(Some(c)))
}

fn is_trimmed(c: char, target: Option<char>) -> (r: bool)
    ensures
        r == trim_target(target)(c),
{
    match target {
        Some(t) => c == t,
        None => is_whitespace_char(c),
    }
}

fn trim_with(s: &str, target: Option<char>) -> (t: String)
    ensures
        t@ == trim_by(s@, trim_target(target)),
{
    let chars = chars_of(s);
    let ghost p = trim_target(target);
    let mut lo: usize = 0;
    assert(chars@.skip(0) =~= chars@);
    while lo < chars.len() && is_trimmed(chars[lo], target)
        invariant
            chars@ == s@,
            p == trim_target(target),
            lo <= chars@.len(),
            trim_start_by(chars@.skip(lo as int), p) == trim_start_by(chars@, p),
        decreases chars@.len() - lo,
    {
        assert(chars@.skip(lo as int).drop_first() =~= chars@.skip(lo + 1));
        lo = lo + 1;
    }
    assert(trim_start_by(chars@.skip(lo as int), p) == chars@.skip(lo as int));
    let mut hi: usize = chars.len();
    while hi > lo && is_trimmed(chars[hi - 1], target)
        invariant
            chars@ == s@,
            p == trim_target(target),
            lo <= hi <= chars@.len(),
            trim_end_by(chars@.subrange(lo as int, hi as int), p) == trim_end_by(
                chars@.skip(lo as int),
                p,
            ),
        decreases hi,
    {
        assert(chars@.subrange(lo as int, hi as int).drop_last() =~= chars@.subrange(
            lo as int,
            hi - 1,
        ));
        hi = hi - 1;
    }
    assert(chars@.subrange(lo as int, chars@.len() as int) =~= chars@.skip(lo as int));
    assert(trim_end_by(chars@.subrange(lo as int, hi as int), p) == chars@.subrange(
        lo as int,
        hi as int,
    ));
    string_from_chars(&chars, lo, hi)
}

/// `s` without leading and trailing whitespace.
pub fn trim(s: &str) -> (t: String)
    ensures
        t@ == trim_spec(s@),
{
    trim_with(s, None)
}

/// `s` without leading and trailing occurrences of `c`.
pub fn trim_matches(s: &str, c: char) -> (t: String)
    ensures
        t@ == trim_matches_spec(s@, c),
{
    trim_with(s, Some(c))
}

/// `i` is the position of the first `c` in `s`.
pub open spec fn is_first_index(s: Seq<char>, c: char, i: int) -> bool {
    &&& 0 <= i < s.len()
    &&& s[i] == c
    &&& forall|j: int| 0 <= j < i ==> s[j] != c
}

/// What `str::split_once` gives for a single character: the text before the
/// first `c` and the text after it.
pub open spec fn split_once_spec(s: Seq<char>, c: char) -> Option<(Seq<char>, Seq<char>)> {
    if exists|i: int| is_first_index(s, c, i) {
        let i = choose|i: int| is_first_index(s, c, i);
        Some((s.take(i), s.skip(i + 1)))
    } else {
        None
    }
}

/// Splits `s` at the first `c`.
pub fn split_once(s: &str, c: char) -> (parts: Option<(String, String)>)
    ensures
        match (parts, split_once_spec(s@, c)) {
            (Some((a, b)), Some((x, y))) => a@ == x && b@ == y,
            (None, None) => true,
            _ => false,
        },
{
    let chars = chars_of(s);
    let mut i: usize = 0;
    while i < chars.len()
        invariant
            chars@ == s@,
            i <= chars@.len(),
            forall|j: int| 0 <= j < i ==> chars@[j] != c,
        decreases chars@.len() - i,
    {
        if chars[i] == c {
            assert(is_first_index(s@, c, i as int));
            assert forall|k: int| is_first_index(s@, c, k) implies k == i by {
                if k < i {
                    assert(chars@[k] != c);
                } else if k > i {
                    assert(s@[i as int] != c);
                }
            }
            let before = string_from_chars(&chars, 0, i);
            let after = string_from_chars(&chars, i + 1, chars.len());
            assert(chars@.subrange(0, i as int) =~= s@.take(i as int));
            assert(chars@.subrange(i + 1, chars@.len() as int) =~= s@.skip(i + 1));
            return Some((before, after));
        }
        i = i + 1;
    }
    assert forall|k: int| !is_first_index(s@, c, k) by {
        if 0 <= k < s@.len() {
            assert(chars@[k] != c);
        }
    }
    None
}

/// The first of `lines` that begins with `prefix`.
pub open spec fn first_with_prefix(lines: Seq<Seq<char>>, prefix: Seq<char>) -> Option<Seq<char>>
    decreases lines.len(),
{
    if lines.len() == 0 {
        None
    } else if starts_with_spec(lines[0], prefix) {
        Some(lines[0])
    } else {
        first_with_prefix(lines.drop_first(), prefix)
    }
}

/// The first of `lines` that begins with `prefix`.
pub fn find_with_prefix(lines: &Vec<String>, prefix: &str) -> (found: Option<String>)
    ensures
        match (found, first_with_prefix(views(lines@), prefix@)) {
            (Some(l), Some(m)) => l@ == m && starts_with_spec(m, prefix@),
            (None, None) => true,
            _ => false,
        },
{
    let mut i: usize = 0;
    assert(views(lines@).skip(0) =~= views(lines@));
    while i < lines.len()
        invariant
            i <= lines@.len(),
            first_with_prefix(views(lines@).skip(i as int), prefix@) == first_with_prefix(
                views(lines@),
                prefix@,
            ),
        decreases lines@.len() - i,
    {
        assert(views(lines@).skip(i as int)[0] == lines@[i as int]@);
        assert(views(lines@).skip(i as int).drop_first() =~= views(lines@).skip(i + 1));
        if starts_with(lines[i].as_str(), prefix) {
            return Some(lines[i].clone());
        }
        i = i + 1;
    }
    None
}

/// How many of `lines` begin with `prefix`.
pub open spec fn count_with_prefix(lines: Seq<Seq<char>>, prefix: Seq<char>) -> nat
    decreases lines.len(),
{
    if lines.len() == 0 {
        0
    } else {
        count_with_prefix(lines.drop_last(), prefix) + if starts_with_spec(
            lines.last(),
            prefix,
        ) {
            1nat
        } else {
            0nat
        }
    }
}

/// How many of `lines` begin with `prefix`.
pub fn count_prefixed(lines: &Vec<String>, prefix: &str) -> (n: usize)
    ensures
        n == count_with_prefix(views(lines@), prefix@),
{
    let mut n: usize = 0;
    let mut i: usize = 0;
    while i < lines.len()
        invariant
            i <= lines@.len(),
            n <= i,
            n == count_with_prefix(views(lines@).take(i as int), prefix@),
        decreases lines@.len() - i,
    {
        assert(views(lines@).take(i + 1).drop_last() =~= views(lines@).take(i as int));
        assert(views(lines@).take(i + 1).last() == lines@[i as int]@);
        if starts_with(lines[i].as_str(), prefix) {
            n = n + 1;
        }
        i = i + 1;
    }
    assert(views(lines@).take(i as int) =~= views(lines@));
    n
}

/// The characters of an optional string.
pub open spec fn opt_view(o: Option<String>) -> Option<Seq<char>> {
    match o {
        Some(s) => Some(s@),
        None => None,
    }
}

/// The characters of `s` from position `from` on, as a new string.
pub fn suffix_from(s: &str, from: usize) -> (rest: String)
    requires
        from <= s@.len(),
    ensures
        rest@ == s@.skip(from as int),
{
    let chars = chars_of(s);
    let rest = string_from_chars(&chars, from, chars.len());
    assert(chars@.subrange(from as int, chars@.len() as int) =~= s@.skip(from as int));
    rest
}

/// `s` with every occurrence of `pat` replaced by `rep`, scanning from the
/// left and not rescanning replaced text (what `str::replace` does).
pub open spec fn replace_spec(s: Seq<char>, pat: Seq<char>, rep: Seq<char>) -> Seq<char>
    recommends
        pat.len() > 0,
    decreases s.len(),
{
    if s.len() == 0 || pat.len() == 0 {
        s
    } else if starts_with_spec(s, pat) {
        rep + replace_spec(s.skip(pat.len() as int), pat, rep)
    } else {
        seq![s[0]] + replace_spec(s.drop_first(), pat, rep)
    }
}

fn starts_with_at(chars: &Vec<char>, at: usize, pat: &Vec<char>) -> (found: bool)
    requires
        at <= chars@.len(),
    ensures
        found == starts_with_spec(chars@.skip(at as int), pat@),
{
    if pat.len() > chars.len() - at {
        return false;
    }
    let mut k: usize = 0;
    while k < pat.len()
        invariant
            at + pat@.len() <= chars@.len(),
            chars@.len() == chars.len(),
            k <= pat@.len(),
            forall|j: int| 0 <= j < k ==> chars@[at + j] == pat@[j],
        decreases pat@.len() - k,
    {
        if chars[at + k] != pat[k] {
            assert(chars@.skip(at as int).take(pat@.len() as int)[k as int] != pat@[k as int]);
            return false;
        }
        k = k + 1;
    }
    assert(chars@.skip(at as int).take(pat@.len() as int) =~= pat@);
    true
}

/// Replaces every occurrence of `pat` in `s` by `rep`.
pub fn replace(s: &str, pat: &str, rep: &str) -> (out: String)
    requires
        pat@.len() > 0,
    ensures
        out@ == replace_spec(s@, pat@, rep@),
{
    let chars = chars_of(s);
    let p = chars_of(pat);
    let r = chars_of(rep);
    let mut out: Vec<char> = Vec::new();
    let mut i: usize = 0;
    assert(chars@.skip(0) =~= chars@);
    while i < chars.len()
        invariant
            chars@ == s@,
            p@ == pat@,
            r@ == rep@,
            p@.len() > 0,
            i <= chars@.len(),
            out@ + replace_spec(chars@.skip(i as int), p@, r@) == replace_spec(s@, pat@, rep@),
        decreases chars@.len() - i,
    {
        let ghost rest = chars@.skip(i as int);
        if starts_with_at(&chars, i, &p) {
            let ghost before = out@;
            let mut k: usize = 0;
            while k < r.len()
                invariant
                    k <= r@.len(),
                    out@ == before + r@.take(k as int),
                decreases r@.len() - k,
            {
                out.push(r[k]);
                assert(out@ =~= before + r@.take(k + 1));
                k = k + 1;
            }
            assert(r@.take(k as int) =~= r@);
            assert(rest.skip(p@.len() as int) =~= chars@.skip(i + p@.len()));
            assert(out@ + replace_spec(chars@.skip(i + p@.len()), p@, r@) =~= before + (r@
                + replace_spec(rest.skip(p@.len() as int), p@, r@)));
            i = i + p.len();
        } else {
            let ghost before = out@;
            out.push(chars[i]);
            assert(rest.drop_first() =~= chars@.skip(i + 1));
            assert(rest[0] == chars@[i as int]);
            assert(out@ + replace_spec(chars@.skip(i + 1), p@, r@) =~= before + (seq![rest[0]]
                + replace_spec(rest.drop_first(), p@, r@)));
            i = i + 1;
        }
    }
    assert(chars@.skip(i as int) =~= Seq::<char>::empty());
    assert(out@ + replace_spec(chars@.skip(i as int), p@, r@) =~= out@);
    string_from_chars(&out, 0, out.len())
}

} // verus!
