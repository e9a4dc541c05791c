//! Character-level text handling: whitespace, trimming, case folding,
//! searching, decimal rendering and bounded truncation.

use vstd::prelude::*;
use vstd::utf8::{decode_utf8, valid_utf8};

verus! {

/// The Unicode `White_Space` property, which `char::is_whitespace`, `str::trim`
/// and `str::split_whitespace` all use.
pub open spec fn is_white_space(c: char) -> bool {
    let v = c as u32;
    ||| 0x9 <= v <= 0xd
    ||| v == 0x20
    ||| v == 0x85
    ||| v == 0xa0
    ||| v == 0x1680
    ||| 0x2000 <= v <= 0x200a
    ||| v == 0x2028
    ||| v == 0x2029
    ||| v == 0x202f
    ||| v == 0x205f
    ||| v == 0x3000
}

/// Drops leading white space.
pub open spec fn trim_front(s: Seq<char>) -> Seq<char>
    decreases s.len(),
{
    if s.len() > 0 && is_white_space(s[0]) {
        trim_front(s.drop_first())
    } else {
        s
    }
}

/// Drops trailing white space.
pub open spec fn trim_back(s: Seq<char>) -> Seq<char>
    decreases s.len(),
{
    if s.len() > 0 && is_white_space(s.last()) {
        trim_back(s.drop_last())
    } else {
        s
    }
}

/// `str::trim`: white space removed from both ends.
pub open spec fn trimmed(s: Seq<char>) -> Seq<char> {
    trim_back(trim_front(s))
}

/// True when the text holds nothing but white space.
pub open spec fn is_blank(s: Seq<char>) -> bool {
    forall|i: int| 0 <= i < s.len() ==> is_white_space(#[trigger] s[i])
}

/// The white-space separated words of `s`, in order (`str::split_whitespace`).
pub open spec fn words(s: Seq<char>) -> Seq<Seq<char>>
    decreases s.len(),
{
    if s.len() == 0 {
        Seq::empty()
    } else {
        let prefix = s.drop_last();
        let c = s.last();
        let before = words(prefix);
        if is_white_space(c) {
            before
        } else if prefix.len() > 0 && !is_white_space(prefix.last()) {
            before.update(before.len() - 1, before.last().push(c))
        } else {
            before.push(seq![c])
        }
    }
}

/// The pieces joined with `sep` between consecutive pieces (`[T]::join`).
pub open spec fn join_with(pieces: Seq<Seq<char>>, sep: Seq<char>) -> Seq<char>
    decreases pieces.len(),
{
    if pieces.len() == 0 {
        Seq::empty()
    } else if pieces.len() == 1 {
        pieces[0]
    } else {
        join_with(pieces.drop_last(), sep) + sep + pieces.last()
    }
}

/// The words of `s` joined by single spaces.
pub open spec fn collapse_white_space(s: Seq<char>) -> Seq<char> {
    join_with(words(s), seq![' '])
}

/// ASCII upper-case letters mapped to lower case, everything else kept.
pub open spec fn ascii_lower_char(c: char) -> char {
    if 'A' <= c && c <= 'Z' {
        ((c as u32) + 32) as char
    } else {
        c
    }
}

/// `str::to_ascii_lowercase`.
pub open spec fn ascii_lower(s: Seq<char>) -> Seq<char> {
    Seq::new(s.len(), |i: int| ascii_lower_char(s[i]))
}

/// `t` is a prefix of `s`.
pub open spec fn has_prefix(s: Seq<char>, t: Seq<char>) -> bool {
    t.len() <= s.len() && s.subrange(0, t.len() as int) == t
}

/// `t` is a suffix of `s`.
pub open spec fn has_suffix(s: Seq<char>, t: Seq<char>) -> bool {
    t.len() <= s.len() && s.subrange(s.len() - t.len(), s.len() as int) == t
}

/// `t` occurs in `s` as a contiguous piece.
pub open spec fn has_infix(s: Seq<char>, t: Seq<char>) -> bool {
    exists|i: int| 0 <= i && i + t.len() <= s.len() && #[trigger] s.subrange(i, i + t.len()) == t
}

/// The decimal digit character for `d < 10`.
pub open spec fn digit_char(d: nat) -> char {
    if d == 0 {
        '0'
    } else if d == 1 {
        '1'
    } else if d == 2 {
        '2'
    } else if d == 3 {
        '3'
    } else if d == 4 {
        '4'
    } else if d == 5 {
        '5'
    } else if d == 6 {
        '6'
    } else if d == 7 {
        '7'
    } else if d == 8 {
        '8'
    } else {
        '9'
    }
}

/// The decimal rendering of `n`, without leading zeros (`"0"` for zero).
pub open spec fn decimal(n: nat) -> Seq<char>
    decreases n,
{
    if n < 10 {
        seq![digit_char(n)]
    } else {
        decimal(n / 10).push(digit_char(n % 10))
    }
}

/// The text kept by a bounded truncation: the text itself when it has at most
/// `max` characters, otherwise its first `max - notice.len()` characters
/// (none when the notice is longer than `max`) followed by the notice.
pub open spec fn truncated_with(value: Seq<char>, max: nat, notice: Seq<char>) -> Seq<char> {
    if value.len() <= max {
        value
    } else {
        let kept: int = if notice.len() <= max {
            max - notice.len()
        } else {
            0
        };
        value.subrange(0, kept) + notice
    }
}

/// Drops trailing `'.'` characters (`str::trim_end_matches('.')`).
pub open spec fn trim_trailing_dots(s: Seq<char>) -> Seq<char>
    decreases s.len(),
{
    if s.len() > 0 && s.last() == '.' {
        trim_trailing_dots(s.drop_last())
    } else {
        s
    }
}

/// Appends one character (`String::push`).
#[verifier::external_body]
pub(crate) fn push_char(s: &mut String, c: char)
    ensures
        final(s)@ == old(s)@.push(c),
{
    s.push(c);
}

/// The characters of a string slice, in order.
pub fn chars_of(s: &str) -> (res: Vec<char>)
    ensures
        res@ == s@,
{
    let mut out: Vec<char> = Vec::new();
    for c in it: s.chars()
        invariant
            out@ == it.seq().take(it.index() as int),
            it.seq() == s@,
    {
        out.push(c);
    }
    out
}

/// A string holding the given characters.
pub fn string_from(chars: &[char]) -> (res: String)
    ensures
        res@ == chars@,
{
    let mut out = String::new();
    let n = chars.len();
    for i in 0..n
        invariant
            n == chars@.len(),
            out@ == chars@.take(i as int),
    {
        push_char(&mut out, chars[i]);
        assert(chars@.take(i + 1) == chars@.take(i as int).push(chars@[i as int]));
    }
    assert(chars@.take(n as int) == chars@);
    out
}

/// An owned copy of a string slice.
pub fn owned(s: &str) -> (res: String)
    ensures
        res@ == s@,
{
    s.to_owned()
}

/// A copy of a string.
pub fn copy_string(s: &String) -> (res: String)
    ensures
        res@ == s@,
{
    s.clone()
}

/// `s` followed by `t`.
pub fn concat(s: &str, t: &str) -> (res: String)
    ensures
        res@ == s@ + t@,
{
    let mut out = s.to_owned();
    out.append(t);
    out
}

/// `char::is_whitespace`.
pub fn is_white_space_char(c: char) -> (r: bool)
    ensures
        r == is_white_space(c),
{
    let v = c as u32;
    (0x9 <= v && v <= 0xd) || v == 0x20 || v == 0x85 || v == 0xa0 || v == 0x1680 || (0x2000 <= v
        && v <= 0x200a) || v == 0x2028 || v == 0x2029 || v == 0x202f || v == 0x205f || v == 0x3000
}

proof fn lemma_trim_front_skip(s: Seq<char>, i: int)
    requires
        0 <= i <= s.len(),
        forall|k: int| 0 <= k < i ==> is_white_space(#[trigger] s[k]),
    ensures
        trim_front(s) == trim_front(s.subrange(i, s.len() as int)),
    decreases i,
{
    if i > 0 {
        lemma_trim_front_skip(s, i - 1);
        let t = s.subrange(i - 1, s.len() as int);
        assert(t[0] == s[i - 1]);
        assert(t.drop_first() =~= s.subrange(i, s.len() as int));
        assert(trim_front(t) == trim_front(t.drop_first()));
    } else {
        assert(s.subrange(0, s.len() as int) =~= s);
    }
}

proof fn lemma_trim_back_skip(s: Seq<char>, j: int)
    requires
        0 <= j <= s.len(),
        forall|k: int| j <= k < s.len() ==> is_white_space(#[trigger] s[k]),
    ensures
        trim_back(s) == trim_back(s.subrange(0, j)),
    decreases s.len() - j,
{
    if j < s.len() {
        lemma_trim_back_skip(s, j + 1);
        let t = s.subrange(0, j + 1);
        assert(t.last() == s[j]);
        assert(t.drop_last() =~= s.subrange(0, j));
        assert(trim_back(t) == trim_back(t.drop_last()));
    } else {
        assert(s.subrange(0, s.len() as int) =~= s);
    }
}

/// The positions `[start, end)` of the trimmed part of `s`.
fn trim_bounds(s: &Vec<char>) -> (res: (usize, usize))
    ensures
        res.0 <= res.1 <= s@.len(),
        trimmed(s@) == s@.subrange(res.0 as int, res.1 as int),
        res.0 < res.1 ==> !is_white_space(s@[res.0 as int]) && !is_white_space(s@[res.1 - 1]),
        forall|k: int| 0 <= k < res.0 ==> is_white_space(#[trigger] s@[k]),
        forall|k: int| res.1 <= k < s@.len() ==> is_white_space(#[trigger] s@[k]),
{
    let n = s.len();
    let mut i: usize = 0;
    while i < n && is_white_space_char(s[i])
        invariant
            i <= n == s@.len(),
            forall|k: int| 0 <= k < i ==> is_white_space(#[trigger] s@[k]),
        decreases n - i,
    {
        i = i + 1;
    }
    proof {
        lemma_trim_front_skip(s@, i as int);
    }
    let ghost front = s@.subrange(i as int, n as int);
    assert(trim_front(front) == front) by {
        if front.len() > 0 {
            assert(front[0] == s@[i as int]);
        }
    }
    let mut j: usize = n;
    while j > i && is_white_space_char(s[j - 1])
        invariant
            i <= j <= n == s@.len(),
            forall|k: int| j <= k < n ==> is_white_space(#[trigger] s@[k]),
        decreases j,
    {
        j = j - 1;
    }
    proof {
        lemma_trim_back_skip(front, j - i);
        assert(front.subrange(0, j - i) == s@.subrange(i as int, j as int));
        let t = s@.subrange(i as int, j as int);
        if t.len() > 0 {
            assert(t.last() == s@[j - 1]);
        }
    }
    (i, j)
}

/// `str::trim`.
pub fn trim(s: &str) -> (res: String)
    ensures
        res@ == trimmed(s@),
{
    let chars = chars_of(s);
    let (i, j) = trim_bounds(&chars);
    string_from(&chars.as_slice()[i..j])
}

/// Whether `s` holds only white space (`s.trim().is_empty()`).
pub fn blank(s: &str) -> (r: bool)
    ensures
        r == (trimmed(s@).len() == 0),
        r == is_blank(s@),
{
    let chars = chars_of(s);
    let (i, j) = trim_bounds(&chars);
    proof {
        if i < j {
            assert(!is_white_space(s@[i as int]));
        }
    }
    i == j
}

/// Joining one more piece adds the separator and the piece (or just the piece
/// when there was none).
pub proof fn lemma_join_push(pieces: Seq<Seq<char>>, w: Seq<char>, sep: Seq<char>)
    ensures
        join_with(pieces.push(w), sep) == if pieces.len() == 0 {
            w
        } else {
            join_with(pieces, sep) + sep + w
        },
{
    assert(pieces.push(w).drop_last() == pieces);
}

proof fn lemma_join_extend_last(pieces: Seq<Seq<char>>, c: char, sep: Seq<char>)
    requires
        pieces.len() > 0,
    ensures
        join_with(pieces.update(pieces.len() - 1, pieces.last().push(c)), sep) == join_with(
            pieces,
            sep,
        ).push(c),
{
    let updated = pieces.update(pieces.len() - 1, pieces.last().push(c));
    if pieces.len() == 1 {
    } else {
        assert(updated.drop_last() == pieces.drop_last());
    }
}

/// The text with runs of white space collapsed to one space and no white space
/// at either end (`s.split_whitespace().collect::<Vec<_>>().join(" ")`).
pub fn collapse_chars(s: &Vec<char>) -> (res: String)
    ensures
        res@ == collapse_white_space(s@),
{
    let n = s.len();
    let mut out = String::new();
    let mut i: usize = 0;
    while i < n
        invariant
            i <= n == s@.len(),
            out@ == join_with(words(s@.take(i as int)), seq![' ']),
            (out@.len() == 0) == (words(s@.take(i as int)).len() == 0),
        decreases n - i,
    {
        let c = s[i];
        let ghost prefix = s@.take(i as int);
        let ghost ws = words(prefix);
        assert(s@.take(i + 1).drop_last() =~= prefix);
        assert(s@.take(i + 1).last() == c);
        if is_white_space_char(c) {
        } else if i > 0 && !is_white_space_char(s[i - 1]) {
            proof {
                assert(prefix.last() == s@[i - 1]);
                lemma_words_nonempty_after_word_char(prefix);
                lemma_join_extend_last(ws, c, seq![' ']);
            }
            push_char(&mut out, c);
        } else {
            proof {
                if i > 0 {
                    assert(prefix.last() == s@[i - 1]);
                }
                lemma_join_push(ws, seq![c], seq![' ']);
            }
            if !out.as_str().is_empty() {
                push_char(&mut out, ' ');
            }
            push_char(&mut out, c);
            proof {
                if ws.len() > 0 {
                    assert(out@ == join_with(ws, seq![' ']) + seq![' '] + seq![c]);
                } else {
                    assert(out@ == seq![c]);
                }
            }
        }
        i = i + 1;
    }
    assert(s@.take(n as int) == s@);
    out
}

proof fn lemma_words_nonempty_after_word_char(s: Seq<char>)
    requires
        s.len() > 0,
        !is_white_space(s.last()),
    ensures
        words(s).len() > 0,
    decreases s.len(),
{
    let prefix = s.drop_last();
    if prefix.len() > 0 && !is_white_space(prefix.last()) {
        lemma_words_nonempty_after_word_char(prefix);
    }
}

/// `s.split_whitespace().collect::<Vec<_>>().join(" ")`.
pub fn normalize_string(value: &str) -> (res: String)
    ensures
        res@ == collapse_white_space(value@),
{
    let chars = chars_of(value);
    collapse_chars(&chars)
}

/// `str::to_ascii_lowercase`.
pub fn ascii_lowercase(s: &str) -> (res: String)
    ensures
        res@ == ascii_lower(s@),
{
    let chars = chars_of(s);
    let n = chars.len();
    let mut out = String::new();
    for i in 0..n
        invariant
            n == chars@.len() == s@.len(),
            chars@ == s@,
            out@ == ascii_lower(s@).take(i as int),
    {
        let c = chars[i];
        let lower = if c >= 'A' && c <= 'Z' {
            ((c as u8) + 32) as char
        } else {
            c
        };
        push_char(&mut out, lower);
        assert(ascii_lower(s@).take(i + 1) == ascii_lower(s@).take(i as int).push(lower));
    }
    assert(ascii_lower(s@).take(n as int) == ascii_lower(s@));
    out
}

/// Whether two texts are equal.
pub fn same_text(s: &str, t: &str) -> (r: bool)
    ensures
        r == (s@ == t@),
{
    let a = chars_of(s);
    let b = chars_of(t);
    if a.len() != b.len() {
        return false;
    }
    let n = a.len();
    for k in 0..n
        invariant
            n == a@.len() == b@.len(),
            a@ == s@,
            b@ == t@,
            forall|j: int| 0 <= j < k ==> a@[j] == b@[j],
    {
        if a[k] != b[k] {
            return false;
        }
    }
    assert(a@ =~= b@);
    true
}

/// Whether `t` is a prefix of `s`.
pub fn starts_with(s: &str, t: &str) -> (r: bool)
    ensures
        r == has_prefix(s@, t@),
{
    let a = chars_of(s);
    let b = chars_of(t);
    if b.len() > a.len() {
        return false;
    }
    let m = b.len();
    for k in 0..m
        invariant
            m == b@.len() <= a@.len(),
            a@ == s@,
            b@ == t@,
            forall|j: int| 0 <= j < k ==> a@[j] == b@[j],
    {
        if a[k] != b[k] {
            assert(s@.subrange(0, m as int)[k as int] != t@[k as int]);
            return false;
        }
    }
    assert(s@.subrange(0, m as int) == t@);
    true
}

/// Whether `t` is a suffix of `s`.
pub fn ends_with(s: &str, t: &str) -> (r: bool)
    ensures
        r == has_suffix(s@, t@),
{
    let a = chars_of(s);
    let b = chars_of(t);
    if b.len() > a.len() {
        return false;
    }
    let m = b.len();
    let off = a.len() - m;
    for k in 0..m
        invariant
            m == b@.len() <= a@.len(),
            off + m == a@.len(),
            off + m <= usize::MAX,
            a@ == s@,
            b@ == t@,
            forall|j: int| 0 <= j < k ==> a@[off + j] == b@[j],
    {
        if a[off + k] != b[k] {
            assert(s@.subrange(off as int, s@.len() as int)[k as int] != t@[k as int]);
            return false;
        }
    }
    assert(s@.subrange(off as int, s@.len() as int) == t@);
    true
}

/// Whether `t` occurs in `s` (`str::contains`).
pub fn contains(s: &str, t: &str) -> (r: bool)
    ensures
        r == has_infix(s@, t@),
{
    let a = chars_of(s);
    let b = chars_of(t);
    let n = a.len();
    let m = b.len();
    if m > n {
        return false;
    }
    let mut i: usize = 0;
    while i <= n - m
        invariant
            n == a@.len(),
            m == b@.len() <= n,
            a@ == s@,
            b@ == t@,
            i <= n - m + 1,
            forall|p: int| 0 <= p < i ==> #[trigger] s@.subrange(p, p + m) != t@,
        decreases n - i,
    {
        let mut k: usize = 0;
        let mut same = true;
        while k < m
            invariant
                k <= m == b@.len(),
                i + m <= n == a@.len(),
                same == (forall|j: int| 0 <= j < k ==> a@[i + j] == b@[j]),
            decreases m - k,
        {
            if a[i + k] != b[k] {
                same = false;
            }
            k = k + 1;
        }
        if same {
            assert(s@.subrange(i as int, i + m) == t@);
            return true;
        }
        assert(s@.subrange(i as int, i + m) != t@) by {
            let j = choose|j: int| 0 <= j < m && a@[i + j] != b@[j];
            assert(s@.subrange(i as int, i + m)[j] != t@[j]);
        }
        i = i + 1;
    }
    assert forall|p: int| 0 <= p && p + t@.len() <= s@.len() implies #[trigger] s@.subrange(
        p,
        p + t@.len(),
    ) != t@ by {}
    false
}

fn digit(d: u64) -> (c: char)
    requires
        d < 10,
    ensures
        c == digit_char(d as nat),
{
    if d == 0 {
        '0'
    } else if d == 1 {
        '1'
    } else if d == 2 {
        '2'
    } else if d == 3 {
        '3'
    } else if d == 4 {
        '4'
    } else if d == 5 {
        '5'
    } else if d == 6 {
        '6'
    } else if d == 7 {
        '7'
    } else if d == 8 {
        '8'
    } else {
        '9'
    }
}

/// The decimal rendering of a number (`u64::to_string`).
pub fn decimal_u64(n: u64) -> (res: String)
    ensures
        res@ == decimal(n as nat),
    decreases n,
{
    if n < 10 {
        let mut out = String::new();
        push_char(&mut out, digit(n));
        out
    } else {
        let mut out = decimal_u64(n / 10);
        push_char(&mut out, digit(n % 10));
        out
    }
}

/// The decimal rendering of a count (`usize::to_string`).
pub fn decimal_usize(n: usize) -> (res: String)
    ensures
        res@ == decimal(n as nat),
{
    decimal_u64(n as u64)
}

/// Truncates `value` to at most `max` characters when it is longer, ending the
/// kept text with `notice`.
pub fn truncate_with(value: &str, max: usize, notice: &str) -> (res: String)
    ensures
        res@ == truncated_with(value@, max as nat, notice@),
{
    let count = value.unicode_len();
    if count <= max {
        return value.to_owned();
    }
    let notice_count = notice.unicode_len();
    let kept = if notice_count <= max {
        max - notice_count
    } else {
        0
    };
    let head = value.substring_char(0, kept);
    concat(head, notice)
}

/// Characters kept for the evidence the final answer sees.
pub proof fn lemma_truncated_len(value: Seq<char>, max: nat, notice: Seq<char>)
    requires
        notice.len() <= max,
    ensures
        truncated_with(value, max, notice).len() <= max,
        value.len() > max ==> truncated_with(value, max, notice).len() == max,
{
}

/// The strings joined with `sep` between consecutive strings (`[String]::join`).
pub fn join_strings(pieces: &Vec<String>, sep: &str) -> (res: String)
    ensures
        res@ == join_with(pieces.deep_view(), sep@),
{
    let ghost all = pieces.deep_view();
    let n = pieces.len();
    let mut out = String::new();
    for i in 0..n
        invariant
            n == pieces@.len() == all.len(),
            all == pieces.deep_view(),
            out@ == join_with(all.take(i as int), sep@),
    {
        proof {
            lemma_join_push(all.take(i as int), all[i as int], sep@);
            assert(all.take(i + 1) =~= all.take(i as int).push(all[i as int]));
        }
        if i > 0 {
            out.append(sep);
        }
        out.append(pieces[i].as_str());
    }
    assert(all.take(n as int) =~= all);
    out
}

/// The text without its trailing `'.'` characters.
pub fn without_trailing_dots(s: &str) -> (res: String)
    ensures
        res@ == trim_trailing_dots(s@),
{
    let chars = chars_of(s);
    let mut end = chars.len();
    assert(s@.take(end as int) =~= s@);
    while end > 0 && chars[end - 1] == '.'
        invariant
            end <= chars@.len(),
            chars@ == s@,
            trim_trailing_dots(s@) == trim_trailing_dots(s@.take(end as int)),
        decreases end,
    {
        assert(s@.take(end as int).drop_last() =~= s@.take(end - 1));
        end = end - 1;
    }
    string_from(&chars.as_slice()[0..end])
}

/// What `String::from_utf8_lossy` gives for `bytes`: the decoded text, each
/// invalid sequence replaced by U+FFFD.
pub uninterp spec fn spec_utf8_lossy(bytes: Seq<u8>) -> Seq<char>;

/// What the `Display` text of the `Utf8Error` that `str::from_utf8` returns
/// for `bytes` reads.
pub uninterp spec fn spec_utf8_error_text(bytes: Seq<u8>) -> Seq<char>;

/// Decodes bytes as UTF-8, replacing each invalid sequence, with
/// `String::from_utf8_lossy`. The contract claims what the documentation
/// promises: valid UTF-8 decodes as it is.
#[verifier::external_body]
pub(crate) fn utf8_lossy(bytes: &[u8]) -> (res: String)
    ensures
        res@ == spec_utf8_lossy(bytes@),
        valid_utf8(bytes@) ==> res@ == decode_utf8(bytes@),
{
    String::from_utf8_lossy(bytes).into_owned()
}

/// Decodes bytes as UTF-8 with `str::from_utf8`, or gives the error's text.
/// The contract claims what the documentation promises: the bytes decode
/// exactly when they are valid UTF-8, and then as they are.
#[verifier::external_body]
pub(crate) fn utf8_decode(bytes: &[u8]) -> (res: Result<String, String>)
    ensures
        res is Ok <==> valid_utf8(bytes@),
        res matches Ok(text) ==> text@ == decode_utf8(bytes@),
        res matches Err(error) ==> error@ == spec_utf8_error_text(bytes@),
{
    match std::str::from_utf8(bytes) {
        Ok(text) => Ok(text.to_string()),
        Err(error) => Err(error.to_string()),
    }
}

/// What `trim_front` keeps begins with a character that is not white space.
pub proof fn lemma_trim_front_start(s: Seq<char>)
    ensures
        trim_front(s).len() > 0 ==> !is_white_space(trim_front(s)[0]),
    decreases s.len(),
{
    if s.len() > 0 && is_white_space(s[0]) {
        lemma_trim_front_start(s.drop_first());
    }
}

/// What `trim_back` keeps is a prefix that ends with a character that is not
/// white space.
pub proof fn lemma_trim_back_end(s: Seq<char>)
    ensures
        trim_back(s).len() <= s.len(),
        trim_back(s) == s.take(trim_back(s).len() as int),
        trim_back(s).len() > 0 ==> !is_white_space(trim_back(s).last()),
    decreases s.len(),
{
    if s.len() > 0 && is_white_space(s.last()) {
        lemma_trim_back_end(s.drop_last());
        let k = trim_back(s).len() as int;
        assert(s.drop_last().take(k) =~= s.take(k));
    } else {
        assert(s.take(s.len() as int) =~= s);
    }
}

/// Trimmed text has no white space at either end, and trimming it again
/// changes nothing.
pub proof fn lemma_trimmed_idempotent(s: Seq<char>)
    ensures
        trimmed(trimmed(s)) == trimmed(s),
        trimmed(s).len() > 0 ==> !is_white_space(trimmed(s)[0]) && !is_white_space(trimmed(s).last()),
{
    let f = trim_front(s);
    lemma_trim_front_start(s);
    lemma_trim_back_end(f);
    let t = trim_back(f);
    if t.len() > 0 {
        assert(t[0] == f[0]);
    }
    assert(trim_front(t) == t);
    assert(trim_back(t) == t);
}

/// Lower-casing ASCII letters neither makes nor unmakes white space.
pub proof fn lemma_lower_char_white_space(c: char)
    ensures
        is_white_space(ascii_lower_char(c)) == is_white_space(c),
        ascii_lower_char(ascii_lower_char(c)) == ascii_lower_char(c),
{
    if 'A' <= c && c <= 'Z' {
        let lower = ((c as u32) + 32) as char;
        assert(lower as u32 == (c as u32) + 32);
    }
}

/// Lower-casing text without white space at its ends keeps it so, and
/// lower-casing twice is lower-casing once.
pub proof fn lemma_lower_trimmed(s: Seq<char>)
    requires
        s.len() > 0 ==> !is_white_space(s[0]) && !is_white_space(s.last()),
    ensures
        trimmed(ascii_lower(s)) == ascii_lower(s),
        ascii_lower(ascii_lower(s)) == ascii_lower(s),
{
    let l = ascii_lower(s);
    if s.len() > 0 {
        lemma_lower_char_white_space(s[0]);
        lemma_lower_char_white_space(s.last());
        assert(l[0] == ascii_lower_char(s[0]));
        assert(l.last() == ascii_lower_char(s.last()));
    }
    assert(trim_front(l) == l);
    assert(trim_back(l) == l);
    assert forall|i: int| 0 <= i < s.len() implies #[trigger] ascii_lower(l)[i] == l[i] by {
        lemma_lower_char_white_space(s[i]);
    }
    assert(ascii_lower(l) =~= l);
}

/// The decimal rendering of a number has one digit below ten and more from ten
/// on.
pub proof fn lemma_decimal_len(n: nat)
    ensures
        decimal(n).len() >= 1,
        n < 10 <==> decimal(n).len() == 1,
    decreases n,
{
    if n >= 10 {
        lemma_decimal_len(n / 10);
    }
}

/// Different numbers have different decimal renderings.
pub proof fn lemma_decimal_injective(a: nat, b: nat)
    requires
        decimal(a) == decimal(b),
    ensures
        a == b,
    decreases a,
{
    lemma_decimal_len(a);
    lemma_decimal_len(b);
    if a >= 10 && b >= 10 {
        assert(decimal(a).last() == digit_char(a % 10));
        assert(decimal(b).last() == digit_char(b % 10));
        assert(decimal(a / 10) == decimal(a).drop_last());
        assert(decimal(b / 10) == decimal(b).drop_last());
        lemma_decimal_injective(a / 10, b / 10);
    } else if a < 10 && b < 10 {
        assert(decimal(a)[0] == digit_char(a));
        assert(decimal(b)[0] == digit_char(b));
    }
}

} // verus!
