//! Small text helpers: decimal rendering, string building and searching.

use vstd::prelude::*;
use vstd::string::StringExecFns;

verus! {

/// The character of a decimal digit.
pub open spec fn digit_char(d: nat) -> char {
    if d == 0 {
        '0'
    } else if d == 1 {
        '1'
    } else if d == 2 {
        '2'
    } else if d == 3 {
        '3'
    } else if d == 4 {
        '4'
    } else if d == 5 {
        '5'
    } else if d == 6 {
        '6'
    } else if d == 7 {
        '7'
    } else if d == 8 {
        '8'
    } else {
        '9'
    }
}

/// The decimal representation of a natural number, without leading zeros.
pub open spec fn decimal(n: nat) -> Seq<char>
    decreases n,
{
    if n < 10 {
        seq![digit_char(n)]
    } else {
        decimal(n / 10).push(digit_char(n % 10))
    }
}

/// The one-character string of a decimal digit.
fn digit_str(d: u64) -> (r: &'static str)
    requires
        d < 10,
    ensures
        r@ == seq![digit_char(d as nat)],
{
    proof {
        reveal_strlit("0");
        reveal_strlit("1");
        reveal_strlit("2");
        reveal_strlit("3");
        reveal_strlit("4");
        reveal_strlit("5");
        reveal_strlit("6");
        reveal_strlit("7");
        reveal_strlit("8");
        reveal_strlit("9");
    }
    match d {
        0 => "0",
        1 => "1",
        2 => "2",
        3 => "3",
        4 => "4",
        5 => "5",
        6 => "6",
        7 => "7",
        8 => "8",
        _ => "9",
    }
}

/// The decimal representation of `n`.
pub fn decimal_string(n: u64) -> (r: String)
    ensures
        r@ == decimal(n as nat),
    decreases n,
{
    if n < 10 {
        String::from_str(digit_str(n))
    } else {
        let mut s = decimal_string(n / 10);
        s.append(digit_str(n % 10));
        s
    }
}

/// `a` followed by `b`.
pub fn concat2(a: &str, b: &str) -> (r: String)
    ensures
        r@ == a@ + b@,
{
    let mut s = String::from_str(a);
    s.append(b);
    s
}

/// `a`, `b` and `c` in order.
pub fn concat3(a: &str, b: &str, c: &str) -> (r: String)
    ensures
        r@ == a@ + b@ + c@,
{
    let mut s = String::from_str(a);
    s.append(b);
    s.append(c);
    s
}

/// Whether `needle` occurs in `hay` starting at position `i`.
pub open spec fn occurs_at(hay: Seq<char>, needle: Seq<char>, i: int) -> bool {
    0 <= i && i + needle.len() <= hay.len() && hay.subrange(i, i + needle.len()) == needle
}

/// Whether `needle` occurs anywhere in `hay`.
pub open spec fn seq_contains(hay: Seq<char>, needle: Seq<char>) -> bool {
    exists|i: int| occurs_at(hay, needle, i)
}

/// Whether `hay` begins with `prefix`.
pub open spec fn seq_starts_with(hay: Seq<char>, prefix: Seq<char>) -> bool {
    prefix.len() <= hay.len() && hay.subrange(0, prefix.len() as int) == prefix
}

/// Whether the characters of `hay` at `i..` begin with `needle`.
fn matches_at(hay: &str, hay_len: usize, needle: &str, needle_len: usize, i: usize) -> (r: bool)
    requires
        hay_len == hay@.len(),
        needle_len == needle@.len(),
        i + needle_len <= hay_len,
    ensures
        r == occurs_at(hay@, needle@, i as int),
{
    let mut j: usize = 0;
    while j < needle_len
        invariant
            hay_len == hay@.len(),
            needle_len == needle@.len(),
            i + needle_len <= hay_len,
            j <= needle_len,
            forall|k: int| 0 <= k < j ==> hay@[i + k] == needle@[k],
        decreases needle_len - j,
    {
        if hay.get_char(i + j) != needle.get_char(j) {
            assert(hay@.subrange(i as int, i + needle_len)[j as int] != needle@[j as int]);
            return false;
        }
        j = j + 1;
    }
    assert(hay@.subrange(i as int, i + needle_len) =~= needle@);
    true
}

/// Whether `needle` occurs in `hay`.
pub fn contains_str(hay: &str, needle: &str) -> (r: bool)
    ensures
        r == seq_contains(hay@, needle@),
{
    let hay_len = hay.unicode_len();
    let needle_len = needle.unicode_len();
    if needle_len > hay_len {
        return false;
    }
    let last = hay_len - needle_len;
    let mut i: usize = 0;
    while i < last
        invariant
            hay_len == hay@.len(),
            needle_len == needle@.len(),
            last == hay_len - needle_len,
            i <= last,
            forall|k: int| 0 <= k < i ==> !occurs_at(hay@, needle@, k),
        decreases last - i,
    {
        if matches_at(hay, hay_len, needle, needle_len, i) {
            return true;
        }
        i = i + 1;
    }
    if matches_at(hay, hay_len, needle, needle_len, last) {
        return true;
    }
    assert forall|k: int| !occurs_at(hay@, needle@, k) by {
        if 0 <= k < last {
        } else if k > last {
            assert(k + needle_len > hay_len);
        }
    }
    false
}

/// Whether `hay` begins with `prefix`.
pub fn starts_with_str(hay: &str, prefix: &str) -> (r: bool)
    ensures
        r == seq_starts_with(hay@, prefix@),
{
    let hay_len = hay.unicode_len();
    let prefix_len = prefix.unicode_len();
    if prefix_len > hay_len {
        return false;
    }
    matches_at(hay, hay_len, prefix, prefix_len, 0)
}

/// Whether two strings hold the same characters.
pub fn str_eq(a: &str, b: &str) -> (r: bool)
    ensures
        r == (a@ == b@),
{
    let a_len = a.unicode_len();
    let b_len = b.unicode_len();
    if a_len != b_len {
        return false;
    }
    let r = matches_at(a, a_len, b, b_len, 0);
    assert(a@.subrange(0, b_len as int) =~= a@);
    r
}

} // verus!

verus! {

/// The Unicode lower-case mapping of a text, as `str::to_lowercase`
/// computes it.
pub uninterp spec fn lowercase(s: Seq<char>) -> Seq<char>;

/// `str::to_lowercase`: the text with every character mapped to lower case
/// by the Unicode rules. The result is named, not described: its contract
/// says only that it is the lower-case mapping of the argument.
#[verifier::external_body]
pub(crate) fn to_lowercase(s: &str) -> (r: String)
    ensures
        r@ == lowercase(s@),
{
    s.to_lowercase()
}

} // verus!

verus! {

/// The characters of `s`, one per element.
pub fn chars_of(s: &str) -> (v: Vec<char>)
    ensures
        v@ == s@,
{
    let mut v: Vec<char> = Vec::new();
    for c in it: s.chars()
        invariant
            v@ == it.seq().take(it.index() as int),
    {
        v.push(c);
    }
    assert(v@ =~= s@);
    v
}

} // verus!

verus! {

/// Whether `c` is white space by the Unicode `White_Space` property, the
/// rule `char::is_whitespace` follows.
pub open spec fn is_space(c: char) -> bool {
    let n = c as u32;
    (0x09 <= n <= 0x0D) || n == 0x20 || n == 0x85 || n == 0xA0 || n == 0x1680 || (0x2000 <= n
        <= 0x200A) || n == 0x2028 || n == 0x2029 || n == 0x202F || n == 0x205F || n == 0x3000
}

/// Whether `c` is white space (see [`is_space`]).
pub fn is_space_char(c: char) -> (r: bool)
    ensures
        r == is_space(c),
{
    let n = c as u32;
    (0x09 <= n && n <= 0x0D) || n == 0x20 || n == 0x85 || n == 0xA0 || n == 0x1680 || (0x2000 <= n
        && n <= 0x200A) || n == 0x2028 || n == 0x2029 || n == 0x202F || n == 0x205F || n == 0x3000
}

/// `s` without its leading white space.
pub open spec fn trim_start(s: Seq<char>) -> Seq<char>
    decreases s.len(),
{
    if s.len() > 0 && is_space(s[0]) {
        trim_start(s.drop_first())
    } else {
        s
    }
}

/// `s` without its trailing white space.
pub open spec fn trim_end(s: Seq<char>) -> Seq<char>
    decreases s.len(),
{
    if s.len() > 0 && is_space(s.last()) {
        trim_end(s.drop_last())
    } else {
        s
    }
}

/// `s` without leading and trailing white space, as `str::trim` gives it.
pub open spec fn trim(s: Seq<char>) -> Seq<char> {
    trim_end(trim_start(s))
}

/// Dropping the first `k` characters, all white space and followed by a
/// character that is not, is what `trim_start` does.
proof fn lemma_trim_start_skip(s: Seq<char>, k: int)
    requires
        0 <= k <= s.len(),
        forall|i: int| 0 <= i < k ==> is_space(#[trigger] s[i]),
        k == s.len() || !is_space(s[k]),
    ensures
        trim_start(s) == s.skip(k),
    decreases k,
{
    if k == 0 {
        assert(s.skip(0) =~= s);
    } else {
        let t = s.drop_first();
        assert forall|i: int| 0 <= i < k - 1 implies is_space(#[trigger] t[i]) by {
            assert(t[i] == s[i + 1]);
        }
        lemma_trim_start_skip(t, k - 1);
        assert(t.skip(k - 1) =~= s.skip(k));
    }
}

/// Keeping the first `m` characters, when all after them are white space
/// and the last kept one is not, is what `trim_end` does.
proof fn lemma_trim_end_take(s: Seq<char>, m: int)
    requires
        0 <= m <= s.len(),
        forall|i: int| m <= i < s.len() ==> is_space(#[trigger] s[i]),
        m == 0 || !is_space(s[m - 1]),
    ensures
        trim_end(s) == s.take(m),
    decreases s.len() - m,
{
    if m == s.len() {
        assert(s.take(m) =~= s);
    } else {
        let t = s.drop_last();
        assert forall|i: int| m <= i < t.len() implies is_space(#[trigger] t[i]) by {
            assert(t[i] == s[i]);
        }
        lemma_trim_end_take(t, m);
        assert(t.take(m) =~= s.take(m));
    }
}

/// The bounds of the trimmed part of `v[start..end]`.
pub fn trim_bounds(v: &Vec<char>, start: usize, end: usize) -> (r: (usize, usize))
    requires
        start <= end <= v@.len(),
    ensures
        start <= r.0 <= r.1 <= end,
        trim(v@.subrange(start as int, end as int)) == v@.subrange(r.0 as int, r.1 as int),
{
    let mut a = start;
    while a < end && is_space_char(v[a])
        invariant
            start <= a <= end <= v@.len(),
            forall|i: int| start <= i < a ==> is_space(#[trigger] v@[i]),
        decreases end - a,
    {
        a = a + 1;
    }
    let mut b = end;
    while b > a && is_space_char(v[b - 1])
        invariant
            start <= a <= b <= end <= v@.len(),
            forall|i: int| b <= i < end ==> is_space(#[trigger] v@[i]),
        decreases b - a,
    {
        b = b - 1;
    }
    proof {
        let s = v@.subrange(start as int, end as int);
        assert forall|i: int| 0 <= i < a - start implies is_space(#[trigger] s[i]) by {
            assert(s[i] == v@[start + i]);
        }
        lemma_trim_start_skip(s, a - start);
        let u = v@.subrange(a as int, end as int);
        assert(s.skip(a - start) =~= u);
        assert forall|i: int| b - a <= i < u.len() implies is_space(#[trigger] u[i]) by {
            assert(u[i] == v@[a + i]);
        }
        lemma_trim_end_take(u, b - a);
        assert(u.take(b - a) =~= v@.subrange(a as int, b as int));
    }
    (a, b)
}

/// Whether `v[start..end]` begins with `prefix`.
pub fn range_starts_with(v: &Vec<char>, start: usize, end: usize, prefix: &str) -> (r: bool)
    requires
        start <= end <= v@.len(),
    ensures
        r == seq_starts_with(v@.subrange(start as int, end as int), prefix@),
{
    let n = prefix.unicode_len();
    if n > end - start {
        return false;
    }
    let mut j: usize = 0;
    while j < n
        invariant
            n == prefix@.len(),
            start + n <= end <= v@.len(),
            j <= n,
            forall|k: int| 0 <= k < j ==> v@[start + k] == prefix@[k],
        decreases n - j,
    {
        if v[start + j] != prefix.get_char(j) {
            assert(v@.subrange(start as int, end as int).subrange(0, n as int)[j as int]
                != prefix@[j as int]);
            return false;
        }
        j = j + 1;
    }
    assert(v@.subrange(start as int, end as int).subrange(0, n as int) =~= prefix@);
    true
}

} // verus!

verus! {

/// `name` appended to the path `base` as `Path::join` does on Unix: an
/// absolute `name` replaces `base`, and a separator is put between them
/// unless `base` is empty or already ends with one.
pub open spec fn join_path(base: Seq<char>, name: Seq<char>) -> Seq<char> {
    if name.len() > 0 && name[0] == '/' {
        name
    } else if base.len() == 0 || base.last() == '/' {
        base + name
    } else {
        base + seq!['/'] + name
    }
}

/// The path `name` under `base` (see [`join_path`]).
pub fn join(base: &str, name: &str) -> (r: String)
    ensures
        r@ == join_path(base@, name@),
{
    proof {
        reveal_strlit("/");
    }
    let nl = name.unicode_len();
    if nl > 0 && name.get_char(0) == '/' {
        return String::from_str(name);
    }
    let bl = base.unicode_len();
    if bl == 0 || base.get_char(bl - 1) == '/' {
        concat2(base, name)
    } else {
        concat3(base, "/", name)
    }
}

/// The lines of `s` as `str::lines` yields them, with the unfinished last
/// line: a line ends at `\n`, and a `\r` just before that `\n` is dropped.
pub open spec fn lines_fold(s: Seq<char>) -> (Seq<Seq<char>>, Seq<char>)
    decreases s.len(),
{
    if s.len() == 0 {
        (Seq::empty(), Seq::empty())
    } else {
        let (done, cur) = lines_fold(s.drop_last());
        if s.last() == '\n' {
            let line = if cur.len() > 0 && cur.last() == '\r' {
                cur.drop_last()
            } else {
                cur
            };
            (done.push(line), Seq::empty())
        } else {
            (done, cur.push(s.last()))
        }
    }
}

/// The lines of `s`, as `str::lines` yields them: split at `\n` (a `\r`
/// just before it dropped), with no empty line after a final `\n`.
pub open spec fn lines(s: Seq<char>) -> Seq<Seq<char>> {
    let (done, cur) = lines_fold(s);
    if cur.len() > 0 {
        done.push(cur)
    } else {
        done
    }
}

/// The lines of `text` (see [`lines`]).
pub fn split_lines(text: &str) -> (r: Vec<String>)
    ensures
        r@.map_values(|l: String| l@) == lines(text@),
{
    let chars = chars_of(text);
    let n = chars.len();
    let mut out: Vec<String> = Vec::new();
    let mut start: usize = 0;
    let mut i: usize = 0;
    assert(text@.take(0) =~= Seq::<char>::empty());
    assert(out@.map_values(|l: String| l@) =~= Seq::<Seq<char>>::empty());
    while i < n
        invariant
            chars@ == text@,
            n == chars@.len(),
            start <= i <= n,
            lines_fold(text@.take(i as int)) == (
                out@.map_values(|l: String| l@),
                text@.subrange(start as int, i as int),
            ),
        decreases n - i,
    {
        assert(text@.take(i + 1).drop_last() =~= text@.take(i as int));
        if chars[i] == '\n' {
            let ghost cur = text@.subrange(start as int, i as int);
            let end = if i > start && chars[i - 1] == '\r' {
                i - 1
            } else {
                i
            };
            assert(end < i ==> cur.drop_last() =~= text@.subrange(start as int, end as int));
            assert(end == i ==> cur =~= text@.subrange(start as int, end as int));
            let ghost before = out@;
            out.push(String::from_str(text.substring_char(start, end)));
            assert(out@.map_values(|l: String| l@) =~= before.map_values(|l: String| l@).push(
                text@.subrange(start as int, end as int),
            ));
            start = i + 1;
            assert(text@.subrange(start as int, i + 1) =~= Seq::<char>::empty());
        } else {
            assert(text@.subrange(start as int, i + 1) =~= text@.subrange(
                start as int,
                i as int,
            ).push(text@[i as int]));
        }
        i = i + 1;
    }
    assert(text@.take(n as int) =~= text@);
    if start < n {
        let ghost before = out@;
        out.push(String::from_str(text.substring_char(start, n)));
        assert(out@.map_values(|l: String| l@) =~= before.map_values(|l: String| l@).push(
            text@.subrange(start as int, n as int),
        ));
    }
    out
}

/// The white-space separated words of `s`, with the unfinished last word.
pub open spec fn words_fold(s: Seq<char>) -> (Seq<Seq<char>>, Seq<char>)
    decreases s.len(),
{
    if s.len() == 0 {
        (Seq::empty(), Seq::empty())
    } else {
        let (done, cur) = words_fold(s.drop_last());
        if is_space(s.last()) {
            if cur.len() > 0 {
                (done.push(cur), Seq::empty())
            } else {
                (done, cur)
            }
        } else {
            (done, cur.push(s.last()))
        }
    }
}

/// The words of `s` as `str::split_whitespace` yields them: the maximal
/// runs of characters that are not white space.
pub open spec fn words(s: Seq<char>) -> Seq<Seq<char>> {
    let (done, cur) = words_fold(s);
    if cur.len() > 0 {
        done.push(cur)
    } else {
        done
    }
}

/// The words of `text` (see [`words`]).
pub fn split_words(text: &str) -> (r: Vec<String>)
    ensures
        r@.map_values(|w: String| w@) == words(text@),
{
    let chars = chars_of(text);
    let n = chars.len();
    let mut out: Vec<String> = Vec::new();
    let mut start: usize = 0;
    let mut i: usize = 0;
    assert(text@.take(0) =~= Seq::<char>::empty());
    assert(out@.map_values(|w: String| w@) =~= Seq::<Seq<char>>::empty());
    while i < n
        invariant
            chars@ == text@,
            n == chars@.len(),
            start <= i <= n,
            words_fold(text@.take(i as int)) == (
                out@.map_values(|w: String| w@),
                text@.subrange(start as int, i as int),
            ),
        decreases n - i,
    {
        assert(text@.take(i + 1).drop_last() =~= text@.take(i as int));
        if is_space_char(chars[i]) {
            if start < i {
                let ghost before = out@;
                out.push(String::from_str(text.substring_char(start, i)));
                assert(out@.map_values(|w: String| w@) =~= before.map_values(|w: String| w@).push(
                    text@.subrange(start as int, i as int),
                ));
            }
            start = i + 1;
            assert(text@.subrange(start as int, i + 1) =~= Seq::<char>::empty());
        } else {
            assert(text@.subrange(start as int, i + 1) =~= text@.subrange(
                start as int,
                i as int,
            ).push(text@[i as int]));
        }
        i = i + 1;
    }
    assert(text@.take(n as int) =~= text@);
    if start < n {
        let ghost before = out@;
        out.push(String::from_str(text.substring_char(start, n)));
        assert(out@.map_values(|w: String| w@) =~= before.map_values(|w: String| w@).push(
            text@.subrange(start as int, n as int),
        ));
    }
    out
}

/// The part of `s` before its first `c`, all of `s` if it has none; the
/// first item `str::split(c)` yields.
pub open spec fn before_char(s: Seq<char>, c: char) -> Seq<char>
    decreases s.len(),
{
    if s.len() == 0 {
        s
    } else if before_char(s.drop_last(), c).len() < s.len() - 1 || s.last() == c {
        before_char(s.drop_last(), c)
    } else {
        s
    }
}

/// Once `c` has been found at `i`, characters after it do not change
/// `before_char`.
proof fn lemma_before_char_after_found(s: Seq<char>, c: char, i: int, k: int)
    requires
        0 <= i < k <= s.len(),
        s[i] == c,
        before_char(s.take(i), c) == s.take(i),
    ensures
        before_char(s.take(k), c) == s.take(i),
    decreases k - i,
{
    if k > i + 1 {
        lemma_before_char_after_found(s, c, i, k - 1);
        assert(s.take(k).drop_last() =~= s.take(k - 1));
    } else {
        assert(s.take(k).drop_last() =~= s.take(i));
    }
}

/// The part of `text` before its first `c` (see [`before_char`]).
pub fn text_before(text: &str, c: char) -> (r: String)
    ensures
        r@ == before_char(text@, c),
{
    let chars = chars_of(text);
    let n = chars.len();
    let mut i: usize = 0;
    assert(text@.take(0) =~= Seq::<char>::empty());
    while i < n && chars[i] != c
        invariant
            chars@ == text@,
            n == chars@.len(),
            i <= n,
            before_char(text@.take(i as int), c) == text@.take(i as int),
        decreases n - i,
    {
        assert(text@.take(i + 1).drop_last() =~= text@.take(i as int));
        i = i + 1;
    }
    if i < n {
        assert(text@.take(i + 1).drop_last() =~= text@.take(i as int));
        proof {
            lemma_before_char_after_found(text@, c, i as int, n as int);
        }
    }
    assert(text@.take(n as int) =~= text@);
    String::from_str(text.substring_char(0, i))
}

} // verus!

verus! {

/// `s` cut to at most `max` bytes for display: unchanged when it fits,
/// otherwise its first `max - 3` bytes followed by `...`. The cut must
/// fall on a character boundary.
pub fn truncate(s: &str, max: usize) -> (r: String)
    requires
        vstd::utf8::encode_utf8(s@).len() <= usize::MAX,
        vstd::utf8::encode_utf8(s@).len() > max ==> max >= 3 && vstd::utf8::is_char_boundary(
            vstd::utf8::encode_utf8(s@),
            max - 3,
        ),
    ensures
        vstd::utf8::encode_utf8(s@).len() <= max ==> r@ == s@,
        vstd::utf8::encode_utf8(s@).len() > max ==> r@ == vstd::utf8::decode_utf8(
            vstd::utf8::encode_utf8(s@).subrange(0, max - 3),
        ) + "..."@,
{
    if s.len() <= max {
        String::from_str(s)
    } else {
        let (head, _) = s.split_at(max - 3);
        proof {
            vstd::utf8::encode_utf8_decode_utf8(head@);
            assert(vstd::utf8::encode_utf8(head@) == vstd::utf8::encode_utf8(s@).subrange(
                0,
                max - 3,
            ));
        }
        concat2(head, "...")
    }
}

} // verus!
