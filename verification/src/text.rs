//! Character-level text operations shared by the configuration files and the
//! bundle model: trimming, splitting, joining and case handling, each with a
//! mathematical definition over `Seq<char>`.

use vstd::prelude::*;

verus! {

/// The code points that carry the Unicode `White_Space` property.
pub open spec fn is_whitespace(c: char) -> bool {
    ||| ('\u{9}' <= c && c <= '\u{d}')
    ||| c == ' '
    ||| c == '\u{85}'
    ||| c == '\u{a0}'
    ||| c == '\u{1680}'
    ||| ('\u{2000}' <= c && c <= '\u{200a}')
    ||| c == '\u{2028}'
    ||| c == '\u{2029}'
    ||| c == '\u{202f}'
    ||| c == '\u{205f}'
    ||| c == '\u{3000}'
}

/// `s` without its leading whitespace.
pub open spec fn trim_start(s: Seq<char>) -> Seq<char>
    decreases s.len(),
{
    if s.len() > 0 && is_whitespace(s[0]) {
        trim_start(s.drop_first())
    } else {
        s
    }
}

/// `s` without its trailing whitespace.
pub open spec fn trim_end(s: Seq<char>) -> Seq<char>
    decreases s.len(),
{
    if s.len() > 0 && is_whitespace(s.last()) {
        trim_end(s.drop_last())
    } else {
        s
    }
}

/// `s` without leading and trailing whitespace.
pub open spec fn trim(s: Seq<char>) -> Seq<char> {
    trim_end(trim_start(s))
}

/// A text that trimming leaves as it is: empty, or with a visible character
/// at both ends.
pub open spec fn is_trimmed(s: Seq<char>) -> bool {
    s.len() > 0 ==> !is_whitespace(s[0]) && !is_whitespace(s.last())
}

/// Index of the first `c` in `s`, or `s.len()` when `s` holds none.
pub open spec fn find_char(s: Seq<char>, c: char) -> int
    decreases s.len(),
{
    if s.len() == 0 {
        0
    } else if s[0] == c {
        0
    } else {
        1 + find_char(s.drop_first(), c)
    }
}

/// Index of the last `c` in `s`, or `-1` when `s` holds none.
pub open spec fn rfind_char(s: Seq<char>, c: char) -> int
    decreases s.len(),
{
    if s.len() == 0 {
        -1
    } else if s.last() == c {
        s.len() - 1
    } else {
        rfind_char(s.drop_last(), c)
    }
}

/// The pieces of `s` between occurrences of `sep`. A text without `sep`,
/// the empty text too, is one piece; a separator at either end leaves an
/// empty piece there.
pub open spec fn split(s: Seq<char>, sep: char) -> Seq<Seq<char>>
    decreases s.len(),
{
    let k = find_char(s, sep);
    if 0 <= k < s.len() {
        seq![s.subrange(0, k)] + split(s.subrange(k + 1, s.len() as int), sep)
    } else {
        seq![s]
    }
}

/// The lines of `s`: the pieces between line feeds, where a final line feed
/// ends the last line and opens no new one. The empty text has no line.
pub open spec fn lines(s: Seq<char>) -> Seq<Seq<char>>
    decreases s.len(),
{
    let k = find_char(s, '\n');
    if s.len() == 0 {
        Seq::empty()
    } else if 0 <= k < s.len() {
        seq![s.subrange(0, k)] + lines(s.subrange(k + 1, s.len() as int))
    } else {
        seq![s]
    }
}

/// The parts in order with `sep` between each two neighbours.
pub open spec fn join(parts: Seq<Seq<char>>, sep: Seq<char>) -> Seq<char>
    decreases parts.len(),
{
    if parts.len() == 0 {
        Seq::empty()
    } else if parts.len() == 1 {
        parts[0]
    } else {
        join(parts.drop_last(), sep) + sep + parts.last()
    }
}

/// The parts in order with nothing between them.
pub open spec fn concat(parts: Seq<Seq<char>>) -> Seq<char>
    decreases parts.len(),
{
    if parts.len() == 0 {
        Seq::empty()
    } else {
        concat(parts.drop_last()) + parts.last()
    }
}

/// Code point of `c` with the ASCII capital letters mapped to their small
/// forms.
pub open spec fn ascii_fold(c: char) -> int {
    if 'A' <= c && c <= 'Z' {
        c as int + 32
    } else {
        c as int
    }
}

/// Equality of two texts up to the case of ASCII letters.
pub open spec fn eq_ignore_ascii_case(a: Seq<char>, b: Seq<char>) -> bool {
    &&& a.len() == b.len()
    &&& forall|i: int| 0 <= i < a.len() ==> ascii_fold(#[trigger] a[i]) == ascii_fold(b[i])
}

/// The extension of a file name: what follows its last dot. A name without
/// a dot, a name whose only dot is its first character, and `..` have none.
pub open spec fn extension_of(file_name: Seq<char>) -> Option<Seq<char>> {
    let k = rfind_char(file_name, '.');
    if file_name == seq!['.', '.'] || k <= 0 {
        None
    } else {
        Some(file_name.subrange(k + 1, file_name.len() as int))
    }
}

/// Whether the file name has an extension equal to `wanted` up to ASCII case.
pub open spec fn has_extension(file_name: Seq<char>, wanted: Seq<char>) -> bool {
    match extension_of(file_name) {
        Some(found) => eq_ignore_ascii_case(found, wanted),
        None => false,
    }
}

/// What `find_char` returns: a position inside `s` or its length, with no
/// `c` before it and, inside `s`, a `c` at it.
pub proof fn lemma_find_char(s: Seq<char>, c: char)
    ensures
        0 <= find_char(s, c) <= s.len(),
        forall|i: int| 0 <= i < find_char(s, c) ==> s[i] != c,
        find_char(s, c) < s.len() ==> s[find_char(s, c)] == c,
    decreases s.len(),
{
    if s.len() > 0 && s[0] != c {
        let rest = s.drop_first();
        lemma_find_char(rest, c);
        assert forall|i: int| 0 <= i < find_char(s, c) implies s[i] != c by {
            if i > 0 {
                assert(s[i] == rest[i - 1]);
            }
        }
    }
}

/// A position with no `c` before it that holds `c`, or is the length of
/// `s`, is the one `find_char` returns.
pub proof fn lemma_find_char_is(s: Seq<char>, c: char, k: int)
    requires
        0 <= k <= s.len(),
        forall|i: int| 0 <= i < k ==> s[i] != c,
        k < s.len() ==> s[k] == c,
    ensures
        find_char(s, c) == k,
    decreases s.len(),
{
    if s.len() > 0 && s[0] != c {
        let rest = s.drop_first();
        assert forall|i: int| 0 <= i < k - 1 implies rest[i] != c by {
            assert(rest[i] == s[i + 1]);
        }
        lemma_find_char_is(rest, c, k - 1);
    }
}

/// A position that holds `c` with no `c` after it, or `-1` where `s` holds
/// none, is the one `rfind_char` returns.
pub proof fn lemma_rfind_char_is(s: Seq<char>, c: char, k: int)
    requires
        -1 <= k < s.len(),
        forall|i: int| k < i < s.len() ==> s[i] != c,
        k >= 0 ==> s[k] == c,
    ensures
        rfind_char(s, c) == k,
    decreases s.len(),
{
    if s.len() > 0 && s.last() != c {
        let rest = s.drop_last();
        assert forall|i: int| k < i < rest.len() implies rest[i] != c by {
            assert(rest[i] == s[i]);
        }
        lemma_rfind_char_is(rest, c, k);
    }
}

/// Joining one more part appends the separator and the part, or the part
/// alone where it is the first.
pub proof fn lemma_join_push(parts: Seq<Seq<char>>, part: Seq<char>, sep: Seq<char>)
    ensures
        join(parts.push(part), sep) == if parts.len() == 0 {
            part
        } else {
            join(parts, sep) + sep + part
        },
{
    assert(parts.push(part).drop_last() == parts);
}

/// `trim_start` drops a prefix of whitespace and leaves a text that does
/// not begin with whitespace.
pub proof fn lemma_trim_start(s: Seq<char>)
    ensures
        trim_start(s).len() <= s.len(),
        trim_start(s) == s.subrange(s.len() - trim_start(s).len(), s.len() as int),
        trim_start(s).len() > 0 ==> !is_whitespace(trim_start(s)[0]),
        forall|i: int| 0 <= i < s.len() - trim_start(s).len() ==> is_whitespace(s[i]),
    decreases s.len(),
{
    if s.len() > 0 && is_whitespace(s[0]) {
        let rest = s.drop_first();
        lemma_trim_start(rest);
        let t = trim_start(rest);
        assert(t == s.subrange(s.len() - t.len(), s.len() as int));
        assert forall|i: int| 0 <= i < s.len() - t.len() implies is_whitespace(s[i]) by {
            if i > 0 {
                assert(s[i] == rest[i - 1]);
            }
        }
    } else {
        assert(s == s.subrange(0, s.len() as int));
    }
}

/// `trim_end` drops a suffix of whitespace and leaves a text that does not
/// end with whitespace.
pub proof fn lemma_trim_end(s: Seq<char>)
    ensures
        trim_end(s).len() <= s.len(),
        trim_end(s) == s.subrange(0, trim_end(s).len() as int),
        trim_end(s).len() > 0 ==> !is_whitespace(trim_end(s).last()),
        forall|i: int| trim_end(s).len() <= i < s.len() ==> is_whitespace(s[i]),
    decreases s.len(),
{
    if s.len() > 0 && is_whitespace(s.last()) {
        let rest = s.drop_last();
        lemma_trim_end(rest);
        let t = trim_end(rest);
        assert(t == s.subrange(0, t.len() as int));
        assert forall|i: int| t.len() <= i < s.len() implies is_whitespace(s[i]) by {
            if i < rest.len() {
                assert(s[i] == rest[i]);
            }
        }
    } else {
        assert(s == s.subrange(0, s.len() as int));
    }
}

/// What trimming returns is trimmed, and holds a line feed only where the
/// text did.
pub proof fn lemma_trim_is_trimmed(s: Seq<char>)
    ensures
        is_trimmed(trim(s)),
        trim(s).len() <= s.len(),
        forall|c: char| trim(s).contains(c) ==> s.contains(c),
{
    let a = trim_start(s);
    let b = trim_end(a);
    lemma_trim_start(s);
    lemma_trim_end(a);
    if b.len() > 0 {
        assert(b[0] == a[0]);
    }
    assert forall|c: char| b.contains(c) implies s.contains(c) by {
        let i = choose|i: int| 0 <= i < b.len() && b[i] == c;
        assert(a[i] == c);
        assert(s[s.len() - a.len() + i] == c);
    }
}

/// The pieces of `s` that the index pairs cut out, in order.
pub open spec fn pieces(s: Seq<char>, ranges: Seq<(usize, usize)>) -> Seq<Seq<char>> {
    Seq::new(ranges.len(), |i: int| s.subrange(ranges[i].0 as int, ranges[i].1 as int))
}

/// Every index pair is a range inside a text of length `len`.
pub open spec fn ranges_within(ranges: Seq<(usize, usize)>, len: nat) -> bool {
    forall|i: int| 0 <= i < ranges.len() ==> (#[trigger] ranges[i]).0 <= ranges[i].1 <= len
}

/// The characters of a text, for access by index.
pub fn to_chars(s: &str) -> (v: Vec<char>)
    ensures
        v@ == s@,
{
    let mut v: Vec<char> = Vec::new();
    for c in it: s.chars()
        invariant
            it.seq() == s@,
            v@ == s@.subrange(0, it.index() as int),
    {
        v.push(c);
    }
    assert(s@.subrange(0, s@.len() as int) == s@);
    v
}

/// Whether `c` is whitespace.
pub fn is_whitespace_char(c: char) -> (r: bool)
    ensures
        r == is_whitespace(c),
{
    ('\u{9}' <= c && c <= '\u{d}') || c == ' ' || c == '\u{85}' || c == '\u{a0}' || c == '\u{1680}'
        || ('\u{2000}' <= c && c <= '\u{200a}') || c == '\u{2028}' || c == '\u{2029}' || c
        == '\u{202f}' || c == '\u{205f}' || c == '\u{3000}'
}

/// The range that is left of `from..to` once the whitespace at both ends is
/// gone.
pub fn trim_range(v: &Vec<char>, from: usize, to: usize) -> (r: (usize, usize))
    requires
        from <= to <= v.len(),
    ensures
        from <= r.0 <= r.1 <= to,
        v@.subrange(r.0 as int, r.1 as int) == trim(v@.subrange(from as int, to as int)),
{
    let mut a: usize = from;
    while a < to && is_whitespace_char(v[a])
        invariant
            from <= a <= to <= v.len(),
            trim_start(v@.subrange(from as int, to as int)) == trim_start(
                v@.subrange(a as int, to as int),
            ),
        decreases to - a,
    {
        assert(v@.subrange(a as int, to as int).drop_first() == v@.subrange(a + 1, to as int));
        a += 1;
    }
    let mut b: usize = to;
    while a < b && is_whitespace_char(v[b - 1])
        invariant
            a <= b <= to <= v.len(),
            trim_end(v@.subrange(a as int, to as int)) == trim_end(v@.subrange(a as int, b as int)),
        decreases b - a,
    {
        assert(v@.subrange(a as int, b as int).drop_last() == v@.subrange(a as int, b - 1));
        b -= 1;
    }
    (a, b)
}

/// Position of the first `c` in `from..to`, or `to` when the range holds
/// none.
pub fn find_in(v: &Vec<char>, from: usize, to: usize, c: char) -> (r: usize)
    requires
        from <= to <= v.len(),
    ensures
        from <= r <= to,
        r - from == find_char(v@.subrange(from as int, to as int), c),
{
    let mut i: usize = from;
    while i < to && v[i] != c
        invariant
            from <= i <= to <= v.len(),
            forall|j: int| from <= j < i ==> v@[j] != c,
        decreases to - i,
    {
        i += 1;
    }
    proof {
        lemma_find_char_is(v@.subrange(from as int, to as int), c, i - from);
    }
    i
}

/// Position of the last `c` in `from..to`, if the range holds one.
pub fn rfind_in(v: &Vec<char>, from: usize, to: usize, c: char) -> (r: Option<usize>)
    requires
        from <= to <= v.len(),
    ensures
        match r {
            Some(k) => from <= k < to && k - from == rfind_char(
                v@.subrange(from as int, to as int),
                c,
            ),
            None => rfind_char(v@.subrange(from as int, to as int), c) == -1,
        },
{
    let mut i: usize = to;
    while i > from && v[i - 1] != c
        invariant
            from <= i <= to <= v.len(),
            forall|j: int| i <= j < to ==> v@[j] != c,
        decreases i - from,
    {
        i -= 1;
    }
    proof {
        lemma_rfind_char_is(v@.subrange(from as int, to as int), c, i - from - 1);
    }
    if i > from {
        Some(i - 1)
    } else {
        None
    }
}

/// The ranges of the pieces of `v` between occurrences of `sep`.
pub fn split_ranges(v: &Vec<char>, sep: char) -> (r: Vec<(usize, usize)>)
    ensures
        ranges_within(r@, v@.len()),
        pieces(v@, r@) == split(v@, sep),
{
    let n: usize = v.len();
    let mut out: Vec<(usize, usize)> = Vec::new();
    let mut start: usize = 0;
    let mut i: usize = 0;
    proof {
        assert(v@.subrange(0, n as int) == v@);
        assert(pieces(v@, out@) + split(v@, sep) == split(v@, sep));
    }
    while i < n
        invariant
            start <= i <= n,
            n == v.len(),
            ranges_within(out@, v@.len()),
            forall|j: int| start <= j < i ==> v@[j] != sep,
            split(v@, sep) == pieces(v@, out@) + split(v@.subrange(start as int, n as int), sep),
        decreases n - i,
    {
        if v[i] == sep {
            proof {
                let rest = v@.subrange(start as int, n as int);
                lemma_find_char_is(rest, sep, i - start);
                assert(rest.subrange(0, i - start) == v@.subrange(start as int, i as int));
                assert(rest.subrange(i - start + 1, rest.len() as int) == v@.subrange(
                    i + 1,
                    n as int,
                ));
                let head = seq![v@.subrange(start as int, i as int)];
                let tail = split(v@.subrange(i + 1, n as int), sep);
                assert(split(rest, sep) == head + tail);
                assert(pieces(v@, out@.push((start, i))) == pieces(v@, out@) + head);
                assert(pieces(v@, out@) + (head + tail) == (pieces(v@, out@) + head) + tail);
            }
            out.push((start, i));
            start = i + 1;
        }
        i += 1;
    }
    proof {
        let rest = v@.subrange(start as int, n as int);
        lemma_find_char_is(rest, sep, rest.len() as int);
        assert(split(rest, sep) == seq![rest]);
        assert(pieces(v@, out@.push((start, n))) == pieces(v@, out@) + seq![rest]);
    }
    out.push((start, n));
    out
}

/// The ranges of the lines of `v`.
pub fn line_ranges(v: &Vec<char>) -> (r: Vec<(usize, usize)>)
    ensures
        ranges_within(r@, v@.len()),
        pieces(v@, r@) == lines(v@),
{
    let n: usize = v.len();
    let mut out: Vec<(usize, usize)> = Vec::new();
    let mut start: usize = 0;
    let mut i: usize = 0;
    proof {
        assert(v@.subrange(0, n as int) == v@);
        assert(pieces(v@, out@) + lines(v@) == lines(v@));
    }
    while i < n
        invariant
            start <= i <= n,
            n == v.len(),
            ranges_within(out@, v@.len()),
            forall|j: int| start <= j < i ==> v@[j] != '\n',
            lines(v@) == pieces(v@, out@) + lines(v@.subrange(start as int, n as int)),
        decreases n - i,
    {
        if v[i] == '\n' {
            proof {
                let rest = v@.subrange(start as int, n as int);
                lemma_find_char_is(rest, '\n', i - start);
                assert(rest.subrange(0, i - start) == v@.subrange(start as int, i as int));
                assert(rest.subrange(i - start + 1, rest.len() as int) == v@.subrange(
                    i + 1,
                    n as int,
                ));
                let head = seq![v@.subrange(start as int, i as int)];
                let tail = lines(v@.subrange(i + 1, n as int));
                assert(lines(rest) == head + tail);
                assert(pieces(v@, out@.push((start, i))) == pieces(v@, out@) + head);
                assert(pieces(v@, out@) + (head + tail) == (pieces(v@, out@) + head) + tail);
            }
            out.push((start, i));
            start = i + 1;
        }
        i += 1;
    }
    if start < n {
        proof {
            let rest = v@.subrange(start as int, n as int);
            lemma_find_char_is(rest, '\n', rest.len() as int);
            assert(lines(rest) == seq![rest]);
            assert(pieces(v@, out@.push((start, n))) == pieces(v@, out@) + seq![rest]);
        }
        out.push((start, n));
    } else {
        assert(pieces(v@, out@) + Seq::<Seq<char>>::empty() == pieces(v@, out@));
    }
    out
}

/// Code point of `c` with the ASCII capital letters mapped to their small
/// forms.
pub fn fold_ascii(c: char) -> (r: u32)
    ensures
        r == ascii_fold(c),
{
    let n: u32 = c as u32;
    if 'A' <= c && c <= 'Z' {
        n + 32
    } else {
        n
    }
}

/// Whether `from..to` of `v` equals `wanted` up to the case of ASCII
/// letters.
pub fn range_eq_ignore_ascii_case(v: &Vec<char>, from: usize, to: usize, wanted: &Vec<char>) -> (r:
    bool)
    requires
        from <= to <= v.len(),
    ensures
        r == eq_ignore_ascii_case(v@.subrange(from as int, to as int), wanted@),
{
    let n: usize = wanted.len();
    if to - from != n {
        return false;
    }
    let ghost found = v@.subrange(from as int, to as int);
    let mut i: usize = 0;
    while i < n
        invariant
            i <= n,
            n == wanted.len(),
            from + n == to,
            to <= v.len(),
            found == v@.subrange(from as int, to as int),
            forall|j: int| 0 <= j < i ==> ascii_fold(#[trigger] found[j]) == ascii_fold(wanted@[j]),
        decreases n - i,
    {
        if fold_ascii(v[from + i]) != fold_ascii(wanted[i]) {
            assert(found[i as int] == v@[from + i]);
            return false;
        }
        assert(found[i as int] == v@[from + i]);
        i += 1;
    }
    true
}

/// Whether the file name has an extension equal to `wanted` up to ASCII case.
pub fn file_has_extension(file_name: &str, wanted: &str) -> (r: bool)
    ensures
        r == has_extension(file_name@, wanted@),
{
    let name = to_chars(file_name);
    let n: usize = name.len();
    assert(name@.subrange(0, n as int) == name@);
    if n == 2 && name[0] == '.' && name[1] == '.' {
        assert(name@ == seq!['.', '.']);
        return false;
    }
    match rfind_in(&name, 0, n, '.') {
        Some(k) => {
            if k == 0 {
                false
            } else {
                let want = to_chars(wanted);
                range_eq_ignore_ascii_case(&name, k + 1, n, &want)
            }
        },
        None => false,
    }
}

/// Whether two texts hold the same characters.
pub fn same_text(a: &str, b: &str) -> (r: bool)
    ensures
        r == (a@ == b@),
{
    let left = to_chars(a);
    let right = to_chars(b);
    let n: usize = left.len();
    if right.len() != n {
        return false;
    }
    let mut i: usize = 0;
    while i < n
        invariant
            i <= n,
            n == left.len(),
            n == right.len(),
            left@ == a@,
            right@ == b@,
            forall|j: int| 0 <= j < i ==> left@[j] == right@[j],
        decreases n - i,
    {
        if left[i] != right[i] {
            return false;
        }
        i += 1;
    }
    assert(a@ =~= b@);
    true
}

/// The texts that the strings hold, in order.
pub open spec fn texts(strings: Seq<String>) -> Seq<Seq<char>> {
    strings.map_values(|string: String| string@)
}

/// The pieces of `s` between occurrences of `sep`.
pub fn split_text(s: &str, sep: char) -> (r: Vec<String>)
    ensures
        texts(r@) == split(s@, sep),
{
    let chars = to_chars(s);
    let ranges = split_ranges(&chars, sep);
    let mut out: Vec<String> = Vec::new();
    let mut i: usize = 0;
    while i < ranges.len()
        invariant
            i <= ranges.len(),
            chars@ == s@,
            ranges_within(ranges@, chars@.len()),
            texts(out@) == pieces(chars@, ranges@).subrange(0, i as int),
        decreases ranges.len() - i,
    {
        let ghost before = texts(out@);
        let range = ranges[i];
        out.push(String::from_str(s.substring_char(range.0, range.1)));
        assert(texts(out@) =~= before.push(pieces(chars@, ranges@)[i as int]));
        assert(pieces(chars@, ranges@).subrange(0, i + 1) =~= before.push(
            pieces(chars@, ranges@)[i as int],
        ));
        i += 1;
    }
    assert(pieces(chars@, ranges@).subrange(0, i as int) == pieces(chars@, ranges@));
    out
}

/// The parts in order with `sep` between each two neighbours.
pub fn join_texts(parts: &Vec<String>, sep: &str) -> (r: String)
    ensures
        r@ == join(texts(parts@), sep@),
{
    let mut out = String::new();
    let mut i: usize = 0;
    assert(texts(parts@).subrange(0, 0).len() == 0);
    while i < parts.len()
        invariant
            i <= parts.len(),
            out@ == join(texts(parts@).subrange(0, i as int), sep@),
        decreases parts.len() - i,
    {
        if i > 0 {
            out.append(sep);
        }
        out.append(parts[i].as_str());
        proof {
            let done = texts(parts@).subrange(0, i as int);
            assert(texts(parts@).subrange(0, i + 1) == done.push(parts@[i as int]@));
            lemma_join_push(done, parts@[i as int]@, sep@);
        }
        i += 1;
    }
    assert(texts(parts@).subrange(0, i as int) == texts(parts@));
    out
}

} // verus!
