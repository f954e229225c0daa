//! The grammar of the two configuration files: one `key:value` entry per
//! line, whitespace around a line and around a value ignored.

use crate::text::{
    find_char, find_in, is_trimmed, is_whitespace, lemma_find_char, lemma_find_char_is,
    lemma_trim_is_trimmed, line_ranges, lines, pieces, ranges_within, same_text, to_chars, trim,
    trim_range,
};
use vstd::prelude::*;

verus! {

/// What one line of a configuration file says.
pub enum LineView {
    /// Nothing but whitespace.
    Blank,
    /// A key, a colon and a value.
    Entry { key: Seq<char>, value: Seq<char> },
    /// Visible text without a colon.
    Malformed(Seq<char>),
}

/// One line of a configuration file, read.
#[derive(Debug)]
pub enum Line {
    /// Nothing but whitespace.
    Blank,
    /// A key, a colon and a value.
    Entry { key: String, value: String },
    /// Visible text without a colon.
    Malformed(String),
}

impl View for Line {
    type V = LineView;

    open spec fn view(&self) -> LineView {
        match self {
            Line::Blank => LineView::Blank,
            Line::Entry { key, value } => LineView::Entry { key: key@, value: value@ },
            Line::Malformed(text) => LineView::Malformed(text@),
        }
    }
}

/// Reads one line. The line is trimmed first. What stands before its first
/// colon is the key, as it is; what follows the colon is the value,
/// trimmed. A value may hold further colons.
pub open spec fn classify(line: Seq<char>) -> LineView {
    let text = trim(line);
    let colon = find_char(text, ':');
    if text.len() == 0 {
        LineView::Blank
    } else if colon < text.len() {
        LineView::Entry {
            key: text.subrange(0, colon),
            value: trim(text.subrange(colon + 1, text.len() as int)),
        }
    } else {
        LineView::Malformed(text)
    }
}

/// Reads a whole file, line by line.
pub open spec fn parse_lines(content: Seq<char>) -> Seq<LineView> {
    lines(content).map_values(|line: Seq<char>| classify(line))
}

/// The value stored under `key`: that of the last entry with this key.
pub open spec fn lookup(lines: Seq<LineView>, key: Seq<char>) -> Option<Seq<char>>
    decreases lines.len(),
{
    if lines.len() == 0 {
        None
    } else {
        match lines.last() {
            LineView::Entry { key: k, value } if k == key => Some(value),
            _ => lookup(lines.drop_last(), key),
        }
    }
}

/// The first malformed line, if there is one.
pub open spec fn first_malformed(lines: Seq<LineView>) -> Option<Seq<char>>
    decreases lines.len(),
{
    if lines.len() == 0 {
        None
    } else {
        match lines[0] {
            LineView::Malformed(text) => Some(text),
            _ => first_malformed(lines.drop_first()),
        }
    }
}

/// The line that stores `value` under `key`.
pub open spec fn entry_line(key: Seq<char>, value: Seq<char>) -> Seq<char> {
    key + seq![':'] + value + seq!['\n']
}

/// A key that an entry can carry: visible at its first character, without
/// colon and without line feed.
pub open spec fn is_key(key: Seq<char>) -> bool {
    &&& key.len() > 0
    &&& !is_whitespace(key[0])
    &&& !key.contains(':')
    &&& !key.contains('\n')
}

/// A value that an entry gives back as it was stored: trimmed and on one
/// line.
pub open spec fn is_storable(value: Seq<char>) -> bool {
    is_trimmed(value) && !value.contains('\n')
}

/// The views of the lines read.
pub open spec fn line_views(lines: Seq<Line>) -> Seq<LineView> {
    lines.map_values(|line: Line| line@)
}

/// Reads a configuration file.
pub fn read_lines(content: &str) -> (r: Vec<Line>)
    ensures
        line_views(r@) == parse_lines(content@),
{
    let chars = to_chars(content);
    let ranges = line_ranges(&chars);
    let mut out: Vec<Line> = Vec::new();
    let mut i: usize = 0;
    while i < ranges.len()
        invariant
            i <= ranges.len(),
            chars@ == content@,
            ranges_within(ranges@, chars@.len()),
            pieces(chars@, ranges@) == lines(content@),
            line_views(out@) == parse_lines(content@).subrange(0, i as int),
        decreases ranges.len() - i,
    {
        let range = ranges[i];
        let ghost line = chars@.subrange(range.0 as int, range.1 as int);
        let ghost before = line_views(out@);
        assert(pieces(chars@, ranges@)[i as int] == line);
        let (from, to) = trim_range(&chars, range.0, range.1);
        let ghost text = chars@.subrange(from as int, to as int);
        let read = if from == to {
            Line::Blank
        } else {
            let colon = find_in(&chars, from, to, ':');
            if colon < to {
                let (value_from, value_to) = trim_range(&chars, colon + 1, to);
                proof {
                    assert(text.subrange(0, colon - from) == chars@.subrange(
                        from as int,
                        colon as int,
                    ));
                    assert(text.subrange(colon - from + 1, text.len() as int) == chars@.subrange(
                        colon + 1,
                        to as int,
                    ));
                }
                Line::Entry {
                    key: String::from_str(content.substring_char(from, colon)),
                    value: String::from_str(content.substring_char(value_from, value_to)),
                }
            } else {
                Line::Malformed(String::from_str(content.substring_char(from, to)))
            }
        };
        assert(read@ == classify(line));
        out.push(read);
        proof {
            assert(line_views(out@) =~= before.push(classify(line)));
            assert(parse_lines(content@).subrange(0, i + 1) =~= parse_lines(content@).subrange(
                0,
                i as int,
            ).push(classify(line)));
        }
        i += 1;
    }
    assert(parse_lines(content@).subrange(0, i as int) == parse_lines(content@));
    out
}

/// The value stored under `key` in the lines read.
pub fn find_value<'a>(lines: &'a Vec<Line>, key: &str) -> (r: Option<&'a str>)
    ensures
        match r {
            Some(value) => lookup(line_views(lines@), key@) == Some(value@),
            None => lookup(line_views(lines@), key@) is None,
        },
{
    let mut i: usize = lines.len();
    assert(line_views(lines@).subrange(0, i as int) == line_views(lines@));
    while i > 0
        invariant
            i <= lines.len(),
            lookup(line_views(lines@), key@) == lookup(
                line_views(lines@).subrange(0, i as int),
                key@,
            ),
        decreases i,
    {
        let ghost upto = line_views(lines@).subrange(0, i as int);
        assert(upto.last() == lines@[i - 1]@);
        assert(upto.drop_last() == line_views(lines@).subrange(0, i - 1));
        match &lines[i - 1] {
            Line::Entry { key: k, value } => {
                if same_text(k.as_str(), key) {
                    return Some(value.as_str());
                }
            },
            _ => {},
        }
        i -= 1;
    }
    None
}

/// The first malformed line among the lines read.
pub fn find_malformed<'a>(lines: &'a Vec<Line>) -> (r: Option<&'a str>)
    ensures
        match r {
            Some(text) => first_malformed(line_views(lines@)) == Some(text@),
            None => first_malformed(line_views(lines@)) is None,
        },
{
    let mut i: usize = 0;
    assert(line_views(lines@).subrange(0, lines@.len() as int) == line_views(lines@));
    while i < lines.len()
        invariant
            i <= lines.len(),
            first_malformed(line_views(lines@)) == first_malformed(
                line_views(lines@).subrange(i as int, lines@.len() as int),
            ),
        decreases lines.len() - i,
    {
        let ghost rest = line_views(lines@).subrange(i as int, lines@.len() as int);
        assert(rest[0] == lines@[i as int]@);
        assert(rest.drop_first() == line_views(lines@).subrange(i + 1, lines@.len() as int));
        match &lines[i] {
            Line::Malformed(text) => {
                return Some(text.as_str());
            },
            _ => {},
        }
        i += 1;
    }
    None
}

/// Writes the line that stores `value` under `key`.
pub fn format_entry(key: &str, value: &str) -> (r: String)
    ensures
        r@ == entry_line(key@, value@),
{
    proof {
        reveal_strlit(":");
        reveal_strlit("\n");
        assert(":"@ == seq![':']);
        assert("\n"@ == seq!['\n']);
    }
    let mut line = String::from_str(key);
    line.append(":");
    line.append(value);
    line.append("\n");
    line
}

/// An entry line in front of a file is read as that entry, and the rest of
/// the file is read as it would be alone.
pub proof fn lemma_entry_line_parses(key: Seq<char>, value: Seq<char>, rest: Seq<char>)
    requires
        is_key(key),
        is_storable(value),
    ensures
        parse_lines(entry_line(key, value) + rest) == seq![LineView::Entry { key, value }]
            + parse_lines(rest),
{
    let text = key + seq![':'] + value;
    let content = entry_line(key, value) + rest;
    let n = text.len() as int;
    assert forall|i: int| 0 <= i < n implies content[i] != '\n' by {
        if i < key.len() {
            assert(content[i] == key[i]);
        } else if i > key.len() {
            assert(content[i] == value[i - key.len() - 1]);
        }
    }
    assert(content[n] == '\n');
    lemma_find_char_is(content, '\n', n);
    assert(content.subrange(0, n) == text);
    assert(content.subrange(n + 1, content.len() as int) == rest);
    assert(lines(content) == seq![text] + lines(rest));
    assert(text[0] == key[0]);
    if value.len() > 0 {
        assert(text.last() == value.last());
    } else {
        assert(text.last() == ':');
    }
    assert(is_trimmed(text));
    assert(trim(text) == text);
    assert forall|i: int| 0 <= i < key.len() implies text[i] != ':' by {
        assert(text[i] == key[i]);
    }
    lemma_find_char_is(text, ':', key.len() as int);
    assert(text.subrange(0, key.len() as int) == key);
    assert(text.subrange(key.len() as int + 1, text.len() as int) == value);
    assert(trim(value) == value);
    assert(classify(text) == LineView::Entry { key, value });
    assert(parse_lines(content) =~= seq![LineView::Entry { key, value }] + parse_lines(rest));
}

/// No line of a text holds a line feed.
pub proof fn lemma_lines_hold_no_line_feed(s: Seq<char>)
    ensures
        forall|i: int| 0 <= i < lines(s).len() ==> !(#[trigger] lines(s)[i]).contains('\n'),
    decreases s.len(),
{
    let k = find_char(s, '\n');
    lemma_find_char(s, '\n');
    if s.len() > 0 {
        if k < s.len() {
            let head = s.subrange(0, k);
            let rest = s.subrange(k + 1, s.len() as int);
            lemma_lines_hold_no_line_feed(rest);
            assert forall|i: int| 0 <= i < lines(s).len() implies !(#[trigger] lines(
                s,
            )[i]).contains('\n') by {
                if i == 0 {
                    assert(lines(s)[0] == head);
                    assert forall|j: int| 0 <= j < head.len() implies head[j] != '\n' by {
                        assert(head[j] == s[j]);
                    }
                } else {
                    assert(lines(s)[i] == lines(rest)[i - 1]);
                }
            }
        } else {
            assert(lines(s)[0] == s);
        }
    }
}

/// The value of an entry read from a text without line feed is storable.
pub proof fn lemma_classified_value_is_storable(line: Seq<char>)
    requires
        !line.contains('\n'),
    ensures
        classify(line) matches LineView::Entry { key, value } ==> is_storable(value),
{
    let text = trim(line);
    let colon = find_char(text, ':');
    lemma_trim_is_trimmed(line);
    lemma_find_char(text, ':');
    if text.len() > 0 && colon < text.len() {
        let raw = text.subrange(colon + 1, text.len() as int);
        lemma_trim_is_trimmed(raw);
        if trim(raw).contains('\n') {
            assert(raw.contains('\n'));
            let j = choose|j: int| 0 <= j < raw.len() && raw[j] == '\n';
            assert(text[colon + 1 + j] == '\n');
            assert(text.contains('\n'));
        }
    }
}

/// A value found under a key is the value of one of the lines.
pub proof fn lemma_lookup_is_some_entry(lines: Seq<LineView>, key: Seq<char>)
    ensures
        lookup(lines, key) matches Some(value) ==> exists|i: int|
            0 <= i < lines.len() && #[trigger] lines[i] == (LineView::Entry { key, value }),
    decreases lines.len(),
{
    if lines.len() > 0 {
        match lines.last() {
            LineView::Entry { key: k, value } if k == key => {
                assert(lines[lines.len() - 1] == (LineView::Entry { key, value }));
            },
            _ => {
                let front = lines.drop_last();
                lemma_lookup_is_some_entry(front, key);
                if let Some(value) = lookup(front, key) {
                    let i = choose|i: int|
                        0 <= i < front.len() && #[trigger] front[i] == (LineView::Entry {
                            key,
                            value,
                        });
                    assert(lines[i] == front[i]);
                }
            },
        }
    }
}

/// Every value that a file stores is storable: trimmed and on one line.
pub proof fn lemma_stored_value_is_storable(content: Seq<char>, key: Seq<char>)
    ensures
        lookup(parse_lines(content), key) matches Some(value) ==> is_storable(value),
{
    let parsed = parse_lines(content);
    lemma_lookup_is_some_entry(parsed, key);
    if let Some(value) = lookup(parsed, key) {
        let i = choose|i: int|
            0 <= i < parsed.len() && #[trigger] parsed[i] == (LineView::Entry { key, value });
        lemma_lines_hold_no_line_feed(content);
        assert(parsed[i] == classify(lines(content)[i]));
        lemma_classified_value_is_storable(lines(content)[i]);
    }
}

} // verus!
