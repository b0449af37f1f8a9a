//! Cutting a log down to the lines and fields that are charted.
//!
//! A log line is a list of fields with commas between them. Of the lines
//! that hold a given text, the second and the fourth field are kept: the time
//! and the value.

use vstd::prelude::*;

verus! {

/// Whether `c` is white space as Unicode defines it.
pub open spec fn is_white_space(c: char) -> bool {
    let code = c as u32;
    ||| 0x09 <= code <= 0x0D
    ||| code == 0x20
    ||| code == 0x85
    ||| code == 0xA0
    ||| code == 0x1680
    ||| 0x2000 <= code <= 0x200A
    ||| code == 0x2028
    ||| code == 0x2029
    ||| code == 0x202F
    ||| code == 0x205F
    ||| code == 0x3000
}

/// Whether `needle` stands in `hay` at index `at`.
pub open spec fn occurs_at(hay: Seq<char>, needle: Seq<char>, at: int) -> bool {
    &&& 0 <= at
    &&& at + needle.len() <= hay.len()
    &&& hay.subrange(at, at + needle.len()) == needle
}

/// Whether `needle` stands somewhere in `hay`. The empty text stands in any.
pub open spec fn contains(hay: Seq<char>, needle: Seq<char>) -> bool {
    exists|at: int| occurs_at(hay, needle, at)
}

/// The index of the first `c` in `text`, or the length of `text` where it
/// holds none.
pub open spec fn first_index(text: Seq<char>, c: char) -> int
    decreases text.len(),
{
    if text.len() == 0 || text[0] == c {
        0
    } else {
        1 + first_index(text.skip(1), c)
    }
}

/// The pieces of `text` between its separators, in order. A text without a
/// separator is one piece; a separator at either end leaves an empty piece
/// there.
pub open spec fn split(text: Seq<char>, separator: char) -> Seq<Seq<char>>
    decreases text.len(),
{
    let end = first_index(text, separator);
    if 0 <= end < text.len() {
        seq![text.take(end)] + split(text.skip(end + 1), separator)
    } else {
        seq![text]
    }
}

/// How many characters of white space `text` starts with.
pub open spec fn leading_space(text: Seq<char>) -> nat
    decreases text.len(),
{
    if text.len() > 0 && is_white_space(text[0]) {
        1 + leading_space(text.skip(1))
    } else {
        0
    }
}

/// How many characters of white space `text` ends with.
pub open spec fn trailing_space(text: Seq<char>) -> nat
    decreases text.len(),
{
    if text.len() > 0 && is_white_space(text.last()) {
        1 + trailing_space(text.drop_last())
    } else {
        0
    }
}

/// `text` without the white space at its start and at its end.
pub open spec fn trimmed(text: Seq<char>) -> Seq<char> {
    if leading_space(text) >= text.len() {
        Seq::empty()
    } else {
        text.subrange(leading_space(text) as int, text.len() - trailing_space(text))
    }
}

/// A piece of text that a line feed ended, without the carriage return
/// before the line feed where there was one.
pub open spec fn without_carriage_return(piece: Seq<char>) -> Seq<char> {
    if piece.len() > 0 && piece.last() == '\r' {
        piece.drop_last()
    } else {
        piece
    }
}

/// The lines of `text`. A line ends with a line feed, or with a carriage
/// return and a line feed; what ends it is no part of it. What follows the
/// last line feed is a line too unless it is empty, and keeps a carriage
/// return at its end.
pub open spec fn lines_of(text: Seq<char>) -> Seq<Seq<char>> {
    let pieces = split(text, '\n');
    let count = if pieces.last().len() == 0 {
        pieces.len() - 1
    } else {
        pieces.len() as int
    };
    Seq::new(
        count as nat,
        |i: int|
            if i < pieces.len() - 1 {
                without_carriage_return(pieces[i])
            } else {
                pieces[i]
            },
    )
}

/// The time and the value of a log line: its second and fourth field, each
/// trimmed, with a comma between them. A line of fewer than four fields has
/// none.
pub open spec fn time_and_value_of(line: Seq<char>) -> Option<Seq<char>> {
    let fields = split(line, ',');
    if fields.len() < 4 {
        None
    } else {
        Some(trimmed(fields[1]) + seq![','] + trimmed(fields[3]))
    }
}

/// The times and values of those of `lines` that hold `needle`, in order, up
/// to the first such line that has none; and whether every such line had one.
pub open spec fn cut_matching(lines: Seq<Seq<char>>, needle: Seq<char>) -> (Seq<Seq<char>>, bool)
    decreases lines.len(),
{
    if lines.len() == 0 {
        (Seq::empty(), true)
    } else if !contains(lines[0], needle) {
        cut_matching(lines.skip(1), needle)
    } else {
        match time_and_value_of(lines[0]) {
            None => (Seq::empty(), false),
            Some(cut) => {
                let rest = cut_matching(lines.skip(1), needle);
                (seq![cut] + rest.0, rest.1)
            },
        }
    }
}

/// The texts that a list of character vectors holds.
pub open spec fn texts(list: Seq<Vec<char>>) -> Seq<Seq<char>> {
    Seq::new(list.len(), |i: int| list[i]@)
}

/// Whether `c` is white space.
pub fn white_space(c: char) -> (space: bool)
    ensures
        space == is_white_space(c),
{
    let code: u32 = c as u32;
    (0x09 <= code && code <= 0x0D) || code == 0x20 || code == 0x85 || code == 0xA0 || code
        == 0x1680 || (0x2000 <= code && code <= 0x200A) || code == 0x2028 || code == 0x2029
        || code == 0x202F || code == 0x205F || code == 0x3000
}

/// The index of the first `c` in `text` at or after `from`, or the length of
/// `text` where none follows.
fn find(text: &[char], from: usize, c: char) -> (at: usize)
    requires
        from <= text.len(),
    ensures
        from <= at <= text.len(),
        at - from == first_index(text@.skip(from as int), c),
{
    let mut at: usize = from;
    while at < text.len() && text[at] != c
        invariant
            from <= at <= text.len(),
            first_index(text@.skip(from as int), c) == (at - from) + first_index(
                text@.skip(at as int),
                c,
            ),
        decreases text.len() - at,
    {
        assert(text@.skip(at as int).skip(1) =~= text@.skip(at + 1));
        at = at + 1;
    }
    at
}

/// A copy of the characters of `text` from `start` up to `end`.
fn copy_range(text: &[char], start: usize, end: usize) -> (copy: Vec<char>)
    requires
        start <= end <= text.len(),
    ensures
        copy@ == text@.subrange(start as int, end as int),
{
    let mut copy: Vec<char> = Vec::new();
    let mut next: usize = start;
    while next < end
        invariant
            start <= next <= end <= text.len(),
            copy@ == text@.subrange(start as int, next as int),
        decreases end - next,
    {
        copy.push(text[next]);
        next = next + 1;
        assert(copy@ =~= text@.subrange(start as int, next as int));
    }
    copy
}

/// The pieces of `text` between its separators.
pub fn split_on(text: &[char], separator: char) -> (pieces: Vec<Vec<char>>)
    ensures
        texts(pieces@) == split(text@, separator),
        pieces.len() >= 1,
{
    let mut pieces: Vec<Vec<char>> = Vec::new();
    let mut start: usize = 0;
    let mut done = false;
    assert(text@.skip(0) =~= text@);
    assert(texts(pieces@) + split(text@, separator) =~= split(text@, separator));
    while !done
        invariant
            start <= text.len(),
            !done ==> split(text@, separator) == texts(pieces@) + split(
                text@.skip(start as int),
                separator,
            ),
            done ==> split(text@, separator) == texts(pieces@) && pieces.len() >= 1,
        decreases text.len() - start + (if done { 0int } else { 1int }),
    {
        let end = find(text, start, separator);
        let piece = copy_range(text, start, end);
        let ghost before = texts(pieces@);
        let ghost rest = text@.skip(start as int);
        pieces.push(piece);
        assert(texts(pieces@) =~= before + seq![piece@]);
        if end < text.len() {
            assert(rest.take(end - start) =~= piece@);
            assert(rest.skip(end - start + 1) =~= text@.skip(end + 1));
            assert(before + (seq![piece@] + split(text@.skip(end + 1), separator)) =~= (before
                + seq![piece@]) + split(text@.skip(end + 1), separator));
            start = end + 1;
        } else {
            assert(rest =~= piece@);
            done = true;
        }
    }
    pieces
}

/// `text` without the white space at its start and at its end.
pub fn trim(text: &[char]) -> (kept: Vec<char>)
    ensures
        kept@ == trimmed(text@),
{
    let mut start: usize = 0;
    assert(text@.skip(0) =~= text@);
    while start < text.len() && white_space(text[start])
        invariant
            start <= text.len(),
            leading_space(text@) == start + leading_space(text@.skip(start as int)),
        decreases text.len() - start,
    {
        assert(text@.skip(start as int).skip(1) =~= text@.skip(start + 1));
        start = start + 1;
    }
    if start >= text.len() {
        return Vec::new();
    }
    assert(leading_space(text@) == start);
    assert(text@.take(text.len() as int) =~= text@);
    let mut end: usize = text.len();
    while white_space(text[end - 1])
        invariant
            start < end <= text.len(),
            !is_white_space(text@[start as int]),
            trailing_space(text@) == (text.len() - end) + trailing_space(text@.take(end as int)),
        decreases end,
    {
        assert(text@.take(end as int).drop_last() =~= text@.take(end - 1));
        end = end - 1;
    }
    copy_range(text, start, end)
}

/// Whether `needle` stands in `hay` at index `at`.
fn stands_at(hay: &[char], needle: &[char], at: usize) -> (stands: bool)
    requires
        at + needle.len() <= hay.len(),
    ensures
        stands == occurs_at(hay@, needle@, at as int),
{
    let mut matched: usize = 0;
    while matched < needle.len()
        invariant
            matched <= needle.len(),
            at + needle.len() <= hay.len(),
            forall|i: int| 0 <= i < matched ==> hay@[at + i] == needle@[i],
        decreases needle.len() - matched,
    {
        if hay[at + matched] != needle[matched] {
            assert(hay@.subrange(at as int, at + needle.len())[matched as int]
                != needle@[matched as int]);
            return false;
        }
        matched = matched + 1;
    }
    assert(hay@.subrange(at as int, at + needle.len()) =~= needle@);
    true
}

/// Whether `needle` stands somewhere in `hay`.
pub fn contains_text(hay: &[char], needle: &[char]) -> (found: bool)
    ensures
        found == contains(hay@, needle@),
{
    if needle.len() == 0 {
        assert(hay@.subrange(0, 0) =~= needle@);
        assert(occurs_at(hay@, needle@, 0));
        return true;
    }
    if needle.len() > hay.len() {
        assert(forall|at: int| !occurs_at(hay@, needle@, at));
        return false;
    }
    let last: usize = hay.len() - needle.len();
    let mut at: usize = 0;
    while at <= last
        invariant
            at <= last + 1,
            last == hay.len() - needle.len(),
            needle.len() > 0,
            forall|before: int| 0 <= before < at ==> !occurs_at(hay@, needle@, before),
        decreases last + 1 - at,
    {
        if stands_at(hay, needle, at) {
            return true;
        }
        at = at + 1;
    }
    assert(forall|at: int| !occurs_at(hay@, needle@, at));
    false
}

/// The time and the value of a log line, where it has the four fields that
/// takes.
pub fn time_and_value(line: &[char]) -> (cut: Option<Vec<char>>)
    ensures
        match cut {
            Some(text) => time_and_value_of(line@) == Some(text@),
            None => time_and_value_of(line@) is None,
        },
{
    let fields = split_on(line, ',');
    if fields.len() < 4 {
        return None;
    }
    assert(texts(fields@)[1] == fields@[1]@);
    assert(texts(fields@)[3] == fields@[3]@);
    let mut text = trim(fields[1].as_slice());
    let value = trim(fields[3].as_slice());
    let ghost time = text@;
    text.push(',');
    let mut next: usize = 0;
    while next < value.len()
        invariant
            next <= value.len(),
            text@ == time + seq![','] + value@.take(next as int),
        decreases value.len() - next,
    {
        text.push(value[next]);
        next = next + 1;
        assert(text@ =~= time + seq![','] + value@.take(next as int));
    }
    assert(value@.take(value.len() as int) =~= value@);
    Some(text)
}

/// The lines of `text`.
pub fn lines(text: &[char]) -> (all: Vec<Vec<char>>)
    ensures
        texts(all@) == lines_of(text@),
{
    let pieces = split_on(text, '\n');
    let count: usize = if pieces[pieces.len() - 1].len() == 0 {
        pieces.len() - 1
    } else {
        pieces.len()
    };
    assert(texts(pieces@).last() == pieces@[pieces.len() - 1]@);
    assert(lines_of(text@).len() == count);
    let mut all: Vec<Vec<char>> = Vec::new();
    let mut next: usize = 0;
    while next < count
        invariant
            next <= count <= pieces.len(),
            texts(pieces@) == split(text@, '\n'),
            lines_of(text@).len() == count,
            all.len() == next,
            forall|i: int| 0 <= i < next ==> all@[i]@ == lines_of(text@)[i],
        decreases count - next,
    {
        let piece = pieces[next].as_slice();
        assert(texts(pieces@)[next as int] == piece@);
        let length = piece.len();
        let line = if next + 1 < pieces.len() && length > 0 && piece[length - 1] == '\r' {
            assert(piece@.drop_last() =~= piece@.subrange(0, length - 1));
            copy_range(piece, 0, length - 1)
        } else {
            assert(piece@ =~= piece@.subrange(0, length as int));
            copy_range(piece, 0, length)
        };
        all.push(line);
        next = next + 1;
    }
    assert(texts(all@) =~= lines_of(text@));
    all
}

/// The times and values of the lines of `log` that hold `filter_string`, in
/// order, and whether they are complete. They are not where a line that holds
/// `filter_string` has fewer than four fields: the list then ends before that
/// line.
pub fn filter_log(log: &[char], filter_string: &[char]) -> (cut: (Vec<Vec<char>>, bool))
    ensures
        (texts(cut.0@), cut.1) == cut_matching(lines_of(log@), filter_string@),
{
    let all = lines(log);
    let ghost whole = texts(all@);
    let mut kept: Vec<Vec<char>> = Vec::new();
    let mut next: usize = 0;
    assert(whole.skip(0) =~= whole);
    assert(texts(kept@) + cut_matching(whole, filter_string@).0 =~= cut_matching(
        whole,
        filter_string@,
    ).0);
    while next < all.len()
        invariant
            next <= all.len(),
            whole == texts(all@),
            whole == lines_of(log@),
            cut_matching(whole, filter_string@) == (
                texts(kept@) + cut_matching(whole.skip(next as int), filter_string@).0,
                cut_matching(whole.skip(next as int), filter_string@).1,
            ),
        decreases all.len() - next,
    {
        let line = all[next].as_slice();
        let ghost here = whole.skip(next as int);
        assert(here[0] == line@);
        assert(here.skip(1) =~= whole.skip(next + 1));
        if contains_text(line, filter_string) {
            match time_and_value(line) {
                None => {
                    assert(texts(kept@) + Seq::<Seq<char>>::empty() =~= texts(kept@));
                    return (kept, false);
                },
                Some(text) => {
                    let ghost before = texts(kept@);
                    let ghost rest = cut_matching(whole.skip(next + 1), filter_string@).0;
                    kept.push(text);
                    assert(texts(kept@) =~= before + seq![text@]);
                    assert(before + (seq![text@] + rest) =~= (before + seq![text@]) + rest);
                },
            }
        }
        next = next + 1;
    }
    assert(texts(kept@) + Seq::<Seq<char>>::empty() =~= texts(kept@));
    (kept, true)
}

} // verus!
