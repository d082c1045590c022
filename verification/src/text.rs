//! Operations on text, stated over sequences of characters.

use vstd::prelude::*;

verus! {

broadcast use vstd::seq_lib::group_seq_properties;

/// Appends one character. Trusted: `String::push` adds the character at the end.
pub assume_specification[ String::push ](s: &mut String, c: char)
    ensures
        final(s)@ == old(s)@.push(c),
;

/// What `str::to_lowercase` returns: the Unicode lowercase of a text.
pub uninterp spec fn unicode_lowercase(text: Seq<char>) -> Seq<char>;

/// The ASCII lowercase of a character.
pub open spec fn ascii_lower(c: char) -> char {
    if 'A' <= c && c <= 'Z' {
        (c as u32 + 32) as char
    } else {
        c
    }
}

/// The ASCII lowercase of a text.
pub open spec fn ascii_lowercase(text: Seq<char>) -> Seq<char> {
    text.map_values(|c: char| ascii_lower(c))
}

/// Trusted: `str::to_lowercase`. Its result is a function of the text alone, and
/// on a text of ASCII characters it is the ASCII lowercase.
#[verifier::external_body]
pub(crate) fn lowercase(text: &str) -> (r: String)
    ensures
        r@ == unicode_lowercase(text@),
        text.is_ascii() ==> r@ == ascii_lowercase(text@),
{
    text.to_lowercase()
}

/// What `str::to_uppercase` returns: the Unicode uppercase of a text.
pub uninterp spec fn unicode_uppercase(text: Seq<char>) -> Seq<char>;

/// Trusted: `str::to_uppercase`. Its result is a function of the text alone.
#[verifier::external_body]
pub(crate) fn uppercase(text: &str) -> (r: String)
    ensures
        r@ == unicode_uppercase(text@),
{
    text.to_uppercase()
}

/// The characters of a text.
pub fn chars(text: &str) -> (r: Vec<char>)
    ensures
        r@ == text@,
{
    let mut r: Vec<char> = Vec::new();
    for c in it: text.chars()
        invariant
            r@ == text@.take(it.index() as int),
            it.seq() == text@,
    {
        r.push(c);
        assert(text@.take(it.index() + 1) =~= text@.take(it.index() as int).push(c));
    }
    assert(text@.take(text@.len() as int) =~= text@);
    r
}

/// The text made of the characters from `from` up to `to`.
pub fn slice(letters: &Vec<char>, from: usize, to: usize) -> (r: String)
    requires
        from <= to <= letters@.len(),
    ensures
        r@ == letters@.subrange(from as int, to as int),
{
    let mut r = String::new();
    let mut i: usize = from;
    while i < to
        invariant
            from <= i <= to <= letters@.len(),
            r@ == letters@.subrange(from as int, i as int),
        decreases to - i,
    {
        r.push(letters[i]);
        i += 1;
        assert(letters@.subrange(from as int, i as int) =~= letters@.subrange(from as int, i - 1).push(letters@[i - 1]));
    }
    r
}

/// Whether two texts are the same.
pub fn same(a: &str, b: &str) -> (r: bool)
    ensures
        r == (a@ == b@),
{
    let x = a.as_bytes();
    let y = b.as_bytes();
    proof {
        vstd::utf8::encode_utf8_decode_utf8(a@);
        vstd::utf8::encode_utf8_decode_utf8(b@);
    }
    if x.len() != y.len() {
        return false;
    }
    let mut i: usize = 0;
    while i < x.len()
        invariant
            x@ == vstd::utf8::encode_utf8(a@),
            y@ == vstd::utf8::encode_utf8(b@),
            x@.len() == y@.len(),
            i <= x@.len(),
            forall|k: int| 0 <= k < i ==> x@[k] == y@[k],
        decreases x.len() - i,
    {
        if x[i] != y[i] {
            return false;
        }
        i += 1;
    }
    assert(x@ =~= y@);
    true
}

/// A copy of an optional text.
pub fn copy_option(text: &Option<String>) -> (r: Option<String>)
    ensures
        r.deep_view() == text.deep_view(),
{
    match text {
        Some(value) => Some(value.clone()),
        None => None,
    }
}

/// Whether two optional texts are the same.
pub fn same_option(a: &Option<String>, b: &Option<String>) -> (r: bool)
    ensures
        r == (a.deep_view() == b.deep_view()),
{
    match (a, b) {
        (Some(a), Some(b)) => same(a, b),
        (None, None) => true,
        _ => false,
    }
}

/// One text after the other.
pub fn concat(a: &str, b: &str) -> (r: String)
    ensures
        r@ == a@ + b@,
{
    let mut r = a.to_owned();
    r.append(b);
    r
}

/// Three texts in a row.
pub fn concat3(a: &str, b: &str, c: &str) -> (r: String)
    ensures
        r@ == a@ + b@ + c@,
{
    let mut r = a.to_owned();
    r.append(b);
    r.append(c);
    r
}

// ---------------------------------------------------------------- searching

/// Whether `part` stands in `text` at index `i`.
pub open spec fn occurs_at(text: Seq<char>, part: Seq<char>, i: int) -> bool {
    0 <= i && i + part.len() <= text.len() && text.subrange(i, i + part.len()) == part
}

/// Whether `part` stands anywhere in `text`.
pub open spec fn occurs(text: Seq<char>, part: Seq<char>) -> bool {
    exists|i: int| occurs_at(text, part, i)
}

/// Whether `i` is the first index at which `part` stands in `text`.
pub open spec fn first_at(text: Seq<char>, part: Seq<char>, i: int) -> bool {
    occurs_at(text, part, i) && forall|j: int| 0 <= j < i ==> !occurs_at(text, part, j)
}

/// The first index at which `part` stands in `text`, if there is one.
pub open spec fn first_index(text: Seq<char>, part: Seq<char>) -> Option<int> {
    if occurs(text, part) {
        Some(choose|i: int| first_at(text, part, i))
    } else {
        None
    }
}

/// Whether the letters of `part` stand in `text` at index `i`.
fn stands_at(text: &Vec<char>, part: &Vec<char>, i: usize) -> (r: bool)
    requires
        i + part@.len() <= text@.len(),
    ensures
        r == occurs_at(text@, part@, i as int),
{
    let total: usize = text.len();
    let mut k: usize = 0;
    while k < part.len()
        invariant
            k <= part@.len(),
            total == text@.len(),
            i + part@.len() <= text@.len(),
            forall|j: int| 0 <= j < k ==> text@[i + j] == part@[j],
        decreases part.len() - k,
    {
        if text[i + k] != part[k] {
            assert(text@.subrange(i as int, i + part@.len())[k as int] != part@[k as int]);
            return false;
        }
        k += 1;
    }
    assert(text@.subrange(i as int, i + part@.len()) =~= part@);
    true
}

/// The first index, in characters, at which `part` stands in the letters of a text.
pub fn find_letters(text: &Vec<char>, part: &Vec<char>) -> (r: Option<usize>)
    ensures
        match r {
            Some(i) => first_at(text@, part@, i as int) && first_index(text@, part@) == Some(i as int),
            None => !occurs(text@, part@) && first_index(text@, part@) is None,
        },
{
    if part.len() > text.len() {
        return None;
    }
    let mut i: usize = 0;
    let last: usize = text.len() - part.len();
    while i <= last
        invariant_except_break
            forall|j: int| 0 <= j < i ==> !occurs_at(text@, part@, j),
        invariant
            i <= last,
            last == text@.len() - part@.len(),
        ensures
            forall|j: int| 0 <= j <= last ==> !occurs_at(text@, part@, j),
        decreases last - i,
    {
        if stands_at(text, part, i) {
            proof {
                assert(first_at(text@, part@, i as int));
                let k = choose|k: int| first_at(text@, part@, k);
                assert(first_at(text@, part@, k));
                assert(k == i);
            }
            return Some(i);
        }
        if i == last {
            break;
        }
        i += 1;
    }
    assert forall|j: int| !occurs_at(text@, part@, j) by {}
    None
}

/// Whether a text contains another.
pub fn contains(text: &str, part: &str) -> (r: bool)
    ensures
        r == occurs(text@, part@),
{
    find_letters(&chars(text), &chars(part)).is_some()
}

/// Whether a text starts with another.
pub fn starts_with(text: &str, part: &str) -> (r: bool)
    ensures
        r == part@.is_prefix_of(text@),
{
    let text = chars(text);
    let part = chars(part);
    if part.len() > text.len() {
        return false;
    }
    let r = stands_at(&text, &part, 0);
    assert(text@.take(part@.len() as int) =~= text@.subrange(0, part@.len() as int));
    r
}

/// `text` without as many trailing copies of `suffix` as it has.
pub open spec fn strip_suffixes(text: Seq<char>, suffix: Seq<char>) -> Seq<char>
    decreases text.len(),
{
    if suffix.len() > 0 && suffix.is_suffix_of(text) {
        strip_suffixes(text.take(text.len() - suffix.len()), suffix)
    } else {
        text
    }
}

/// Removes every trailing copy of a suffix.
pub fn trim_end_matches(text: &str, suffix: &str) -> (r: String)
    ensures
        r@ == strip_suffixes(text@, suffix@),
{
    let letters = chars(text);
    let tail = chars(suffix);
    let mut end: usize = letters.len();
    while tail.len() > 0 && end >= tail.len()
        invariant
            letters@ == text@,
            tail@ == suffix@,
            end <= letters@.len(),
            strip_suffixes(text@, suffix@) == strip_suffixes(text@.take(end as int), suffix@),
        ensures
            end <= letters@.len(),
            strip_suffixes(text@, suffix@) == text@.take(end as int),
        decreases end,
    {
        let at: usize = end - tail.len();
        let ghost cut = text@.take(end as int);
        assert(cut.skip(cut.len() - suffix@.len()) =~= text@.subrange(at as int, end as int));
        if !stands_at(&letters, &tail, at) {
            break;
        }
        assert(cut.take(at as int) =~= text@.take(at as int));
        end = at;
    }
    slice(&letters, 0, end)
}

// ---------------------------------------------------------------- splitting

/// The pieces of a text between the separators, of which there is one more than
/// there are separators.
pub open spec fn split_on(text: Seq<char>, separator: char) -> Seq<Seq<char>>
    decreases text.len(),
{
    if text.len() == 0 {
        seq![Seq::empty()]
    } else {
        let before = split_on(text.drop_last(), separator);
        if text.last() == separator {
            before.push(Seq::empty())
        } else {
            before.update(before.len() - 1, before.last().push(text.last()))
        }
    }
}

/// A text has at least one piece.
pub proof fn split_on_not_empty(text: Seq<char>, separator: char)
    ensures
        split_on(text, separator).len() > 0,
    decreases text.len(),
{
    if text.len() > 0 {
        split_on_not_empty(text.drop_last(), separator);
    }
}

/// Splits a text at every separator.
pub fn split(text: &str, separator: char) -> (r: Vec<String>)
    ensures
        r.deep_view() == split_on(text@, separator),
        r@.len() > 0,
{
    let letters = chars(text);
    let mut r: Vec<String> = Vec::new();
    let mut current = String::new();
    let mut i: usize = 0;
    assert(text@.take(0) =~= Seq::empty());
    assert(r.deep_view().push(current@) =~= split_on(text@.take(0), separator));
    while i < letters.len()
        invariant
            letters@ == text@,
            i <= letters@.len(),
            r.deep_view().push(current@) == split_on(text@.take(i as int), separator),
        decreases letters.len() - i,
    {
        let c = letters[i];
        let ghost next = text@.take(i + 1);
        let ghost before = split_on(text@.take(i as int), separator);
        assert(next.drop_last() =~= text@.take(i as int));
        let ghost pieces = r.deep_view();
        if c == separator {
            r.push(current);
            current = String::new();
            assert(r.deep_view() =~= before);
            assert(r.deep_view().push(current@) =~= split_on(next, separator));
        } else {
            let ghost held = current@;
            current.push(c);
            assert(before.last() == held);
            assert(r.deep_view().push(current@) =~= split_on(next, separator));
        }
        i += 1;
    }
    assert(text@.take(i as int) =~= text@);
    let ghost pieces = r.deep_view();
    let ghost held = current@;
    r.push(current);
    assert(r.deep_view() =~= pieces.push(held));
    r
}

/// A line without the carriage return that ends it.
pub open spec fn without_return(line: Seq<char>) -> Seq<char> {
    if line.len() > 0 && line.last() == '\r' {
        line.drop_last()
    } else {
        line
    }
}

/// The lines of a text. A line ends with a line feed, or with a carriage return
/// and a line feed; nothing stands after the last of them unless it holds a character.
pub open spec fn lines_of(text: Seq<char>) -> Seq<Seq<char>> {
    let pieces = split_on(text, '\n');
    let count = if pieces.last().len() == 0 {
        pieces.len() - 1
    } else {
        pieces.len() as int
    };
    Seq::new(
        count as nat,
        |i: int|
            if i < pieces.len() - 1 {
                without_return(pieces[i])
            } else {
                pieces[i]
            },
    )
}

/// Splits a text into lines.
pub fn lines(text: &str) -> (r: Vec<String>)
    ensures
        r.deep_view() == lines_of(text@),
{
    let pieces = split(text, '\n');
    let mut r: Vec<String> = Vec::new();
    let mut i: usize = 0;
    let ghost parts = split_on(text@, '\n');
    while i < pieces.len()
        invariant
            parts == split_on(text@, '\n'),
            pieces.deep_view() == parts,
            parts.len() > 0,
            i <= pieces@.len(),
            i < parts.len() ==> r.deep_view() == Seq::new(i as nat, |k: int| without_return(parts[k])),
            i == parts.len() ==> r.deep_view() == lines_of(text@),
        decreases pieces.len() - i,
    {
        let letters = chars(&pieces[i]);
        assert(letters@ == parts[i as int]);
        let ghost done = r.deep_view();
        if i + 1 < pieces.len() {
            let end: usize = if letters.len() > 0 && letters[letters.len() - 1] == '\r' {
                letters.len() - 1
            } else {
                letters.len()
            };
            let line = slice(&letters, 0, end);
            assert(line@ =~= without_return(parts[i as int]));
            r.push(line);
            assert(r.deep_view() =~= done.push(line@));
            assert(r.deep_view() =~= Seq::new((i + 1) as nat, |k: int| without_return(parts[k])));
        } else if letters.len() > 0 {
            let line = slice(&letters, 0, letters.len());
            assert(line@ =~= parts[i as int]);
            r.push(line);
            assert(r.deep_view() =~= done.push(line@));
            assert(r.deep_view() =~= lines_of(text@));
        } else {
            assert(r.deep_view() =~= lines_of(text@));
        }
        i += 1;
    }
    r
}

/// The part of a text before the first separator, and the part after it.
pub open spec fn split_once_at(text: Seq<char>, separator: Seq<char>) -> Option<(Seq<char>, Seq<char>)> {
    match first_index(text, separator) {
        Some(i) => Some((text.take(i), text.skip(i + separator.len()))),
        None => None,
    }
}

/// Splits a text at the first separator.
pub fn split_once(text: &str, separator: &str) -> (r: Option<(String, String)>)
    ensures
        r.deep_view() == split_once_at(text@, separator@),
{
    let letters = chars(text);
    let mark = chars(separator);
    match find_letters(&letters, &mark) {
        Some(i) => {
            let total: usize = letters.len();
            let before = slice(&letters, 0, i);
            let after = slice(&letters, i + mark.len(), letters.len());
            assert(before@ =~= text@.take(i as int));
            assert(after@ =~= text@.skip(i + separator@.len()));
            Some((before, after))
        },
        None => None,
    }
}

/// The texts in order, with a separator between each two.
pub open spec fn joined(parts: Seq<Seq<char>>, separator: Seq<char>) -> Seq<char>
    decreases parts.len(),
{
    if parts.len() == 0 {
        Seq::empty()
    } else if parts.len() == 1 {
        parts[0]
    } else {
        joined(parts.drop_last(), separator) + separator + parts.last()
    }
}

/// Joins texts with a separator between each two.
pub fn join(parts: &Vec<String>, separator: &str) -> (r: String)
    ensures
        r@ == joined(parts.deep_view(), separator@),
{
    let mut r = String::new();
    let mut i: usize = 0;
    let ghost all = parts.deep_view();
    while i < parts.len()
        invariant
            all == parts.deep_view(),
            i <= parts@.len(),
            r@ == joined(all.take(i as int), separator@),
        decreases parts.len() - i,
    {
        let ghost next = all.take(i + 1);
        assert(next.drop_last() =~= all.take(i as int));
        assert(next.last() == parts@[i as int]@);
        if i > 0 {
            r.append(separator);
        }
        r.append(&parts[i]);
        assert(r@ =~= joined(next, separator@));
        i += 1;
    }
    assert(all.take(i as int) =~= all);
    r
}

// ---------------------------------------------------------------- classes of characters

/// Whether a character has the Unicode property White_Space.
pub open spec fn is_space(c: char) -> bool {
    ||| '\u{9}' <= c <= '\u{d}'
    ||| c == ' '
    ||| c == '\u{85}'
    ||| c == '\u{a0}'
    ||| c == '\u{1680}'
    ||| '\u{2000}' <= c <= '\u{200a}'
    ||| c == '\u{2028}'
    ||| c == '\u{2029}'
    ||| c == '\u{202f}'
    ||| c == '\u{205f}'
    ||| c == '\u{3000}'
}

/// Tests for white space.
pub fn is_whitespace(c: char) -> (r: bool)
    ensures
        r == is_space(c),
{
    ('\u{9}' <= c && c <= '\u{d}') || c == ' ' || c == '\u{85}' || c == '\u{a0}' || c == '\u{1680}' || ('\u{2000}' <= c
        && c <= '\u{200a}') || c == '\u{2028}' || c == '\u{2029}' || c == '\u{202f}' || c == '\u{205f}' || c == '\u{3000}'
}

/// Whether a character is a control character (the general category Cc).
pub open spec fn control(c: char) -> bool {
    c <= '\u{1f}' || '\u{7f}' <= c <= '\u{9f}'
}

/// Tests for a control character.
pub fn is_control(c: char) -> (r: bool)
    ensures
        r == control(c),
{
    c <= '\u{1f}' || ('\u{7f}' <= c && c <= '\u{9f}')
}

/// A text with a space in place of each control character.
pub open spec fn spaced(text: Seq<char>) -> Seq<char> {
    text.map_values(|c: char| if control(c) { ' ' } else { c })
}

/// A text with a space in place of each control character.
pub fn without_controls(text: &str) -> (r: String)
    ensures
        r@ == spaced(text@),
{
    let letters = chars(text);
    let mut r = String::new();
    let mut i: usize = 0;
    while i < letters.len()
        invariant
            letters@ == text@,
            i <= letters@.len(),
            r@ =~= spaced(text@.take(i as int)),
        decreases letters.len() - i,
    {
        let c = letters[i];
        r.push(if is_control(c) { ' ' } else { c });
        assert(text@.take(i + 1) =~= text@.take(i as int).push(c));
        i += 1;
    }
    assert(text@.take(i as int) =~= text@);
    r
}

/// Whether a character is a decimal digit.
pub open spec fn digit(c: char) -> bool {
    '0' <= c <= '9'
}

/// Whether a character is a hexadecimal digit.
pub open spec fn hex_digit(c: char) -> bool {
    digit(c) || 'a' <= c <= 'f' || 'A' <= c <= 'F'
}

/// Tests for a decimal digit.
pub fn is_digit(c: char) -> (r: bool)
    ensures
        r == digit(c),
{
    '0' <= c && c <= '9'
}

/// Tests for a hexadecimal digit.
pub fn is_hex_digit(c: char) -> (r: bool)
    ensures
        r == hex_digit(c),
{
    is_digit(c) || ('a' <= c && c <= 'f') || ('A' <= c && c <= 'F')
}

/// A text without the white space at its start.
pub open spec fn trimmed_start(text: Seq<char>) -> Seq<char>
    decreases text.len(),
{
    if text.len() > 0 && is_space(text[0]) {
        trimmed_start(text.drop_first())
    } else {
        text
    }
}

/// A text without the white space at its end.
pub open spec fn trimmed_end(text: Seq<char>) -> Seq<char>
    decreases text.len(),
{
    if text.len() > 0 && is_space(text.last()) {
        trimmed_end(text.drop_last())
    } else {
        text
    }
}

/// A text without the white space at either end.
pub open spec fn trimmed(text: Seq<char>) -> Seq<char> {
    trimmed_end(trimmed_start(text))
}

/// Removes the white space at either end.
pub fn trim(text: &str) -> (r: String)
    ensures
        r@ == trimmed(text@),
{
    let letters = chars(text);
    let mut from: usize = 0;
    assert(text@.skip(0) =~= text@);
    while from < letters.len() && is_whitespace(letters[from])
        invariant
            letters@ == text@,
            from <= letters@.len(),
            trimmed_start(text@) == trimmed_start(text@.skip(from as int)),
        decreases letters.len() - from,
    {
        assert(text@.skip(from as int).drop_first() =~= text@.skip(from + 1));
        from += 1;
    }
    let ghost start = text@.skip(from as int);
    assert(trimmed_start(text@) == start);
    let mut to: usize = letters.len();
    assert(start.take(to - from) =~= start);
    while to > from && is_whitespace(letters[to - 1])
        invariant
            letters@ == text@,
            start == text@.skip(from as int),
            from <= to <= letters@.len(),
            trimmed_end(start) == trimmed_end(start.take(to - from)),
        decreases to,
    {
        assert(start.take(to - from).last() == letters@[to - 1]);
        assert(start.take(to - from).drop_last() =~= start.take(to - 1 - from));
        to -= 1;
    }
    proof {
        if to > from {
            assert(start.take(to - from).last() == letters@[to - 1]);
        }
        assert(start.take(to - from) =~= letters@.subrange(from as int, to as int));
    }
    slice(&letters, from, to)
}

/// Replaces each ASCII capital by its small letter.
pub fn to_ascii_lowercase(text: &str) -> (r: String)
    ensures
        r@ == ascii_lowercase(text@),
{
    let letters = chars(text);
    let mut r = String::new();
    let mut i: usize = 0;
    while i < letters.len()
        invariant
            letters@ == text@,
            i <= letters@.len(),
            r@ == ascii_lowercase(text@.take(i as int)),
        decreases letters.len() - i,
    {
        let c = letters[i];
        let small = if 'A' <= c && c <= 'Z' {
            ((c as u8) + 32u8) as char
        } else {
            c
        };
        r.push(small);
        assert(small == ascii_lower(c));
        assert(r@ =~= ascii_lowercase(text@.take(i + 1)));
        i += 1;
    }
    assert(text@.take(i as int) =~= text@);
    r
}

// ---------------------------------------------------------------- order

/// The order of texts by their first differing character.
pub open spec fn text_lt(a: Seq<char>, b: Seq<char>) -> bool
    decreases a.len(),
{
    if b.len() == 0 {
        false
    } else if a.len() == 0 {
        true
    } else if a[0] != b[0] {
        a[0] < b[0]
    } else {
        text_lt(a.drop_first(), b.drop_first())
    }
}

/// No text stands before itself.
pub proof fn text_lt_irreflexive(a: Seq<char>)
    ensures
        !text_lt(a, a),
    decreases a.len(),
{
    if a.len() > 0 {
        text_lt_irreflexive(a.drop_first());
    }
}

/// The order of texts is transitive.
pub proof fn text_lt_transitive(a: Seq<char>, b: Seq<char>, c: Seq<char>)
    requires
        text_lt(a, b),
        text_lt(b, c),
    ensures
        text_lt(a, c),
    decreases a.len(),
{
    if a.len() > 0 && a[0] == b[0] && b[0] == c[0] {
        text_lt_transitive(a.drop_first(), b.drop_first(), c.drop_first());
    }
}

/// Of two different texts one stands before the other, and only one.
pub proof fn text_lt_total(a: Seq<char>, b: Seq<char>)
    ensures
        a == b || text_lt(a, b) || text_lt(b, a),
        !(text_lt(a, b) && text_lt(b, a)),
    decreases a.len(),
{
    if a.len() > 0 && b.len() > 0 && a[0] == b[0] {
        text_lt_total(a.drop_first(), b.drop_first());
        if a.drop_first() == b.drop_first() {
            assert(a =~= seq![a[0]] + a.drop_first());
            assert(b =~= seq![b[0]] + b.drop_first());
        }
    }
    if a.len() == 0 && b.len() == 0 {
        assert(a =~= b);
    }
}

/// Whether a text stands before another.
pub fn less(a: &str, b: &str) -> (r: bool)
    ensures
        r == text_lt(a@, b@),
{
    let x = chars(a);
    let y = chars(b);
    let mut i: usize = 0;
    assert(x@.skip(0) =~= x@);
    assert(y@.skip(0) =~= y@);
    loop
        invariant
            x@ == a@,
            y@ == b@,
            i <= x@.len(),
            i <= y@.len(),
            text_lt(a@, b@) == text_lt(x@.skip(i as int), y@.skip(i as int)),
        decreases x@.len() - i,
    {
        if i >= y.len() {
            return false;
        }
        if i >= x.len() {
            return true;
        }
        if x[i] != y[i] {
            return x[i] < y[i];
        }
        assert(x@.skip(i as int).drop_first() =~= x@.skip(i + 1));
        assert(y@.skip(i as int).drop_first() =~= y@.skip(i + 1));
        i += 1;
    }
}

// ---------------------------------------------------------------- numbers

/// The number that decimal digits write.
pub open spec fn digits_value(text: Seq<char>) -> nat
    decreases text.len(),
{
    if text.len() == 0 {
        0
    } else {
        digits_value(text.drop_last()) * 10 + (text.last() as nat - '0' as nat) as nat
    }
}

/// Whether a text is made of decimal digits.
pub open spec fn all_digits(text: Seq<char>) -> bool {
    forall|k: int| 0 <= k < text.len() ==> digit(#[trigger] text[k])
}

/// The unsigned number that a text writes: decimal digits, with or without a plus
/// sign before them, that fit in 64 bits.
pub open spec fn number_of(text: Seq<char>) -> Option<u64> {
    let digits = if text.len() > 0 && text[0] == '+' {
        text.drop_first()
    } else {
        text
    };
    if digits.len() > 0 && all_digits(digits) && digits_value(digits) <= u64::MAX {
        Some(digits_value(digits) as u64)
    } else {
        None
    }
}

/// Longer digits write no smaller number.
proof fn digits_value_grows(text: Seq<char>, i: int)
    requires
        0 <= i <= text.len(),
    ensures
        digits_value(text.take(i)) <= digits_value(text),
    decreases text.len() - i,
{
    if i < text.len() {
        digits_value_grows(text, i + 1);
        assert(text.take(i + 1).drop_last() =~= text.take(i));
    } else {
        assert(text.take(i) =~= text);
    }
}

/// Reads an unsigned number.
#[verifier::spinoff_prover]
#[verifier::rlimit(40)]
pub fn parse_u64(text: &str) -> (r: Option<u64>)
    ensures
        r == number_of(text@),
{
    let letters = chars(text);
    let start: usize = if letters.len() > 0 && letters[0] == '+' {
        1
    } else {
        0
    };
    let ghost digits = letters@.skip(start as int);
    assert(start == 1 ==> digits =~= text@.drop_first());
    assert(start == 0 ==> digits =~= text@);
    if start >= letters.len() {
        return None;
    }
    let mut value: u64 = 0;
    let mut i: usize = start;
    while i < letters.len()
        invariant
            start <= i <= letters@.len(),
            digits == letters@.skip(start as int),
            digits == if text@.len() > 0 && text@[0] == '+' { text@.drop_first() } else { text@ },
            digits.len() > 0,
            value == digits_value(digits.take(i - start)),
            forall|k: int| 0 <= k < i - start ==> digit(digits[k]),
        decreases letters.len() - i,
    {
        let c = letters[i];
        assert(digits[i - start] == c);
        if !is_digit(c) {
            return None;
        }
        let unit: u64 = c as u64 - '0' as u64;
        assert(digits.take(i + 1 - start).drop_last() =~= digits.take(i - start));
        proof {
            digits_value_grows(digits, i + 1 - start);
        }
        if value > u64::MAX / 10 {
            return None;
        }
        if value * 10 > u64::MAX - unit {
            return None;
        }
        value = value * 10 + unit;
        i += 1;
    }
    assert(digits.take(i - start) =~= digits);
    Some(value)
}

/// The decimal digits of a number, without leading zeros.
pub open spec fn decimal_of(n: nat) -> Seq<char>
    decreases n,
{
    if n < 10 {
        seq![('0' as nat + n) as char]
    } else {
        decimal_of(n / 10).push(('0' as nat + n % 10) as char)
    }
}

/// Writes a number in decimal.
pub fn decimal(n: u64) -> (r: String)
    ensures
        r@ == decimal_of(n as nat),
    decreases n,
{
    let unit = (48u8 + (n % 10) as u8) as char;
    if n < 10 {
        let mut r = String::new();
        r.push(unit);
        assert(r@ =~= decimal_of(n as nat));
        r
    } else {
        let mut r = decimal(n / 10);
        r.push(unit);
        r
    }
}

/// The hexadecimal digit of a number under sixteen.
pub open spec fn hex_char(n: int) -> char {
    if n < 10 {
        ('0' as int + n) as char
    } else {
        ('a' as int + n - 10) as char
    }
}

/// The hexadecimal digits of bytes, two small digits for each.
pub open spec fn hex_of(bytes: Seq<u8>) -> Seq<char>
    decreases bytes.len(),
{
    if bytes.len() == 0 {
        Seq::empty()
    } else {
        hex_of(bytes.drop_last()).push(hex_char(bytes.last() as int / 16)).push(hex_char(bytes.last() as int % 16))
    }
}

/// The hexadecimal digit of a number under sixteen.
fn nibble(n: u8) -> (r: char)
    requires
        n < 16,
    ensures
        r == hex_char(n as int),
{
    if n < 10 {
        (48u8 + n) as char
    } else {
        (87u8 + n) as char
    }
}

/// Writes bytes in hexadecimal.
pub fn hex(bytes: &[u8]) -> (r: String)
    ensures
        r@ == hex_of(bytes@),
{
    let mut r = String::new();
    let mut i: usize = 0;
    while i < bytes.len()
        invariant
            i <= bytes@.len(),
            r@ == hex_of(bytes@.take(i as int)),
        decreases bytes.len() - i,
    {
        assert(bytes@.take(i + 1).drop_last() =~= bytes@.take(i as int));
        r.push(nibble(bytes[i] / 16));
        r.push(nibble(bytes[i] % 16));
        i += 1;
    }
    assert(bytes@.take(i as int) =~= bytes@);
    r
}

// ---------------------------------------------------------------- hexadecimal numbers

/// The value of a hexadecimal digit.
pub open spec fn hex_digit_value(c: char) -> nat {
    if digit(c) {
        (c as u32 - '0' as u32) as nat
    } else if 'a' <= c <= 'f' {
        (c as u32 - 'a' as u32 + 10) as nat
    } else {
        (c as u32 - 'A' as u32 + 10) as nat
    }
}

/// The value of hexadecimal digits.
pub open spec fn hex_value(text: Seq<char>) -> nat
    decreases text.len(),
{
    if text.len() == 0 {
        0
    } else {
        16 * hex_value(text.drop_last()) + hex_digit_value(text.last())
    }
}

/// Whether a text is made of hexadecimal digits.
pub open spec fn all_hex(text: Seq<char>) -> bool {
    forall|i: int| 0 <= i < text.len() ==> hex_digit(#[trigger] text[i])
}

/// The number that hexadecimal digits stand for, with or without a plus sign before them,
/// where it fits.
pub open spec fn hex_number_of(text: Seq<char>) -> Option<u32> {
    let digits = if text.len() > 1 && text[0] == '+' {
        text.drop_first()
    } else {
        text
    };
    if digits.len() > 0 && all_hex(digits) && hex_value(digits) <= u32::MAX {
        Some(hex_value(digits) as u32)
    } else {
        None
    }
}

/// More digits make no smaller number.
proof fn hex_value_grows(text: Seq<char>, i: int)
    requires
        0 <= i <= text.len(),
    ensures
        hex_value(text.take(i)) <= hex_value(text),
    decreases text.len() - i,
{
    if i == text.len() {
        assert(text.take(i) =~= text);
    } else {
        hex_value_grows(text, i + 1);
        assert(text.take(i + 1).drop_last() =~= text.take(i));
    }
}

/// The number that hexadecimal digits stand for.
pub fn parse_hex(text: &str) -> (r: Option<u32>)
    ensures
        r == hex_number_of(text@),
{
    let letters = chars(text);
    let start: usize = if letters.len() > 1 && letters[0] == '+' {
        1
    } else {
        0
    };
    let ghost digits = text@.skip(start as int);
    assert(start == 1 ==> digits =~= text@.drop_first());
    assert(start == 0 ==> digits =~= text@);
    if start == letters.len() {
        return None;
    }
    let mut value: u32 = 0;
    let mut i: usize = start;
    assert(digits.take(0) =~= Seq::<char>::empty());
    while i < letters.len()
        invariant
            letters@ == text@,
            start <= i <= letters@.len(),
            digits == text@.skip(start as int),
            forall|k: int| 0 <= k < i - start ==> hex_digit(#[trigger] digits[k]),
            value == hex_value(digits.take(i - start)),
            digits.len() > 0,
            hex_number_of(text@) == (if all_hex(digits) && hex_value(digits) <= u32::MAX {
                Some(hex_value(digits) as u32)
            } else {
                None
            }),
        decreases letters.len() - i,
    {
        let c = letters[i];
        assert(digits[i - start] == c);
        if !is_hex_digit(c) {
            return None;
        }
        let d: u32 = if is_digit(c) {
            c as u32 - '0' as u32
        } else if 'a' <= c && c <= 'f' {
            c as u32 - 'a' as u32 + 10
        } else {
            c as u32 - 'A' as u32 + 10
        };
        assert(d == hex_digit_value(c) && d < 16);
        assert(digits.take(i - start + 1).drop_last() =~= digits.take(i - start));
        assert(digits.take(i - start + 1).last() == c);
        proof {
            hex_value_grows(digits, i - start + 1);
        }
        if value > 0x0fff_ffff {
            return None;
        }
        value = value * 16 + d;
        i += 1;
    }
    assert(digits.take(i - start) =~= digits);
    Some(value)
}

} // verus!
