//! The HTTP status, headers and body in the output of the GitHub CLI.

use crate::text;
use crate::text_map::TextMap;
use vstd::prelude::*;
use vstd::slice::slice_subrange;

verus! {

broadcast use vstd::seq_lib::group_seq_properties;

/// Trusted: `std::str::from_utf8`. It gives the text that bytes encode where they are
/// well-formed UTF-8, and fails where they are not.
#[verifier::external_body]
pub(crate) fn utf8_text(bytes: &[u8]) -> (r: Option<String>)
    ensures
        match r {
            Some(t) => vstd::utf8::valid_utf8(bytes@) && t@ == vstd::utf8::decode_utf8(bytes@),
            None => !vstd::utf8::valid_utf8(bytes@),
        },
{
    std::str::from_utf8(bytes).ok().map(|t| t.to_owned())
}

/// The bytes that start a block of headers.
pub open spec fn block_start() -> Seq<u8> {
    seq![72u8, 84u8, 84u8, 80u8, 47u8]
}

/// Whether `part` stands in `bytes` at index `i`.
pub open spec fn bytes_at(bytes: Seq<u8>, part: Seq<u8>, i: int) -> bool {
    0 <= i && i + part.len() <= bytes.len() && bytes.subrange(i, i + part.len()) == part
}

/// Whether `i` is the first index at which `part` stands in `bytes`.
pub open spec fn bytes_first_at(bytes: Seq<u8>, part: Seq<u8>, i: int) -> bool {
    bytes_at(bytes, part, i) && forall|j: int| 0 <= j < i ==> !bytes_at(bytes, part, j)
}

/// The first index at which `part` stands in `bytes`, if there is one.
pub open spec fn bytes_index(bytes: Seq<u8>, part: Seq<u8>) -> Option<int> {
    if exists|i: int| bytes_at(bytes, part, i) {
        Some(choose|i: int| bytes_first_at(bytes, part, i))
    } else {
        None
    }
}

/// Where the headers at the start of bytes end, and how long the separator behind them is.
pub open spec fn headers_end(bytes: Seq<u8>) -> Option<(int, int)> {
    match bytes_index(bytes, seq![13u8, 10u8, 13u8, 10u8]) {
        Some(i) => Some((i, 4)),
        None => match bytes_index(bytes, seq![10u8, 10u8]) {
            Some(i) => Some((i, 2)),
            None => None,
        },
    }
}

/// The words of a text: what stands between white space.
pub open spec fn words_of(t: Seq<char>) -> Seq<Seq<char>>
    decreases t.len(),
{
    if t.len() == 0 {
        Seq::empty()
    } else if text::is_space(t.last()) {
        words_of(t.drop_last())
    } else if t.len() > 1 && !text::is_space(t[t.len() - 2]) && words_of(t.drop_last()).len() > 0 {
        let before = words_of(t.drop_last());
        before.update(before.len() - 1, before.last().push(t.last()))
    } else {
        words_of(t.drop_last()).push(seq![t.last()])
    }
}

/// The status in the first line of a block.
pub open spec fn status_of(line: Seq<char>) -> Option<u16> {
    let words = words_of(line);
    if words.len() > 1 {
        match text::number_of(words[1]) {
            Some(n) => if n <= u16::MAX {
                Some(n as u16)
            } else {
                None
            },
            None => None,
        }
    } else {
        None
    }
}

/// The headers in lines: the last value of each name, in small letters.
pub open spec fn headers_of(lines: Seq<Seq<char>>) -> Map<Seq<char>, Seq<char>>
    decreases lines.len(),
{
    if lines.len() == 0 {
        Map::empty()
    } else {
        let before = headers_of(lines.drop_last());
        match text::split_once_at(lines.last(), ":"@) {
            Some(parts) => before.insert(text::ascii_lowercase(text::trimmed(parts.0)), text::trimmed(parts.1)),
            None => before,
        }
    }
}

/// What the output says: the status and the headers of its last block, and the body.
pub struct ResponseView {
    pub status: u16,
    pub headers: Map<Seq<char>, Seq<char>>,
    pub body: Seq<u8>,
}

/// What is left of the output, read after a status and headers.
pub open spec fn read_blocks(rest: Seq<u8>, status: u16, headers: Map<Seq<char>, Seq<char>>) -> Result<ResponseView, Seq<char>>
    decreases rest.len(),
{
    if !block_start().is_prefix_of(rest) {
        Ok(ResponseView { status, headers, body: rest })
    } else {
        match headers_end(rest) {
            None => Err("Missing GitHub HTTP header separator"@),
            Some((end, separator)) => {
                let block = rest.take(end);
                if !vstd::utf8::valid_utf8(block) {
                    Err("Invalid GitHub HTTP headers"@)
                } else {
                    let lines = text::lines_of(vstd::utf8::decode_utf8(block));
                    if lines.len() == 0 || status_of(lines[0]) is None {
                        Err("Invalid GitHub HTTP status"@)
                    } else if 0 <= end && end + separator <= rest.len() && separator > 0 {
                        read_blocks(rest.skip(end + separator), status_of(lines[0])->0, headers_of(lines.drop_first()))
                    } else {
                        Err(Seq::empty())
                    }
                }
            },
        }
    }
}

/// What the output of the GitHub CLI says. Blocks of headers of a proxy or with an
/// interim status come before the last one; output without headers is a body.
pub open spec fn response_of(bytes: Seq<u8>) -> Result<ResponseView, Seq<char>> {
    read_blocks(bytes, 200, Map::empty())
}

/// Whether `part` stands in `bytes` at index `i`.
fn stands_at(bytes: &[u8], part: &[u8], i: usize) -> (r: bool)
    requires
        i + part@.len() <= bytes@.len(),
    ensures
        r == bytes_at(bytes@, part@, i as int),
{
    let total: usize = bytes.len();
    let mut k: usize = 0;
    while k < part.len()
        invariant
            k <= part@.len(),
            total == bytes@.len(),
            i + part@.len() <= bytes@.len(),
            forall|j: int| 0 <= j < k ==> bytes@[i + j] == part@[j],
        decreases part.len() - k,
    {
        if bytes[i + k] != part[k] {
            assert(bytes@.subrange(i as int, i + part@.len())[k as int] != part@[k as int]);
            return false;
        }
        k += 1;
    }
    assert(bytes@.subrange(i as int, i + part@.len()) =~= part@);
    true
}

/// The first index at which `part` stands in `bytes`.
fn find(bytes: &[u8], part: &[u8]) -> (r: Option<usize>)
    ensures
        match r {
            Some(i) => bytes_first_at(bytes@, part@, i as int) && bytes_index(bytes@, part@) == Some(i as int),
            None => bytes_index(bytes@, part@) is None,
        },
{
    if part.len() > bytes.len() {
        return None;
    }
    let last: usize = bytes.len() - part.len();
    let mut i: usize = 0;
    while i <= last
        invariant_except_break
            forall|j: int| 0 <= j < i ==> !bytes_at(bytes@, part@, j),
        invariant
            i <= last,
            last == bytes@.len() - part@.len(),
        ensures
            forall|j: int| 0 <= j <= last ==> !bytes_at(bytes@, part@, j),
        decreases last - i,
    {
        if stands_at(bytes, part, i) {
            proof {
                assert(bytes_first_at(bytes@, part@, i as int));
                let k = choose|k: int| bytes_first_at(bytes@, part@, k);
                assert(bytes_first_at(bytes@, part@, k));
                assert(k == i);
            }
            return Some(i);
        }
        if i == last {
            break ;
        }
        i += 1;
    }
    None
}

/// Where the headers at the start of bytes end, and how long the separator behind them is.
fn find_end(bytes: &[u8]) -> (r: Option<(usize, usize)>)
    ensures
        match r {
            Some((end, separator)) => headers_end(bytes@) == Some((end as int, separator as int)) && separator > 0 && end
                + separator <= bytes@.len(),
            None => headers_end(bytes@) is None,
        },
{
    let wide: [u8; 4] = [13, 10, 13, 10];
    let narrow: [u8; 2] = [10, 10];
    assert(wide@ =~= seq![13u8, 10u8, 13u8, 10u8]);
    assert(narrow@ =~= seq![10u8, 10u8]);
    match find(bytes, &wide) {
        Some(i) => Some((i, 4)),
        None => match find(bytes, &narrow) {
            Some(i) => Some((i, 2)),
            None => None,
        },
    }
}

/// The words of a text.
pub fn words(t: &str) -> (r: Vec<String>)
    ensures
        r.deep_view() == words_of(t@),
{
    let letters = text::chars(t);
    let mut r: Vec<String> = Vec::new();
    let mut i: usize = 0;
    assert(r.deep_view() =~= Seq::empty());
    while i < letters.len()
        invariant
            letters@ == t@,
            i <= letters@.len(),
            r.deep_view() == words_of(t@.take(i as int)),
        decreases letters.len() - i,
    {
        let c = letters[i];
        let ghost next = t@.take(i + 1);
        assert(next.drop_last() =~= t@.take(i as int));
        let ghost done = r.deep_view();
        if !text::is_whitespace(c) {
            let joins = i > 0 && !text::is_whitespace(letters[i - 1]) && r.len() > 0;
            assert(joins == (next.len() > 1 && !text::is_space(next[next.len() - 2]) && done.len() > 0));
            if joins {
                let last: usize = r.len() - 1;
                let mut word = r[last].clone();
                assert(done.last() == r@[last as int]@);
                word.push(c);
                let ghost grown = word@;
                r.set(last, word);
                assert(r.deep_view() =~= done.update(done.len() - 1, grown));
            } else {
                let mut word = String::new();
                word.push(c);
                assert(word@ =~= seq![c]);
                r.push(word);
                assert(r.deep_view() =~= done.push(seq![c]));
            }
        }
        i += 1;
    }
    assert(t@.take(i as int) =~= t@);
    r
}

/// The status in the first line of a block.
fn read_status(line: &str) -> (r: Option<u16>)
    ensures
        r == status_of(line@),
{
    let found = words(line);
    let ghost v = found.deep_view();
    if found.len() > 1 {
        assert(v[1] == found@[1]@);
        match text::parse_u64(&found[1]) {
            Some(n) => if n <= u16::MAX as u64 {
                Some(n as u16)
            } else {
                None
            },
            None => None,
        }
    } else {
        None
    }
}

/// What the output of the GitHub CLI says.
pub struct Response<'a> {
    pub status: u16,
    pub headers: TextMap<String>,
    pub body: &'a [u8],
}

impl<'a> Response<'a> {
    /// The contents of a response.
    pub open spec fn contents(&self) -> ResponseView {
        ResponseView { status: self.status, headers: self.headers@, body: self.body@ }
    }
}

/// Reads the output of the GitHub CLI.
pub fn response(bytes: &[u8]) -> (r: Result<Response<'_>, String>)
    ensures
        match r {
            Ok(response) => response_of(bytes@) == Ok::<ResponseView, Seq<char>>(response.contents()),
            Err(message) => response_of(bytes@) == Err::<ResponseView, Seq<char>>(message@),
        },
{
    let start: [u8; 5] = [72, 84, 84, 80, 47];
    assert(start@ =~= block_start());
    let mut status: u16 = 200;
    let mut headers: TextMap<String> = TextMap::new();
    let mut rest: &[u8] = bytes;
    while rest.len() >= 5 && stands_at(rest, &start, 0)
        invariant
            start@ == block_start(),
            response_of(bytes@) == read_blocks(rest@, status, headers@),
        decreases rest@.len(),
    {
        assert(rest@.take(5) =~= rest@.subrange(0, 5));
        let (end, separator) = match find_end(rest) {
            Some(found) => found,
            None => {
                return Err("Missing GitHub HTTP header separator".to_owned());
            },
        };
        let block = slice_subrange(rest, 0, end);
        assert(block@ =~= rest@.take(end as int));
        let read = match utf8_text(block) {
            Some(read) => read,
            None => {
                return Err("Invalid GitHub HTTP headers".to_owned());
            },
        };
        let lines = text::lines(&read);
        let ghost v = lines.deep_view();
        let ghost named = v.drop_first();
        if lines.len() == 0 {
            return Err("Invalid GitHub HTTP status".to_owned());
        }
        assert(v[0] == lines@[0]@);
        let found = match read_status(&lines[0]) {
            Some(found) => found,
            None => {
                return Err("Invalid GitHub HTTP status".to_owned());
            },
        };
        let mut fresh: TextMap<String> = TextMap::new();
        let mut i: usize = 1;
        while i < lines.len()
            invariant
                lines.deep_view() == v,
                named == v.drop_first(),
                1 <= i <= lines@.len(),
                fresh@ == headers_of(named.take(i - 1)),
            decreases lines.len() - i,
        {
            assert(named.take(i as int).drop_last() =~= named.take(i - 1));
            assert(named.take(i as int).last() == lines@[i as int]@);
            if let Some((name, value)) = text::split_once(&lines[i], ":") {
                fresh.insert(text::to_ascii_lowercase(&text::trim(&name)), text::trim(&value));
            }
            i += 1;
        }
        assert(named.take(i - 1) =~= named);
        status = found;
        headers = fresh;
        let after = slice_subrange(rest, end + separator, rest.len());
        assert(after@ =~= rest@.skip(end + separator));
        rest = after;
    }
    proof {
        if block_start().is_prefix_of(rest@) {
            assert(rest@.take(5) =~= rest@.subrange(0, 5));
        }
    }
    Ok(Response { status, headers, body: rest })
}

/// Output without headers is a body, with a status of success.
pub proof fn output_without_headers_is_body(bytes: Seq<u8>)
    requires
        !block_start().is_prefix_of(bytes),
    ensures
        response_of(bytes) == Ok::<ResponseView, Seq<char>>(
            ResponseView { status: 200, headers: Map::empty(), body: bytes },
        ),
{
}

} // verus!
