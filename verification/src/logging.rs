//! Bounded logs: what is kept of them, and how records are cut to size.

use crate::github::fields;
use crate::json;
use crate::json::{Json, JsonView};
use crate::text;
use crate::text_map;
use crate::text_map::TextMap;
use vstd::prelude::*;

verus! {

broadcast use vstd::seq_lib::group_seq_properties;

/// How many lines a log has at most.
pub const MAX_LINES: usize = 10_000;

/// How many lines stay when a log has grown too long.
pub const KEPT_LINES: usize = 9_000;

/// How many bytes a line has at most.
pub const MAX_BYTES: usize = 16_384;

/// How many bytes the texts of a diagnostic keep when it is first cut.
pub const FIRST_CUT: usize = 2048;

/// The end of a line.
pub const NEWLINE: u8 = 10;

// ---------------------------------------------------------------- reading a log

/// Where the first line of bytes ends, behind the end of the line.
pub open spec fn line_end(bytes: Seq<u8>) -> Option<int>
    decreases bytes.len(),
{
    if bytes.len() == 0 {
        None
    } else if bytes[0] == NEWLINE {
        Some(1)
    } else {
        match line_end(bytes.drop_first()) {
            Some(i) => Some(i + 1),
            None => None,
        }
    }
}

/// The first bytes of some, as many as there is room for beside what was kept. One byte more
/// than a line may have is kept, so that it shows.
pub open spec fn kept_part(kept: Seq<u8>, bytes: Seq<u8>) -> Seq<u8> {
    let room = if kept.len() > MAX_BYTES {
        0
    } else {
        MAX_BYTES + 1 - kept.len()
    };
    if bytes.len() <= room {
        bytes
    } else {
        bytes.take(room)
    }
}

/// Reads a line in pieces, without keeping more of it than a line may have.
pub struct LineReader {
    pub line: Vec<u8>,
    pub seen: bool,
}

impl Default for LineReader {
    fn default() -> (r: Self)
        ensures
            r.line@ == Seq::<u8>::empty(),
            !r.seen,
    {
        LineReader { line: Vec::new(), seen: false }
    }
}

impl LineReader {
    /// Takes bytes in. The result says how many of them belong to the line, and whether it
    /// ends with them.
    pub fn feed(&mut self, bytes: &[u8]) -> (r: (usize, bool))
        ensures
            ({
                let count = match line_end(bytes@) {
                    Some(end) => end,
                    None => bytes@.len() as int,
                };
                &&& r.0 == count
                &&& r.1 == (line_end(bytes@) is Some)
                &&& 0 <= count <= bytes@.len()
                &&& final(self).line@ == old(self).line@ + kept_part(old(self).line@, bytes@.take(count))
                &&& final(self).seen == (old(self).seen || bytes@.len() > 0)
            }),
    {
        let mut end: Option<usize> = None;
        let mut i: usize = 0;
        assert(bytes@.skip(0) =~= bytes@);
        while i < bytes.len()
            invariant_except_break
                end is None,
            invariant
                i <= bytes@.len(),
                end is None ==> line_end(bytes@) == (match line_end(bytes@.skip(i as int)) {
                    Some(k) => Some(k + i),
                    None => None,
                }),
            ensures
                match end {
                    Some(e) => line_end(bytes@) == Some(e as int) && e <= bytes@.len(),
                    None => line_end(bytes@) is None,
                },
            decreases bytes.len() - i,
        {
            assert(bytes@.skip(i as int)[0] == bytes@[i as int]);
            assert(bytes@.skip(i as int).drop_first() =~= bytes@.skip(i + 1));
            if bytes[i] == NEWLINE {
                end = Some(i + 1);
                break;
            }
            i += 1;
        }
        let count: usize = match end {
            Some(end) => end,
            None => bytes.len(),
        };
        if bytes.len() > 0 {
            self.seen = true;
        }
        let ghost start = self.line@;
        let mut k: usize = 0;
        assert(bytes@.take(count as int).take(0) =~= Seq::empty());
        while k < count && self.line.len() <= MAX_BYTES
            invariant
                k <= count <= bytes@.len(),
                self.line@ == start + bytes@.take(k as int),
                start.len() <= MAX_BYTES ==> start.len() + k <= MAX_BYTES + 1,
                start.len() > MAX_BYTES ==> k == 0,
                self.seen == (old(self).seen || bytes@.len() > 0),
            decreases count - k,
        {
            self.line.push(bytes[k]);
            assert(bytes@.take(k + 1) =~= bytes@.take(k as int).push(bytes@[k as int]));
            k += 1;
        }
        assert(self.line@ =~= start + kept_part(start, bytes@.take(count as int)));
        (count, end.is_some())
    }
}

// ---------------------------------------------------------------- keeping a log

/// A line with its end.
pub open spec fn ended(line: Seq<u8>) -> Seq<u8> {
    if line.len() > 0 && line.last() == NEWLINE {
        line
    } else {
        line.push(NEWLINE)
    }
}

/// Whether a line of an old log is kept: one that is not too long and is a JSON document.
pub open spec fn is_record(line: Seq<u8>) -> bool {
    line.len() <= MAX_BYTES && json::json_document(line) is Some
}

/// The last lines of some.
pub open spec fn last_lines(lines: Seq<Seq<u8>>, count: nat) -> Seq<Seq<u8>> {
    if lines.len() <= count {
        lines
    } else {
        lines.skip(lines.len() - count)
    }
}

/// What an addition to a log asks for.
#[derive(Clone, Copy, Debug, PartialEq, Eq, Structural)]
pub enum Write {
    /// The record is added to the file.
    Append,
    /// The file is replaced by the lines that are kept.
    Replace,
}

/// The lines of a log.
#[derive(Debug)]
pub struct BoundedLog {
    lines: Vec<Vec<u8>>,
}

impl View for BoundedLog {
    type V = Seq<Seq<u8>>;

    closed spec fn view(&self) -> Seq<Seq<u8>> {
        self.lines.deep_view()
    }
}

impl Default for BoundedLog {
    fn default() -> (r: Self)
        ensures
            r@ == Seq::<Seq<u8>>::empty(),
    {
        let r = BoundedLog { lines: Vec::new() };
        assert(r@ =~= Seq::empty());
        r
    }
}

/// A copy of bytes.
fn copy_bytes(bytes: &[u8]) -> (r: Vec<u8>)
    ensures
        r@ == bytes@,
{
    let mut r: Vec<u8> = Vec::new();
    let mut i: usize = 0;
    while i < bytes.len()
        invariant
            i <= bytes@.len(),
            r@ == bytes@.take(i as int),
        decreases bytes.len() - i,
    {
        r.push(bytes[i]);
        assert(bytes@.take(i + 1) =~= bytes@.take(i as int).push(bytes@[i as int]));
        i += 1;
    }
    assert(bytes@.take(i as int) =~= bytes@);
    r
}

impl BoundedLog {
    #[verifier::type_invariant]
    spec fn bounded(&self) -> bool {
        self.lines@.len() <= MAX_LINES
    }

    /// How many lines there are.
    pub fn len(&self) -> (r: usize)
        ensures
            r == self@.len(),
            r <= MAX_LINES,
    {
        proof {
            use_type_invariant(self);
        }
        self.lines.len()
    }

    /// A line.
    pub fn line(&self, i: usize) -> (r: &[u8])
        requires
            i < self@.len(),
        ensures
            r@ == self@[i as int],
    {
        self.lines[i].as_slice()
    }

    /// Drops the first lines and adds one.
    fn shift(&mut self, dropped: usize, line: Vec<u8>)
        requires
            dropped <= old(self)@.len(),
            old(self)@.len() - dropped < MAX_LINES,
        ensures
            final(self)@ == old(self)@.skip(dropped as int).push(line@),
    {
        let ghost before = self.lines.deep_view();
        let ghost view = line@;
        let mut lines: Vec<Vec<u8>> = Vec::new();
        std::mem::swap(&mut lines, &mut self.lines);
        let mut i: usize = 0;
        assert(before.skip(0) =~= before);
        while i < dropped
            invariant
                i <= dropped <= before.len(),
                lines.deep_view() == before.skip(i as int),
            decreases dropped - i,
        {
            let ghost was = lines.deep_view();
            assert(was.len() == before.len() - i);
            let _ = lines.remove(0);
            assert(lines.deep_view() =~= was.drop_first());
            assert(lines.deep_view() =~= before.skip(i + 1));
            i += 1;
        }
        let ghost was = lines.deep_view();
        assert(was.len() == before.len() - dropped);
        assert(line.deep_view() =~= view);
        lines.push(line);
        assert(lines.deep_view() =~= was.push(view));
        self.lines = lines;
    }

    /// Takes a line of an old log in, where it is kept at all.
    pub fn recover(&mut self, line: Vec<u8>)
        ensures
            final(self)@ == if is_record(line@) {
                last_lines(old(self)@.push(ended(line@)), MAX_LINES as nat)
            } else {
                old(self)@
            },
    {
        proof {
            use_type_invariant(&*self);
        }
        if line.len() > MAX_BYTES || json::parse(line.as_slice()).is_none() {
            return;
        }
        let mut line = line;
        let complete = line.len() > 0 && line[line.len() - 1] == NEWLINE;
        if !complete {
            line.push(NEWLINE);
        }
        let ghost view = line@;
        let ghost before = self@;
        let dropped: usize = if self.lines.len() >= MAX_LINES {
            1
        } else {
            0
        };
        self.shift(dropped, line);
        assert(self@ =~= last_lines(before.push(view), MAX_LINES as nat));
    }

    /// Adds a record, and says how the file follows.
    pub fn append(&mut self, record: &[u8]) -> (r: Write)
        ensures
            final(self)@ == if old(self)@.len() < MAX_LINES {
                old(self)@.push(record@)
            } else {
                last_lines(old(self)@.push(record@), KEPT_LINES as nat)
            },
            r == if old(self)@.len() < MAX_LINES {
                Write::Append
            } else {
                Write::Replace
            },
    {
        proof {
            use_type_invariant(&*self);
        }
        let ghost before = self@;
        let count: usize = self.lines.len();
        if count < MAX_LINES {
            self.shift(0, copy_bytes(record));
            assert(self@ =~= before.push(record@));
            Write::Append
        } else {
            self.shift(count - KEPT_LINES + 1, copy_bytes(record));
            assert(self@ =~= last_lines(before.push(record@), KEPT_LINES as nat));
            Write::Replace
        }
    }
}

// ---------------------------------------------------------------- writing records

/// What stands in the place of a record that is too long.
pub open spec fn oversized(timestamp: Seq<char>) -> Seq<char> {
    "{\"timestamp\":\""@ + timestamp
        + "\",\"level\":\"WARN\",\"fields\":{\"event\":\"oversized_log_record\",\"message\":\"Record exceeded 16 KiB and was omitted\"}}\n"@
}

/// Gathers a record.
#[derive(Debug)]
pub struct RecordWriter {
    pub buffer: Vec<u8>,
}

impl Default for RecordWriter {
    fn default() -> (r: Self)
        ensures
            r.buffer@ == Seq::<u8>::empty(),
    {
        RecordWriter { buffer: Vec::new() }
    }
}

impl RecordWriter {
    /// Takes bytes in, as far as there is room, and counts them all as written.
    pub fn write(&mut self, bytes: &[u8]) -> (r: usize)
        ensures
            r == bytes@.len(),
            final(self).buffer@ == old(self).buffer@ + kept_part(old(self).buffer@, bytes@),
    {
        let ghost start = self.buffer@;
        let mut k: usize = 0;
        assert(bytes@.take(0) =~= Seq::empty());
        while k < bytes.len() && self.buffer.len() <= MAX_BYTES
            invariant
                k <= bytes@.len(),
                self.buffer@ == start + bytes@.take(k as int),
                start.len() <= MAX_BYTES ==> start.len() + k <= MAX_BYTES + 1,
                start.len() > MAX_BYTES ==> k == 0,
            decreases bytes.len() - k,
        {
            self.buffer.push(bytes[k]);
            assert(bytes@.take(k + 1) =~= bytes@.take(k as int).push(bytes@[k as int]));
            k += 1;
        }
        assert(self.buffer@ =~= start + kept_part(start, bytes@));
        bytes.len()
    }

    /// The record, if there is one. One that is too long is replaced.
    pub fn finish(self, timestamp: &str) -> (r: Option<Vec<u8>>)
        ensures
            match r {
                Some(record) => self.buffer@.len() > 0 && record@ == if self.buffer@.len() > MAX_BYTES {
                    vstd::utf8::encode_utf8(oversized(timestamp@))
                } else {
                    self.buffer@
                },
                None => self.buffer@.len() == 0,
            },
    {
        if self.buffer.len() == 0 {
            return None;
        }
        if self.buffer.len() > MAX_BYTES {
            let replaced = text::concat3(
                "{\"timestamp\":\"",
                timestamp,
                "\",\"level\":\"WARN\",\"fields\":{\"event\":\"oversized_log_record\",\"message\":\"Record exceeded 16 KiB and was omitted\"}}\n",
            );
            return Some(copy_bytes(replaced.as_str().as_bytes()));
        }
        Some(self.buffer)
    }
}

// ---------------------------------------------------------------- diagnostics

/// How many bytes a character takes.
pub open spec fn width(c: char) -> nat {
    if (c as u32) < 0x80 {
        1
    } else if (c as u32) < 0x800 {
        2
    } else if (c as u32) < 0x1_0000 {
        3
    } else {
        4
    }
}

/// How many characters at the start of a text fit into some bytes.
pub open spec fn fitting(t: Seq<char>, limit: nat) -> nat
    decreases t.len(),
{
    if t.len() == 0 || width(t[0]) > limit {
        0
    } else {
        1 + fitting(t.drop_first(), (limit - width(t[0])) as nat)
    }
}

/// The start of a text that fits into some bytes.
pub open spec fn cut(t: Seq<char>, limit: nat) -> Seq<char> {
    t.take(fitting(t, limit) as int)
}

/// The texts of a diagnostic cut to some bytes. Which event it is stays.
pub open spec fn cut_fields(values: Map<Seq<char>, JsonView>, limit: nat) -> Map<Seq<char>, JsonView> {
    values.map_entries(
        |name: Seq<char>, value: JsonView|
            if name != "event"@ && value is Text {
                JsonView::Text(cut(value->Text_0, limit))
            } else {
                value
            },
    )
}

/// A diagnostic as a document.
pub open spec fn record_of(timestamp: Seq<char>, level: Seq<char>, values: Map<Seq<char>, JsonView>) -> JsonView {
    JsonView::Object(
        seq![
            ("fields"@, json::object_of(values)),
            ("level"@, JsonView::Text(level)),
            ("target"@, JsonView::Text("gopher::lifecycle"@)),
            ("timestamp"@, JsonView::Text(timestamp)),
        ],
    )
}

/// The bytes of a diagnostic, without the end of the line.
pub open spec fn record_bytes(timestamp: Seq<char>, level: Seq<char>, values: Map<Seq<char>, JsonView>) -> Seq<u8> {
    vstd::utf8::encode_utf8(json::written(record_of(timestamp, level, values)))
}

/// A diagnostic whose texts are cut more and more until it fits.
pub open spec fn cut_record(
    timestamp: Seq<char>,
    level: Seq<char>,
    values: Map<Seq<char>, JsonView>,
    limit: nat,
) -> Result<Seq<u8>, Seq<char>>
    decreases limit,
{
    let shorter = cut_fields(values, limit);
    let bytes = record_bytes(timestamp, level, shorter.insert("truncated"@, JsonView::Bool(true)));
    if bytes.len() < MAX_BYTES {
        Ok(bytes)
    } else if limit == 0 {
        Err("Diagnostic metadata exceeds log size limit"@)
    } else {
        cut_record(timestamp, level, shorter, limit / 2)
    }
}

/// A diagnostic, cut where it is too long.
pub open spec fn diagnostic_of(timestamp: Seq<char>, level: Seq<char>, values: Map<Seq<char>, JsonView>) -> Result<
    Seq<u8>,
    Seq<char>,
> {
    let bytes = record_bytes(timestamp, level, values);
    let record = if bytes.len() < MAX_BYTES {
        Ok(bytes)
    } else {
        cut_record(timestamp, level, values, FIRST_CUT as nat)
    };
    match record {
        Ok(bytes) => Ok(bytes.push(NEWLINE)),
        Err(message) => Err(message),
    }
}

/// How many bytes a character takes.
fn char_width(c: char) -> (r: usize)
    ensures
        r == width(c),
{
    let code: u32 = c as u32;
    if code < 0x80 {
        1
    } else if code < 0x800 {
        2
    } else if code < 0x1_0000 {
        3
    } else {
        4
    }
}

/// The start of a text that fits into some bytes.
fn cut_text(t: &str, limit: usize) -> (r: String)
    ensures
        r@ == cut(t@, limit as nat),
{
    let letters = text::chars(t);
    let mut room: usize = limit;
    let mut i: usize = 0;
    assert(letters@.skip(0) =~= letters@);
    while i < letters.len() && char_width(letters[i]) <= room
        invariant
            letters@ == t@,
            i <= letters@.len(),
            fitting(t@, limit as nat) == i + fitting(t@.skip(i as int), room as nat),
        decreases letters.len() - i,
    {
        assert(t@.skip(i as int)[0] == letters@[i as int]);
        assert(t@.skip(i as int).drop_first() =~= t@.skip(i + 1));
        room = room - char_width(letters[i]);
        i += 1;
    }
    proof {
        if i < letters@.len() {
            assert(t@.skip(i as int)[0] == letters@[i as int]);
        }
        assert(fitting(t@.skip(i as int), room as nat) == 0);
    }
    let r = text::slice(&letters, 0, i);
    assert(r@ =~= cut(t@, limit as nat));
    r
}

/// The texts of a diagnostic cut to some bytes.
fn shorten(values: &TextMap<Json>, limit: usize) -> (r: TextMap<Json>)
    ensures
        r@ == cut_fields(values@, limit as nat),
{
    let mut r: TextMap<Json> = TextMap::new();
    let count: usize = values.len();
    let ghost names = text_map::sorted_keys(values@.dom());
    let ghost target = cut_fields(values@, limit as nat);
    proof {
        values.domain_is_finite();
        text_map::sorted_keys_exist(values@.dom());
    }
    let mut i: usize = 0;
    while i < count
        invariant
            names == text_map::sorted_keys(values@.dom()),
            names.to_set() == values@.dom(),
            target == cut_fields(values@, limit as nat),
            count == names.len(),
            i <= count,
            forall|k: Seq<char>| #[trigger] r@.contains_key(k) <==> names.take(i as int).contains(k),
            forall|k: Seq<char>| #[trigger] r@.contains_key(k) ==> r@[k] == target[k],
        decreases count - i,
    {
        assert(names.take(i + 1) =~= names.take(i as int).push(names[i as int]));
        let name = values.key_at(i);
        let value = values.value_at(i);
        let shorter = match value {
            Json::Text(t) => if text::same(name, "event") {
                value.copy()
            } else {
                Json::text(&cut_text(t, limit))
            },
            _ => value.copy(),
        };
        r.insert(name.clone(), shorter);
        i += 1;
    }
    assert(names.take(i as int) =~= names);
    assert(r@ =~= target) by {
        assert forall|k: Seq<char>| r@.contains_key(k) <==> values@.contains_key(k) by {
            assert(names.contains(k) <==> names.to_set().contains(k));
        }
    }
    r
}

/// The text of a diagnostic.
fn write_record(timestamp: &str, level: &str, values: &TextMap<Json>) -> (r: String)
    ensures
        r@ == json::written(record_of(timestamp@, level@, values@)),
{
    let record = Json::Object(
        vec![
            ("fields".to_owned(), Json::object(values)),
            ("level".to_owned(), Json::text(level)),
            ("target".to_owned(), Json::text("gopher::lifecycle")),
            ("timestamp".to_owned(), Json::text(timestamp)),
        ],
    );
    assert(record@->Object_0 =~= record_of(timestamp@, level@, values@)->Object_0);
    record.write()
}

/// The line of a diagnostic. One that is too long keeps its event, and its texts are cut.
pub fn diagnostic(timestamp: &str, level: &str, values: &TextMap<Json>) -> (r: Result<Vec<u8>, String>)
    ensures
        match r {
            Ok(line) => diagnostic_of(timestamp@, level@, values@) == Ok::<Seq<u8>, Seq<char>>(line@),
            Err(message) => diagnostic_of(timestamp@, level@, values@) == Err::<Seq<u8>, Seq<char>>(message@),
        },
{
    let mut written = write_record(timestamp, level, values);
    let mut current = values.copy();
    let mut limit: usize = FIRST_CUT;
    let ghost mut first = true;
    while written.as_str().as_bytes().len() >= MAX_BYTES
        invariant
            first ==> limit == FIRST_CUT && current@ == values@ && vstd::utf8::encode_utf8(written@) == record_bytes(
                timestamp@,
                level@,
                values@,
            ),
            !first ==> record_bytes(timestamp@, level@, values@).len() >= MAX_BYTES,
            !first ==> cut_record(timestamp@, level@, values@, FIRST_CUT as nat) == if vstd::utf8::encode_utf8(written@).len()
                < MAX_BYTES {
                Ok::<Seq<u8>, Seq<char>>(vstd::utf8::encode_utf8(written@))
            } else {
                cut_record(timestamp@, level@, current@, limit as nat)
            },
            limit <= FIRST_CUT,
        ensures
            vstd::utf8::encode_utf8(written@).len() < MAX_BYTES,
        decreases limit + (if first {
            1int
        } else {
            0int
        }),
    {
        let shorter = shorten(&current, limit);
        let mut shown = shorter.copy();
        shown.insert("truncated".to_owned(), Json::boolean(true));
        written = write_record(timestamp, level, &shown);
        let long = written.as_str().as_bytes().len() >= MAX_BYTES;
        if limit == 0 && long {
            return Err("Diagnostic metadata exceeds log size limit".to_owned());
        }
        current = shorter;
        proof {
            first = false;
        }
        if !long {
            break;
        }
        limit = limit / 2;
    }
    let mut line = copy_bytes(written.as_str().as_bytes());
    line.push(NEWLINE);
    Ok(line)
}

// ---------------------------------------------------------------- laws

/// A diagnostic always fits into a line, with its end.
pub proof fn diagnostics_fit(timestamp: Seq<char>, level: Seq<char>, values: Map<Seq<char>, JsonView>)
    requires
        diagnostic_of(timestamp, level, values) is Ok,
    ensures
        diagnostic_of(timestamp, level, values)->Ok_0.len() <= MAX_BYTES,
{
    if record_bytes(timestamp, level, values).len() >= MAX_BYTES {
        cut_records_fit(timestamp, level, values, FIRST_CUT as nat);
    }
}

/// A diagnostic that was cut fits.
proof fn cut_records_fit(timestamp: Seq<char>, level: Seq<char>, values: Map<Seq<char>, JsonView>, limit: nat)
    requires
        cut_record(timestamp, level, values, limit) is Ok,
    ensures
        cut_record(timestamp, level, values, limit)->Ok_0.len() < MAX_BYTES,
    decreases limit,
{
    let shorter = cut_fields(values, limit);
    if record_bytes(timestamp, level, shorter.insert("truncated"@, JsonView::Bool(true))).len() >= MAX_BYTES && limit > 0 {
        cut_records_fit(timestamp, level, shorter, limit / 2);
    }
}

/// To cut a diagnostic keeps which event it is, and everything that is no text.
pub proof fn cuts_keep_the_event(values: Map<Seq<char>, JsonView>, limit: nat, name: Seq<char>)
    requires
        values.contains_key(name),
        name == "event"@ || !(values[name] is Text),
    ensures
        cut_fields(values, limit).contains_key(name),
        cut_fields(values, limit)[name] == values[name],
{
}

/// A text that was cut is a start of the text, and takes no more than the bytes that it was
/// cut to.
pub proof fn cuts_are_starts(t: Seq<char>, limit: nat)
    ensures
        fitting(t, limit) <= t.len(),
        vstd::utf8::encode_utf8(cut(t, limit)).len() <= limit,
    decreases t.len(),
{
    reveal_with_fuel(vstd::utf8::encode_utf8, 2);
    if t.len() > 0 && width(t[0]) <= limit {
        let rest = t.drop_first();
        cuts_are_starts(rest, (limit - width(t[0])) as nat);
        assert(cut(t, limit).drop_first() =~= cut(rest, (limit - width(t[0])) as nat));
        assert(cut(t, limit)[0] == t[0]);
        vstd::utf8::char_is_scalar(t[0]);
    } else {
        assert(cut(t, limit) =~= Seq::empty());
    }
}

/// What a reader or a writer keeps is bounded: one byte more than a line may have, at most.
pub proof fn kept_parts_are_bounded(kept: Seq<u8>, bytes: Seq<u8>)
    requires
        kept.len() <= MAX_BYTES + 1,
    ensures
        (kept + kept_part(kept, bytes)).len() <= MAX_BYTES + 1,
        kept.len() + bytes.len() <= MAX_BYTES + 1 ==> kept_part(kept, bytes) == bytes,
{
}

} // verus!
