//! Decoder for server-push event streams: one or more `data:` lines followed
//! by a blank line form one event, whose payload is the newline-joined text
//! after each marker.

use vstd::prelude::*;

use crate::error::ProtocolClientError;
use crate::text::{
    is_space, join_lines, join_with_newlines, skip_spaces, trim_end, trim_start, trimmed_end_len,
    views_of,
};

verus! {

/// The marker that opens a data line.
pub open spec fn data_marker() -> Seq<char> {
    seq!['d', 'a', 't', 'a', ':']
}

/// A line that is empty once trailing whitespace is removed.
pub open spec fn is_blank(line: Seq<char>) -> bool {
    trim_end(line).len() == 0
}

/// For a data line, its text after the marker without surrounding whitespace.
pub open spec fn data_content(line: Seq<char>) -> Option<Seq<char>> {
    let t = trim_end(line);
    if t.len() >= 5 && t.subrange(0, 5) == data_marker() {
        Some(trim_start(t.subrange(5, t.len() as int)))
    } else {
        None
    }
}

/// The payload that the buffered data lines make, if there are any.
pub open spec fn flush(buffer: Seq<Seq<char>>) -> Option<Seq<char>> {
    if buffer.len() == 0 {
        None
    } else {
        Some(join_lines(buffer))
    }
}

/// One line fed to the decoder: the new buffer and the payload completed, if any.
pub open spec fn step(buffer: Seq<Seq<char>>, line: Seq<char>) -> (Seq<Seq<char>>, Option<Seq<char>>) {
    if is_blank(line) {
        if buffer.len() == 0 {
            (buffer, None)
        } else {
            (Seq::empty(), Some(join_lines(buffer)))
        }
    } else {
        match data_content(line) {
            Some(c) => (buffer.push(c), None),
            None => (buffer, None),
        }
    }
}

/// The payloads decoded from `lines` with `buffer` already held, the stream
/// ending after the last line.
pub open spec fn events_from(buffer: Seq<Seq<char>>, lines: Seq<Seq<char>>) -> Seq<Seq<char>>
    decreases lines.len(),
{
    if lines.len() == 0 {
        match flush(buffer) {
            Some(p) => seq![p],
            None => Seq::empty(),
        }
    } else {
        let (b, out) = step(buffer, lines[0]);
        let rest = events_from(b, lines.subrange(1, lines.len() as int));
        match out {
            Some(p) => seq![p] + rest,
            None => rest,
        }
    }
}

/// The payloads of a whole stream of lines, in arrival order.
pub open spec fn decode_stream(lines: Seq<Seq<char>>) -> Seq<Seq<char>> {
    events_from(Seq::empty(), lines)
}

/// What one call of [`read_next_event`] does with the buffer and the line reads
/// that remain: the new buffer, how many reads it consumed, and what it returns.
pub open spec fn next_event(
    buffer: Seq<Seq<char>>,
    reads: Seq<Result<Seq<char>, ProtocolClientError>>,
) -> (Seq<Seq<char>>, nat, Option<Result<Seq<char>, ProtocolClientError>>)
    decreases reads.len(),
{
    if reads.len() == 0 {
        match flush(buffer) {
            Some(p) => (Seq::empty(), 0, Some(Ok(p))),
            None => (buffer, 0, None),
        }
    } else {
        match reads[0] {
            Err(e) => (buffer, 1, Some(Err(e))),
            Ok(line) => {
                let (b, out) = step(buffer, line);
                match out {
                    Some(p) => (b, 1, Some(Ok(p))),
                    None => {
                        let (b2, n, r) = next_event(b, reads.subrange(1, reads.len() as int));
                        (b2, n + 1, r)
                    },
                }
            },
        }
    }
}

/// The character views of a list of line reads.
pub open spec fn reads_view(v: Seq<Result<String, ProtocolClientError>>) -> Seq<
    Result<Seq<char>, ProtocolClientError>,
> {
    v.map_values(
        |r: Result<String, ProtocolClientError>|
            match r {
                Ok(s) => Ok(s@),
                Err(e) => Err(e),
            },
    )
}

/// The character view of an optional string.
pub open spec fn opt_view(o: Option<String>) -> Option<Seq<char>> {
    match o {
        Some(s) => Some(s@),
        None => None,
    }
}

/// Feeds one line to a buffer of data lines: a blank line completes the event
/// held, a data line adds its content, any other line is ignored.
pub fn feed_line(buffer: &mut Vec<String>, line: &str) -> (r: Option<String>)
    ensures
        (views_of(final(buffer)@), opt_view(r)) == step(views_of(old(buffer)@), line@),
{
    let end = trimmed_end_len(line);
    let ghost t = trim_end(line@);
    if end == 0 {
        if buffer.len() == 0 {
            return None;
        }
        let payload = join_with_newlines(buffer);
        buffer.clear();
        assert(views_of(buffer@) =~= Seq::<Seq<char>>::empty());
        return Some(payload);
    }
    if end >= 5 && line.get_char(0) == 'd' && line.get_char(1) == 'a' && line.get_char(2) == 't'
        && line.get_char(3) == 'a' && line.get_char(4) == ':' {
        assert(t.subrange(0, 5) =~= data_marker());
        let trimmed = line.substring_char(0, end);
        let start = skip_spaces(trimmed, 5);
        let content = trimmed.substring_char(start, end).to_string();
        assert(t.subrange(5, t.len() as int) =~= trimmed@.subrange(5, trimmed@.len() as int));
        let ghost before = views_of(buffer@);
        buffer.push(content);
        assert(views_of(buffer@) =~= before.push(content@));
    } else {
        assert(!(t.len() >= 5 && t.subrange(0, 5) == data_marker())) by {
            if t.len() >= 5 && t.subrange(0, 5) == data_marker() {
                assert(t.subrange(0, 5)[0] == 'd');
                assert(t.subrange(0, 5)[1] == 'a');
                assert(t.subrange(0, 5)[2] == 't');
                assert(t.subrange(0, 5)[3] == 'a');
                assert(t.subrange(0, 5)[4] == ':');
            }
        }
    }
    None
}

/// At the end of the stream: the payload of the data lines still held, if any.
pub fn flush_buffer(buffer: &mut Vec<String>) -> (r: Option<String>)
    ensures
        opt_view(r) == flush(views_of(old(buffer)@)),
        views_of(final(buffer)@) == Seq::<Seq<char>>::empty(),
{
    if buffer.len() == 0 {
        assert(views_of(buffer@) =~= Seq::<Seq<char>>::empty());
        return None;
    }
    let payload = join_with_newlines(buffer);
    buffer.clear();
    assert(views_of(buffer@) =~= Seq::<Seq<char>>::empty());
    Some(payload)
}

/// The character view of an optional read result.
pub open spec fn event_view(o: Option<Result<String, ProtocolClientError>>) -> Option<
    Result<Seq<char>, ProtocolClientError>,
> {
    match o {
        Some(Ok(s)) => Some(Ok(s@)),
        Some(Err(e)) => Some(Err(e)),
        None => None,
    }
}

/// `next_event` with `k` more reads counted as consumed.
pub open spec fn consumed_after(
    t: (Seq<Seq<char>>, nat, Option<Result<Seq<char>, ProtocolClientError>>),
    k: nat,
) -> (Seq<Seq<char>>, nat, Option<Result<Seq<char>, ProtocolClientError>>) {
    (t.0, t.1 + k, t.2)
}

/// Reads lines from `lines`, starting at `*pos`, until one event is complete
/// and returns its payload; a failed read is returned as it is. At the end of
/// the lines the data still held is returned as a last payload, then `None`.
pub fn read_next_event(
    lines: &Vec<Result<String, ProtocolClientError>>,
    pos: &mut usize,
    buffer: &mut Vec<String>,
) -> (r: Option<Result<String, ProtocolClientError>>)
    requires
        *old(pos) <= lines@.len(),
    ensures
        next_event(
            views_of(old(buffer)@),
            reads_view(lines@).subrange(*old(pos) as int, lines@.len() as int),
        ) == (views_of(final(buffer)@), (*final(pos) - *old(pos)) as nat, event_view(r)),
        *old(pos) <= *final(pos),
{
    let ghost start = *pos as nat;
    let ghost reads = reads_view(lines@);
    let ghost whole = next_event(views_of(buffer@), reads.subrange(start as int, lines@.len() as int));
    while *pos < lines.len()
        invariant
            start <= *pos <= lines@.len(),
            start == *old(pos),
            reads == reads_view(lines@),
            whole == next_event(
                views_of(old(buffer)@),
                reads.subrange(start as int, lines@.len() as int),
            ),
            whole == consumed_after(
                next_event(views_of(buffer@), reads.subrange(*pos as int, lines@.len() as int)),
                (*pos - start) as nat,
            ),
        decreases lines@.len() - *pos,
    {
        let i = *pos;
        let ghost rest = reads.subrange(i as int, lines@.len() as int);
        assert(rest[0] == reads[i as int]);
        assert(rest.subrange(1, rest.len() as int) =~= reads.subrange(i + 1, lines@.len() as int));
        *pos = i + 1;
        match &lines[i] {
            Err(e) => {
                assert(reads[i as int] == Err::<Seq<char>, ProtocolClientError>(*e));
                return Some(Err(e.duplicate()));
            },
            Ok(line) => {
                assert(reads[i as int] == Ok::<Seq<char>, ProtocolClientError>(line@));
                let out = feed_line(buffer, line.as_str());
                if let Some(payload) = out {
                    return Some(Ok(payload));
                }
            },
        }
    }
    assert(reads.subrange(*pos as int, lines@.len() as int).len() == 0);
    match flush_buffer(buffer) {
        Some(payload) => Some(Ok(payload)),
        None => None,
    }
}

/// Decodes a whole stream of lines into its payloads, in arrival order.
pub fn decode_lines(lines: &Vec<String>) -> (r: Vec<String>)
    ensures
        views_of(r@) == decode_stream(views_of(lines@)),
{
    let ghost all = views_of(lines@);
    let mut buffer: Vec<String> = Vec::new();
    let mut out: Vec<String> = Vec::new();
    let mut i: usize = 0;
    assert(all.subrange(0, all.len() as int) =~= all);
    assert(views_of(buffer@) =~= Seq::<Seq<char>>::empty());
    assert(views_of(out@) =~= Seq::<Seq<char>>::empty());
    while i < lines.len()
        invariant
            i <= lines@.len(),
            all == views_of(lines@),
            decode_stream(all) == views_of(out@) + events_from(
                views_of(buffer@),
                all.subrange(i as int, all.len() as int),
            ),
        decreases lines@.len() - i,
    {
        let ghost rest = all.subrange(i as int, all.len() as int);
        assert(rest[0] == lines@[i as int]@);
        assert(rest.subrange(1, rest.len() as int) =~= all.subrange(i + 1, all.len() as int));
        let ghost before = views_of(out@);
        if let Some(payload) = feed_line(&mut buffer, lines[i].as_str()) {
            out.push(payload);
            assert(views_of(out@) =~= before.push(payload@));
            assert(before.push(payload@) + events_from(views_of(buffer@), all.subrange(i + 1, all.len() as int))
                =~= before + (seq![payload@] + events_from(views_of(buffer@), all.subrange(i + 1, all.len() as int))));
        }
        i = i + 1;
    }
    let ghost before = views_of(out@);
    if let Some(payload) = flush_buffer(&mut buffer) {
        out.push(payload);
        assert(views_of(out@) =~= before.push(payload@));
    } else {
        assert(before + Seq::<Seq<char>>::empty() =~= before);
    }
    out
}

/// The decoder of the log stream: the data lines of the event being read.
pub struct LogStream {
    pub buffer: Vec<String>,
}

/// The decoder of the system metrics stream: the data lines of the event
/// being read.
pub struct SystemMetricsStream {
    pub buffer: Vec<String>,
}

impl LogStream {
    pub fn new() -> (r: Self)
        ensures
            views_of(r.buffer@) == Seq::<Seq<char>>::empty(),
    {
        let r = LogStream { buffer: Vec::new() };
        assert(views_of(r.buffer@) =~= Seq::<Seq<char>>::empty());
        r
    }

    /// Takes one line of the stream; returns the payload it completes, if any.
    pub fn feed(&mut self, line: &str) -> (r: Option<String>)
        ensures
            (views_of(final(self).buffer@), opt_view(r)) == step(views_of(old(self).buffer@), line@),
    {
        feed_line(&mut self.buffer, line)
    }

    /// At the end of the stream: the payload of the data lines still held.
    pub fn finish(&mut self) -> (r: Option<String>)
        ensures
            opt_view(r) == flush(views_of(old(self).buffer@)),
            views_of(final(self).buffer@) == Seq::<Seq<char>>::empty(),
    {
        flush_buffer(&mut self.buffer)
    }
}

impl SystemMetricsStream {
    pub fn new() -> (r: Self)
        ensures
            views_of(r.buffer@) == Seq::<Seq<char>>::empty(),
    {
        let r = SystemMetricsStream { buffer: Vec::new() };
        assert(views_of(r.buffer@) =~= Seq::<Seq<char>>::empty());
        r
    }

    /// Takes one line of the stream; returns the payload it completes, if any.
    pub fn feed(&mut self, line: &str) -> (r: Option<String>)
        ensures
            (views_of(final(self).buffer@), opt_view(r)) == step(views_of(old(self).buffer@), line@),
    {
        feed_line(&mut self.buffer, line)
    }

    /// At the end of the stream: the payload of the data lines still held.
    pub fn finish(&mut self) -> (r: Option<String>)
        ensures
            opt_view(r) == flush(views_of(old(self).buffer@)),
            views_of(final(self).buffer@) == Seq::<Seq<char>>::empty(),
    {
        flush_buffer(&mut self.buffer)
    }
}

/// Text that neither starts nor ends with whitespace.
pub open spec fn is_tight(c: Seq<char>) -> bool {
    c.len() == 0 || (!is_space(c[0]) && !is_space(c.last()))
}

/// The data line `data: c`.
pub open spec fn data_line(c: Seq<char>) -> Seq<char> {
    data_marker() + seq![' '] + c
}

/// The data lines for each of `cs`, in order.
pub open spec fn data_lines(cs: Seq<Seq<char>>) -> Seq<Seq<char>> {
    cs.map_values(|c: Seq<char>| data_line(c))
}

/// A data line carries exactly the text after `data: `.
pub proof fn lemma_data_line(c: Seq<char>)
    requires
        is_tight(c),
    ensures
        !is_blank(data_line(c)),
        data_content(data_line(c)) == Some(c),
{
    let line = data_line(c);
    if c.len() == 0 {
        assert(line.drop_last() =~= data_marker());
        assert(trim_end(data_marker()) == data_marker());
        assert(trim_end(line) == data_marker());
        assert(data_marker().subrange(0, 5) =~= data_marker());
        assert(data_marker().subrange(5, 5) =~= c);
    } else {
        assert(line.last() == c.last());
        assert(trim_end(line) == line);
        assert(line.subrange(0, 5) =~= data_marker());
        let tail = line.subrange(5, line.len() as int);
        assert(tail =~= seq![' '] + c);
        assert(tail.subrange(1, tail.len() as int) =~= c);
        assert(trim_start(c) == c);
    }
}

/// Data lines add their contents to the buffer and complete nothing.
pub proof fn lemma_data_lines_accumulate(
    buffer: Seq<Seq<char>>,
    cs: Seq<Seq<char>>,
    rest: Seq<Seq<char>>,
)
    requires
        forall|i: int| 0 <= i < cs.len() ==> is_tight(#[trigger] cs[i]),
    ensures
        events_from(buffer, data_lines(cs) + rest) == events_from(buffer + cs, rest),
    decreases cs.len(),
{
    if cs.len() == 0 {
        assert(data_lines(cs) + rest =~= rest);
        assert(buffer + cs =~= buffer);
    } else {
        let lines = data_lines(cs) + rest;
        lemma_data_line(cs[0]);
        assert(lines[0] == data_line(cs[0]));
        let tail = cs.subrange(1, cs.len() as int);
        assert(lines.subrange(1, lines.len() as int) =~= data_lines(tail) + rest);
        assert forall|i: int| 0 <= i < tail.len() implies is_tight(#[trigger] tail[i]) by {
            assert(tail[i] == cs[i + 1]);
        }
        lemma_data_lines_accumulate(buffer.push(cs[0]), tail, rest);
        assert(buffer.push(cs[0]) + tail =~= buffer + cs);
    }
}

/// One event of a single data line followed by a blank line decodes to
/// exactly the text after `data: `.
pub proof fn law_single_event(c: Seq<char>)
    requires
        is_tight(c),
    ensures
        decode_stream(seq![data_line(c), Seq::empty()]) == seq![c],
{
    law_multi_line_event(seq![c]);
    assert(data_lines(seq![c]).push(Seq::empty()) =~= seq![data_line(c), Seq::empty()]);
}

/// One event of several data lines decodes to one payload: their texts
/// joined by newlines, in order.
pub proof fn law_multi_line_event(cs: Seq<Seq<char>>)
    requires
        cs.len() > 0,
        forall|i: int| 0 <= i < cs.len() ==> is_tight(#[trigger] cs[i]),
    ensures
        decode_stream(data_lines(cs).push(Seq::empty())) == seq![join_lines(cs)],
{
    let blank: Seq<Seq<char>> = seq![Seq::empty()];
    assert(data_lines(cs).push(Seq::empty()) =~= data_lines(cs) + blank);
    lemma_data_lines_accumulate(Seq::empty(), cs, blank);
    assert(Seq::<Seq<char>>::empty() + cs =~= cs);
    assert(trim_end(Seq::<char>::empty()).len() == 0);
    assert(blank.subrange(1, 1) =~= Seq::<Seq<char>>::empty());
    assert(blank[0] == Seq::<char>::empty());
    assert(is_blank(blank[0]));
    assert(step(cs, blank[0]) == (Seq::<Seq<char>>::empty(), Some(join_lines(cs))));
    assert(events_from(Seq::empty(), Seq::empty()) == Seq::<Seq<char>>::empty());
    assert(seq![join_lines(cs)] + Seq::<Seq<char>>::empty() =~= seq![join_lines(cs)]);
}

/// Two events decode to two payloads in arrival order, and a stream with no
/// lines decodes to none.
pub proof fn law_events_in_order(a: Seq<char>, b: Seq<char>)
    requires
        is_tight(a),
        is_tight(b),
    ensures
        decode_stream(seq![data_line(a), Seq::empty(), data_line(b), Seq::empty()]) == seq![a, b],
        decode_stream(Seq::empty()) == Seq::<Seq<char>>::empty(),
{
    let lines = seq![data_line(a), Seq::empty(), data_line(b), Seq::empty()];
    let second = seq![data_line(b), Seq::empty()];
    lemma_data_line(a);
    assert(trim_end(Seq::<char>::empty()).len() == 0);
    assert(lines.subrange(1, 4).subrange(1, 3) =~= second);
    assert(join_lines(seq![a]) == a);
    law_single_event(b);
    assert(lines.subrange(1, 4)[0] == Seq::<char>::empty());
    assert(events_from(seq![a], lines.subrange(1, 4)) == seq![a] + events_from(Seq::empty(), second));
    assert(seq![a] + seq![b] =~= seq![a, b]);
}

/// A stream that ends right after its data lines, with no blank line, still
/// yields their payload.
pub proof fn law_unterminated_event(cs: Seq<Seq<char>>)
    requires
        cs.len() > 0,
        forall|i: int| 0 <= i < cs.len() ==> is_tight(#[trigger] cs[i]),
    ensures
        decode_stream(data_lines(cs)) == seq![join_lines(cs)],
{
    lemma_data_lines_accumulate(Seq::empty(), cs, Seq::empty());
    assert(data_lines(cs) + Seq::<Seq<char>>::empty() =~= data_lines(cs));
    assert(Seq::<Seq<char>>::empty() + cs =~= cs);
}

/// Line reads that all succeeded, with the given lines.
pub open spec fn ok_reads(lines: Seq<Seq<char>>) -> Seq<Result<Seq<char>, ProtocolClientError>> {
    lines.map_values(|l: Seq<char>| Ok::<Seq<char>, ProtocolClientError>(l))
}

/// Reading event by event gives the payloads of the whole stream in order:
/// each call returns the next payload of the decoded stream, or `None` where
/// it has none left.
pub proof fn law_reads_follow_stream(buffer: Seq<Seq<char>>, lines: Seq<Seq<char>>)
    ensures
        ({
            let (b, n, out) = next_event(buffer, ok_reads(lines));
            &&& n <= lines.len()
            &&& match out {
                None => events_from(buffer, lines) == Seq::<Seq<char>>::empty(),
                Some(Ok(p)) => events_from(buffer, lines) == seq![p] + events_from(
                    b,
                    lines.subrange(n as int, lines.len() as int),
                ),
                Some(Err(_)) => false,
            }
        }),
    decreases lines.len(),
{
    let reads = ok_reads(lines);
    if lines.len() > 0 {
        let tail = lines.subrange(1, lines.len() as int);
        assert(reads[0] == Ok::<Seq<char>, ProtocolClientError>(lines[0]));
        assert(reads.subrange(1, reads.len() as int) =~= ok_reads(tail));
        let (b1, out1) = step(buffer, lines[0]);
        law_reads_follow_stream(b1, tail);
        let (b2, n2, r2) = next_event(b1, ok_reads(tail));
        assert(tail.subrange(n2 as int, tail.len() as int) =~= lines.subrange((n2 + 1) as int, lines.len() as int));
        if out1 is Some {
            assert(lines.subrange(1, lines.len() as int) =~= tail);
        }
    }
}

} // verus!
