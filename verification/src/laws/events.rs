//! Laws of event streams: what the bytes that arrive are read as.
use crate::error::PulseError;
use crate::events::{
    event_value, join_lines, law_only_a_blank_line_ends_an_event, lemma_first_line, line_body,
    line_kind, next_payload, EventsStream, Line, StreamInput, StreamStep,
};
use crate::json::{json_from_text, json_of, Json};
use crate::laws::requests::holds_one;
use serde_json::Value;
use vstd::prelude::*;
use vstd::utf8::*;

verus! {

// ----- lines -----------------------------------------------------------------------------------

/// Whether bytes are one line, with the newline that ends it.
pub open spec fn is_line(line: Seq<u8>) -> bool {
    &&& line.len() > 0
    &&& line.last() == 10
    &&& forall|i: int| 0 <= i < line.len() - 1 ==> #[trigger] line[i] != 10
}

/// Whether a line is `body` and its end: a newline, or a carriage return and a newline.
pub open spec fn ended(line: Seq<u8>, body: Seq<u8>) -> bool {
    ||| line == body + seq![13u8, 10u8]
    ||| line == body + seq![10u8] && (body.len() > 0 ==> body.last() != 13)
}

/// Whether a line is nothing but its end.
pub open spec fn blank_line(line: Seq<u8>) -> bool {
    ended(line, Seq::empty())
}

/// Whether a line says `text`: it is the field `data` with that text, before which one space may
/// stand.
pub open spec fn says(line: Seq<u8>, text: Seq<char>) -> bool {
    ||| ended(line, encode_utf8("data:"@ + " "@ + text))
    ||| ended(line, encode_utf8("data:"@ + text)) && (text.len() > 0 ==> text[0] != ' ')
}

/// What lines say, one after the other; comments, other fields and what is no text say nothing.
pub open spec fn said(lines: Seq<Seq<u8>>) -> Seq<Seq<char>>
    decreases lines.len(),
{
    if lines.len() == 0 {
        Seq::empty()
    } else if exists|text: Seq<char>| says(lines[0], text) {
        seq![choose|text: Seq<char>| says(lines[0], text)] + said(lines.drop_first())
    } else {
        said(lines.drop_first())
    }
}

/// Texts with a newline between each two.
pub open spec fn glued(texts: Seq<Seq<char>>) -> Seq<char>
    decreases texts.len(),
{
    if texts.len() == 0 {
        Seq::empty()
    } else if texts.len() == 1 {
        texts[0]
    } else {
        texts[0] + "\n"@ + glued(texts.drop_first())
    }
}

/// Whether these are lines of which none is blank.
pub open spec fn full_lines(lines: Seq<Seq<u8>>) -> bool {
    forall|i: int|
        0 <= i < lines.len() ==> is_line(#[trigger] lines[i]) && !blank_line(lines[i])
}

proof fn lemma_kind(line: Seq<u8>)
    requires
        is_line(line),
    ensures
        line_kind(line) is Boundary <==> blank_line(line),
        forall|text: Seq<char>| #[trigger] says(line, text) <==> line_kind(line) == Line::Data(text),
{
    let n = line.len();
    let body = line_body(line);
    law_only_a_blank_line_ends_an_event(line);
    assert(ended(line, body)) by {
        if n >= 2 && line[n - 2] == 13 {
            assert(line =~= body + seq![13u8, 10u8]);
        } else {
            assert(line =~= body + seq![10u8]);
            assert(body.len() > 0 ==> body.last() == line[n - 2]);
        }
    }
    assert forall|other: Seq<u8>| #[trigger] ended(line, other) implies other == body by {
        if line == other + seq![13u8, 10u8] {
            assert(line[n - 2] == 13);
            assert(other =~= line.take(n - 2));
        } else {
            assert(other.len() > 0 ==> line[n - 2] == other.last());
            assert(other =~= line.take(n - 1));
        }
    }
    assert(body.len() == 0 ==> body =~= Seq::empty());
    reveal_strlit("data:");
    reveal_strlit(" ");
    assert forall|text: Seq<char>| #[trigger] says(line, text) implies line_kind(line)
        == Line::Data(text) by {
        let whole = if ended(line, encode_utf8("data:"@ + " "@ + text)) {
            "data:"@ + " "@ + text
        } else {
            "data:"@ + text
        };
        assert(body == encode_utf8(whole));
        encode_utf8_valid_utf8(whole);
        encode_utf8_decode_utf8(whole);
        assert(whole[0] == 'd');
        assert(whole.take(5) =~= "data:"@);
        if whole == "data:"@ + " "@ + text {
            assert(whole.skip(5) =~= " "@ + text);
            assert(whole.skip(5).drop_first() =~= text);
        } else {
            assert(whole.skip(5) =~= text);
        }
    }
    if let Line::Data(text) = line_kind(line) {
        let whole = decode_utf8(body);
        decode_utf8_encode_utf8(body);
        let rest = whole.skip(5);
        assert(whole =~= "data:"@ + rest);
        if rest.len() > 0 && rest[0] == ' ' {
            assert(whole =~= "data:"@ + " "@ + text);
        }
        assert(says(line, text));
    }
}

proof fn lemma_glued(texts: Seq<Seq<char>>)
    ensures
        join_lines(texts) == glued(texts),
    decreases texts.len(),
{
    reveal_strlit("\n");
    if texts.len() == 2 {
        assert(texts.drop_last()[0] == texts[0]);
        assert(texts.drop_first()[0] == texts[1]);
        assert(glued(texts.drop_first()) == texts[1]);
        assert(join_lines(texts.drop_last()) == texts[0]);
        assert(join_lines(texts) =~= glued(texts));
    } else if texts.len() > 2 {
        let init = texts.drop_last();
        let tail = texts.drop_first();
        lemma_glued(init);
        lemma_glued(tail);
        assert(init.drop_first() =~= tail.drop_last());
        lemma_glued(init.drop_first());
        assert(init[0] == texts[0]);
        assert(tail.last() == texts.last());
        assert(join_lines(texts) == join_lines(init).push('\n') + texts.last());
        assert(glued(texts) =~= texts[0] + "\n"@ + (join_lines(tail.drop_last()).push('\n')
            + tail.last()));
        assert(join_lines(init) =~= texts[0] + "\n"@ + join_lines(tail.drop_last()));
        assert(join_lines(texts) =~= glued(texts));
    }
}

proof fn lemma_one_line(line: Seq<u8>, rest: Seq<u8>)
    requires
        is_line(line),
    ensures
        (line + rest).index_of_first(10u8) == Some(line.len() - 1),
        (line + rest).take(line.len() as int) == line,
        (line + rest).skip(line.len() as int) == rest,
{
    let init = line.drop_last();
    assert(!init.contains(10u8));
    assert(init.push(10u8) =~= line);
    lemma_first_line(init, rest);
}

proof fn lemma_full_lines(lines: Seq<Seq<u8>>, rest: Seq<u8>, before: Seq<Seq<char>>)
    requires
        full_lines(lines),
    ensures
        next_payload(lines.flatten() + rest, before) == next_payload(rest, before + said(lines)),
    decreases lines.len(),
{
    if lines.len() == 0 {
        assert(lines.flatten() + rest =~= rest);
        assert(before + said(lines) =~= before);
    } else {
        let line = lines[0];
        let tail = lines.drop_first();
        let more = tail.flatten() + rest;
        assert(lines.flatten() + rest =~= line + more);
        assert forall|i: int| 0 <= i < tail.len() implies is_line(#[trigger] tail[i])
            && !blank_line(tail[i]) by {
            assert(tail[i] == lines[i + 1]);
        }
        lemma_one_line(line, more);
        lemma_kind(line);
        match line_kind(line) {
            Line::Data(text) => {
                assert(says(line, text));
                let chosen = choose|t: Seq<char>| says(line, t);
                assert(says(line, chosen));
                lemma_full_lines(tail, rest, before.push(text));
                assert(before.push(text) + said(tail) =~= before + said(lines));
            },
            _ => {
                lemma_full_lines(tail, rest, before);
            },
        }
    }
}

proof fn lemma_blank_line(line: Seq<u8>, rest: Seq<u8>)
    requires
        blank_line(line),
    ensures
        is_line(line),
        line_kind(line) is Boundary,
        (line + rest).index_of_first(10u8) == Some(line.len() - 1),
        (line + rest).take(line.len() as int) == line,
        (line + rest).skip(line.len() as int) == rest,
{
    assert(line =~= seq![10u8] || line =~= seq![13u8, 10u8]);
    lemma_one_line(line, rest);
    lemma_kind(line);
}

// ----- events ----------------------------------------------------------------------------------

/// A blank line ends an event. What the lines before it say, and what was said before, is its
/// payload, with a newline between each two lines; the bytes behind it stay.
pub proof fn law_complete_events(
    stream: &mut EventsStream,
    lines: Seq<Seq<u8>>,
    blank: Seq<u8>,
    more: Seq<u8>,
    r: Option<String>,
)
    requires
        full_lines(lines),
        blank_line(blank),
        old(stream)@.buffer == lines.flatten() + (blank + more),
        (old(stream)@.lines + said(lines)).len() > 0,
        call_ensures(EventsStream::take_payload, (stream,), r),
    ensures
        r matches Some(payload) && payload@ == glued(old(stream)@.lines + said(lines)),
        final(stream)@.buffer == more,
        final(stream)@.lines.len() == 0,
        final(stream)@.done == old(stream)@.done,
{
    let texts = old(stream)@.lines + said(lines);
    lemma_full_lines(lines, blank + more, old(stream)@.lines);
    lemma_blank_line(blank, more);
    lemma_glued(texts);
}

/// An event in which nothing is said is passed over: what comes behind it decides.
pub proof fn law_empty_events(
    stream: &mut EventsStream,
    other: &mut EventsStream,
    lines: Seq<Seq<u8>>,
    blank: Seq<u8>,
    r: Option<String>,
    s: Option<String>,
)
    requires
        full_lines(lines),
        blank_line(blank),
        old(stream)@.buffer == lines.flatten() + (blank + old(other)@.buffer),
        old(stream)@.lines.len() == 0,
        old(other)@.lines.len() == 0,
        said(lines).len() == 0,
        call_ensures(EventsStream::take_payload, (stream,), r),
        call_ensures(EventsStream::take_payload, (other,), s),
    ensures
        match (r, s) {
            (Some(p), Some(q)) => p@ == q@,
            (None, None) => true,
            _ => false,
        },
        final(stream)@.buffer == final(other)@.buffer,
        final(stream)@.lines == final(other)@.lines,
        final(stream)@.done == old(stream)@.done,
{
    lemma_full_lines(lines, blank + old(other)@.buffer, old(stream)@.lines);
    lemma_blank_line(blank, old(other)@.buffer);
    assert(old(stream)@.lines + said(lines) =~= old(other)@.lines);
}

/// Without a blank line there is no event yet. What the lines say is kept, and so are the bytes of
/// a line that is not complete.
pub proof fn law_unfinished_events(
    stream: &mut EventsStream,
    lines: Seq<Seq<u8>>,
    rest: Seq<u8>,
    r: Option<String>,
)
    requires
        full_lines(lines),
        !rest.contains(10u8),
        old(stream)@.buffer == lines.flatten() + rest,
        call_ensures(EventsStream::take_payload, (stream,), r),
    ensures
        r is None,
        final(stream)@.buffer == rest,
        final(stream)@.lines == old(stream)@.lines + said(lines),
        final(stream)@.done == old(stream)@.done,
{
    lemma_full_lines(lines, rest, old(stream)@.lines);
    rest.index_of_first_ensures(10u8);
}

/// Whether a document is the event of a payload: the document that the payload is, or an object
/// with the payload as its member `data` where it is none.
pub open spec fn stands_for(doc: Json, payload: Seq<char>) -> bool {
    match json_from_text(payload) {
        Ok(read) => doc == read,
        Err(_) => holds_one(Some(doc), "data"@, Json::Str(payload)),
    }
}

/// An event is what its payload stands for.
pub proof fn law_parsed_events(
    stream: &mut EventsStream,
    other: &mut EventsStream,
    r: Option<Value>,
    payload: Option<String>,
)
    requires
        old(stream)@ == old(other)@,
        call_ensures(EventsStream::try_parse_buffered_event, (stream,), r),
        call_ensures(EventsStream::take_payload, (other,), payload),
    ensures
        final(stream)@ == final(other)@,
        match payload {
            Some(p) => r matches Some(v) && stands_for(json_of(v), p@),
            None => r is None,
        },
{
}

/// The event of a payload, given what reading it gave.
pub proof fn law_event_values(payload: String, read: Result<Value, String>, r: Value)
    requires
        call_ensures(event_value, (payload, read), r),
    ensures
        match read {
            Ok(v) => json_of(r) == json_of(v),
            Err(_) => holds_one(Some(json_of(r)), "data"@, Json::Str(payload@)),
        },
{
}

/// A stream that has ended says so and stays as it is. Any other hands out the next event, or asks
/// for input where none is complete.
pub proof fn law_next_steps(
    stream: &mut EventsStream,
    other: &mut EventsStream,
    r: StreamStep,
    event: Option<Value>,
)
    requires
        old(stream)@ == old(other)@,
        call_ensures(EventsStream::next_step, (stream,), r),
        call_ensures(EventsStream::try_parse_buffered_event, (other,), event),
    ensures
        if old(stream)@.done {
            r is Ended && final(stream)@ == old(stream)@
        } else {
            final(stream)@ == final(other)@ && match event {
                Some(v) => r matches StreamStep::Event(w) && json_of(w) == json_of(v),
                None => r is NeedInput,
            }
        },
{
}

/// Bytes join those that are buffered. The end and a failure end the stream for good, and a failure
/// is reported.
pub proof fn law_inputs(stream: &mut EventsStream, input: StreamInput, r: Option<PulseError>)
    requires
        call_ensures(EventsStream::on_input, (stream, input), r),
    ensures
        final(stream)@.lines == old(stream)@.lines,
        match input {
            StreamInput::Chunk(chunk) => r is None && final(stream)@.buffer == old(stream)@.buffer
                + chunk@ && final(stream)@.done == old(stream)@.done,
            StreamInput::End => r is None && final(stream)@.buffer == old(stream)@.buffer
                && final(stream)@.done,
            StreamInput::Failed(cause) => final(stream)@.buffer == old(stream)@.buffer
                && final(stream)@.done && (r matches Some(PulseError::Transport(text)) && text@
                == cause@),
        },
{
}

/// A new stream holds nothing and goes on; what a stream says of itself is so, and there is room
/// for bytes as long as a quarter of the address space holds them.
pub proof fn law_stream_states(
    new: EventsStream,
    stream: EventsStream,
    done: bool,
    lines: usize,
    n: usize,
    room: bool,
)
    requires
        call_ensures(EventsStream::new, (), new),
        call_ensures(EventsStream::is_done, (&stream,), done),
        call_ensures(EventsStream::buffered_lines, (&stream,), lines),
        call_ensures(EventsStream::has_room, (&stream, n), room),
    ensures
        new@.buffer.len() == 0,
        new@.lines.len() == 0,
        !new@.done,
        done == stream@.done,
        lines == stream@.lines.len(),
        room <==> stream@.buffer.len() + n <= isize::MAX as int / 4,
{
}

/// Whatever arrives can be taken in, bytes where there is room for them.
pub proof fn law_accepted_inputs(
    stream: &mut EventsStream,
    chunk: Vec<u8>,
    n: usize,
    cause: String,
)
    requires
        n == chunk@.len(),
        call_ensures(EventsStream::has_room, (&*old(stream), n), true),
    ensures
        call_requires(EventsStream::on_input, (old(stream), StreamInput::Chunk(chunk))),
        call_requires(EventsStream::on_input, (old(stream), StreamInput::End)),
        call_requires(EventsStream::on_input, (old(stream), StreamInput::Failed(cause))),
{
}

} // verus!
