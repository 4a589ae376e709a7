//! Decoders that read the lines of a streamed response and give the events
//! that they carry, as JSON documents: strict OpenAI server-sent events, a
//! lenient variant, and JSON lines; and the reader that cuts a streamed body
//! into lines for a decoder.

use vstd::prelude::*;

use crate::error::{ClientError, Result};
use crate::json::{json_parse, parse_json};
use crate::text::{
    chars_eq, chars_eq_ignore_ascii_case, chars_of, concat_chars, eq_ignore_ascii_case, has_prefix,
    is_blank, is_blank_chars, slice_chars, string_of, trim, trim_chars,
};

verus! {

/// Reads the lines of a streamed response. Each call takes one line and gives
/// the event that it carries, if it carries one, or fails on it; a decoder
/// may change as it reads (to stop after an end marker).
///
/// A decoder may describe what it does by `event_of` and `after_line` and
/// say so by `follows_line_model`; one that does not say so (a decoder of a
/// caller's own, say) is promised nothing of beyond its types.
pub trait StreamDecoder: Sized {
    /// What the decoder makes of a line that carries an event.
    type Event;

    /// Whether `decode_line` does what `event_of` and `after_line` say.
    open spec fn follows_line_model() -> bool {
        false
    }

    /// What this decoder makes of `line`: `None` when it fails on the line,
    /// and otherwise the event that the line carries, if any.
    open spec fn event_of(&self, line: Seq<char>) -> Option<Option<Self::Event>> {
        arbitrary()
    }

    /// This decoder after it has read `line`.
    open spec fn after_line(&self, line: Seq<char>) -> Self {
        arbitrary()
    }

    /// The event on `line`, if there is one; an error when the line cannot
    /// be read.
    fn decode_line(&mut self, line: &str) -> (r: Result<Option<Self::Event>>)
        ensures
            Self::follows_line_model() ==> match r {
                Ok(e) => old(self).event_of(line@) == Some(e),
                Err(_) => old(self).event_of(line@) is None,
            },
            Self::follows_line_model() ==> *final(self) == old(self).after_line(line@),
    ;
}

/// What a decoder makes of a line on which it finds `payload`: nothing when
/// there is none, the JSON document that the payload writes, and a failure
/// when it writes none.
pub open spec fn json_event(payload: Option<Seq<char>>) -> Option<Option<serde_json::Value>> {
    match payload {
        None => Some(None),
        Some(p) => match json_parse(p) {
            Some(v) => Some(Some(v)),
            None => None,
        },
    }
}

/// Reads the JSON document of a payload, if there is one.
fn parse_payload(payload: Option<String>) -> (r: Result<Option<serde_json::Value>>)
    ensures
        match r {
            Ok(e) => json_event(opt_text(payload)) == Some(e),
            Err(err) => json_event(opt_text(payload)) is None && err is Json,
        },
{
    match payload {
        None => Ok(None),
        Some(p) => match parse_json(p.as_str()) {
            Ok(v) => Ok(Some(v)),
            Err(e) => Err(ClientError::Json(e)),
        },
    }
}

/// What the strict decoder does with `line`, given whether it has seen the
/// end marker: the new end flag and the payload, if any. Lines after the
/// marker, blank lines, `event:` lines and lines that are not `data:` lines
/// carry nothing; `data: [DONE]` is the end marker.
pub open spec fn openai_sse_step(done: bool, line: Seq<char>) -> (bool, Option<Seq<char>>) {
    let t = trim(line);
    if done || t.len() == 0 || "event:"@.is_prefix_of(t) || !"data:"@.is_prefix_of(t) {
        (done, None)
    } else {
        let data = trim(t.skip("data:"@.len() as int));
        if data == "[DONE]"@ {
            (true, None)
        } else {
            (done, Some(data))
        }
    }
}

/// What the lenient decoder does with `line`: like the strict one, but `id:`
/// lines carry nothing too, a line without `data:` is a payload itself, and
/// `done` in any case also ends the stream.
pub open spec fn lenient_sse_step(done: bool, line: Seq<char>) -> (bool, Option<Seq<char>>) {
    let t = trim(line);
    if done || t.len() == 0 || "event:"@.is_prefix_of(t) || "id:"@.is_prefix_of(t) {
        (done, None)
    } else {
        let data = trim(
            if "data:"@.is_prefix_of(t) {
                t.skip("data:"@.len() as int)
            } else {
                t
            },
        );
        if data == "[DONE]"@ || eq_ignore_ascii_case(data, "done"@) {
            (true, None)
        } else {
            (done, Some(data))
        }
    }
}

/// What the JSON-lines decoder gives for `line`: the trimmed line, unless it
/// is blank, `[DONE]` or `done` in any case.
pub open spec fn json_lines_step(line: Seq<char>) -> Option<Seq<char>> {
    let t = trim(line);
    if t.len() == 0 || t == "[DONE]"@ || eq_ignore_ascii_case(t, "done"@) {
        None
    } else {
        Some(t)
    }
}

/// The decoder of OpenAI server-sent events.
#[derive(Debug, Clone)]
pub struct OpenAiSseDecoder {
    done: bool,
}

impl OpenAiSseDecoder {
    /// Whether the end marker has been seen.
    pub closed spec fn is_done(&self) -> bool {
        self.done
    }

    /// A decoder that has not seen the end marker.
    pub fn new() -> (r: OpenAiSseDecoder)
        ensures
            !r.is_done(),
    {
        OpenAiSseDecoder { done: false }
    }

    /// The payload of a `data:` line, until `data: [DONE]`.
    fn next_payload(&mut self, line: &str) -> (r: Option<String>)
        ensures
            (final(self).is_done(), opt_text(r)) == openai_sse_step(old(self).is_done(), line@),
    {
        let chars = chars_of(line);
        let t = trim_chars(chars.as_slice());
        let event_prefix = chars_of("event:");
        let data_prefix = chars_of("data:");
        if self.done || t.len() == 0 || has_prefix(t.as_slice(), event_prefix.as_slice())
            || !has_prefix(t.as_slice(), data_prefix.as_slice()) {
            return None;
        }
        let rest = slice_chars(t.as_slice(), data_prefix.len(), t.len());
        assert(rest@ == t@.skip("data:"@.len() as int));
        let data = trim_chars(rest.as_slice());
        let marker = chars_of("[DONE]");
        if chars_eq(data.as_slice(), marker.as_slice()) {
            self.done = true;
            return None;
        }
        Some(string_of(data.as_slice()))
    }
}

impl Default for OpenAiSseDecoder {
    /// A decoder that has not seen the end marker.
    fn default() -> (r: OpenAiSseDecoder)
        ensures
            !r.is_done(),
    {
        OpenAiSseDecoder::new()
    }
}

impl StreamDecoder for OpenAiSseDecoder {
    type Event = serde_json::Value;

    open spec fn follows_line_model() -> bool {
        true
    }

    open spec fn event_of(&self, line: Seq<char>) -> Option<Option<serde_json::Value>> {
        json_event(openai_sse_step(self.is_done(), line).1)
    }

    closed spec fn after_line(&self, line: Seq<char>) -> OpenAiSseDecoder {
        OpenAiSseDecoder { done: openai_sse_step(self.done, line).0 }
    }

    /// The JSON document of a `data:` line, until `data: [DONE]`; an error when
    /// the payload is not JSON.
    fn decode_line(&mut self, line: &str) -> (r: Result<Option<serde_json::Value>>)
        ensures
            final(self).is_done() == openai_sse_step(old(self).is_done(), line@).0,
            r matches Err(e) ==> e is Json,
    {
        let payload = self.next_payload(line);
        parse_payload(payload)
    }
}

/// The text of an optional payload.
pub open spec fn opt_text(r: Option<String>) -> Option<Seq<char>> {
    match r {
        Some(s) => Some(s@),
        None => None,
    }
}

/// A decoder of server-sent events that tolerates providers which do not
/// follow the OpenAI format strictly.
#[derive(Debug, Clone)]
pub struct LenientSseDecoder {
    done: bool,
}

impl LenientSseDecoder {
    /// Whether the end marker has been seen.
    pub closed spec fn is_done(&self) -> bool {
        self.done
    }

    /// A decoder that has not seen the end marker.
    pub fn new() -> (r: LenientSseDecoder)
        ensures
            !r.is_done(),
    {
        LenientSseDecoder { done: false }
    }

    /// The payload of a `data:` line or of a bare line, until an end marker.
    fn next_payload(&mut self, line: &str) -> (r: Option<String>)
        ensures
            (final(self).is_done(), opt_text(r)) == lenient_sse_step(old(self).is_done(), line@),
    {
        let chars = chars_of(line);
        let t = trim_chars(chars.as_slice());
        let event_prefix = chars_of("event:");
        let id_prefix = chars_of("id:");
        if self.done || t.len() == 0 || has_prefix(t.as_slice(), event_prefix.as_slice())
            || has_prefix(t.as_slice(), id_prefix.as_slice()) {
            return None;
        }
        let data_prefix = chars_of("data:");
        let rest = if has_prefix(t.as_slice(), data_prefix.as_slice()) {
            let rest = slice_chars(t.as_slice(), data_prefix.len(), t.len());
            assert(rest@ == t@.skip("data:"@.len() as int));
            rest
        } else {
            slice_chars(t.as_slice(), 0, t.len())
        };
        assert(t@.subrange(0, t@.len() as int) =~= t@);
        let data = trim_chars(rest.as_slice());
        let marker = chars_of("[DONE]");
        let word = chars_of("done");
        if chars_eq(data.as_slice(), marker.as_slice()) || chars_eq_ignore_ascii_case(
            data.as_slice(),
            word.as_slice(),
        ) {
            self.done = true;
            return None;
        }
        Some(string_of(data.as_slice()))
    }
}

impl Default for LenientSseDecoder {
    /// A decoder that has not seen the end marker.
    fn default() -> (r: LenientSseDecoder)
        ensures
            !r.is_done(),
    {
        LenientSseDecoder::new()
    }
}

impl StreamDecoder for LenientSseDecoder {
    type Event = serde_json::Value;

    open spec fn follows_line_model() -> bool {
        true
    }

    open spec fn event_of(&self, line: Seq<char>) -> Option<Option<serde_json::Value>> {
        json_event(lenient_sse_step(self.is_done(), line).1)
    }

    closed spec fn after_line(&self, line: Seq<char>) -> LenientSseDecoder {
        LenientSseDecoder { done: lenient_sse_step(self.done, line).0 }
    }

    /// The JSON document of a `data:` line or of a bare line, until an end
    /// marker; an error when the payload is not JSON.
    fn decode_line(&mut self, line: &str) -> (r: Result<Option<serde_json::Value>>)
        ensures
            final(self).is_done() == lenient_sse_step(old(self).is_done(), line@).0,
            r matches Err(e) ==> e is Json,
    {
        let payload = self.next_payload(line);
        parse_payload(payload)
    }
}

/// A decoder of JSON lines: one event per line.
#[derive(Debug, Clone)]
pub struct JsonLinesDecoder;

impl JsonLinesDecoder {
    /// A decoder.
    pub fn new() -> (r: JsonLinesDecoder) {
        JsonLinesDecoder
    }

    /// The trimmed line, unless it is blank or an end marker.
    fn next_payload(&mut self, line: &str) -> (r: Option<String>)
        ensures
            opt_text(r) == json_lines_step(line@),
    {
        let chars = chars_of(line);
        let t = trim_chars(chars.as_slice());
        let marker = chars_of("[DONE]");
        let word = chars_of("done");
        if t.len() == 0 || chars_eq(t.as_slice(), marker.as_slice()) || chars_eq_ignore_ascii_case(
            t.as_slice(),
            word.as_slice(),
        ) {
            return None;
        }
        Some(string_of(t.as_slice()))
    }
}

impl Default for JsonLinesDecoder {
    /// A decoder.
    fn default() -> (r: JsonLinesDecoder) {
        JsonLinesDecoder
    }
}

impl StreamDecoder for JsonLinesDecoder {
    type Event = serde_json::Value;

    open spec fn follows_line_model() -> bool {
        true
    }

    open spec fn event_of(&self, line: Seq<char>) -> Option<Option<serde_json::Value>> {
        json_event(json_lines_step(line))
    }

    open spec fn after_line(&self, line: Seq<char>) -> JsonLinesDecoder {
        *self
    }

    /// The JSON document of the line, unless it is blank or an end marker; an
    /// error when it is not JSON.
    fn decode_line(&mut self, line: &str) -> (r: Result<Option<serde_json::Value>>)
        ensures
            r matches Err(e) ==> e is Json,
    {
        let payload = self.next_payload(line);
        parse_payload(payload)
    }
}

/// The texts of `lines`, one after the other.
pub open spec fn joined(lines: Seq<Seq<char>>) -> Seq<char>
    decreases lines.len(),
{
    if lines.len() == 0 {
        seq![]
    } else {
        joined(lines.drop_last()) + lines.last()
    }
}

/// Whether `s` holds no line break.
pub open spec fn has_no_newline(s: Seq<char>) -> bool {
    forall|i: int| 0 <= i < s.len() ==> #[trigger] s[i] != '\n'
}

/// Whether `line` is one complete line: it ends with its only line break.
pub open spec fn is_complete_line(line: Seq<char>) -> bool {
    line.len() > 0 && line.last() == '\n' && has_no_newline(line.drop_last())
}

/// Reading one more character: a line break completes the pending line,
/// any other character is added to it.
pub open spec fn split_step(state: (Seq<Seq<char>>, Seq<char>), c: char) -> (Seq<Seq<char>>, Seq<char>) {
    if c == '\n' {
        (state.0.push(state.1.push(c)), seq![])
    } else {
        (state.0, state.1.push(c))
    }
}

/// The complete lines of `s`, each with its line break, and the text after
/// the last line break.
pub open spec fn split_lines(s: Seq<char>) -> (Seq<Seq<char>>, Seq<char>)
    decreases s.len(),
{
    if s.len() == 0 {
        (seq![], seq![])
    } else {
        split_step(split_lines(s.drop_last()), s.last())
    }
}

/// Text without a line break is all pending.
pub proof fn lemma_split_without_newline(s: Seq<char>)
    requires
        has_no_newline(s),
    ensures
        split_lines(s) == (Seq::<Seq<char>>::empty(), s),
    decreases s.len(),
{
    if s.len() > 0 {
        assert(has_no_newline(s.drop_last()));
        lemma_split_without_newline(s.drop_last());
        assert(s.drop_last().push(s.last()) =~= s);
    }
}

/// The text after the last line break holds no line break, and the lines
/// are complete.
pub proof fn lemma_split_shape(s: Seq<char>)
    ensures
        has_no_newline(split_lines(s).1),
        forall|i: int|
            0 <= i < split_lines(s).0.len() ==> is_complete_line(#[trigger] split_lines(s).0[i]),
    decreases s.len(),
{
    if s.len() > 0 {
        lemma_split_shape(s.drop_last());
        let prev = split_lines(s.drop_last());
        if s.last() == '\n' {
            assert(prev.1.push('\n').drop_last() =~= prev.1);
        }
    }
}

/// Splitting `x + b` is splitting `x`, then splitting what was pending
/// followed by `b`: lines do not depend on where text is cut.
pub proof fn lemma_split_append(x: Seq<char>, b: Seq<char>)
    ensures
        split_lines(x + b) == (
            split_lines(x).0 + split_lines(split_lines(x).1 + b).0,
            split_lines(split_lines(x).1 + b).1,
        ),
    decreases b.len(),
{
    let rx = split_lines(x).1;
    if b.len() == 0 {
        assert(x + b =~= x);
        assert(rx + b =~= rx);
        lemma_split_shape(x);
        lemma_split_without_newline(rx);
        assert(split_lines(x).0 + Seq::<Seq<char>>::empty() =~= split_lines(x).0);
    } else {
        let b0 = b.drop_last();
        let c = b.last();
        lemma_split_append(x, b0);
        assert((x + b).drop_last() =~= x + b0);
        assert((x + b).last() == c);
        assert((rx + b).drop_last() =~= rx + b0);
        assert((rx + b).last() == c);
        let inner = split_lines(rx + b0);
        if c == '\n' {
            assert(split_lines(x).0 + inner.0.push(inner.1.push(c)) =~= (split_lines(x).0
                + inner.0).push(inner.1.push(c)));
        }
    }
}

/// The view of a list of strings.
pub open spec fn lines_view(v: Seq<String>) -> Seq<Seq<char>> {
    v.map_values(|s: String| s@)
}

/// Cuts streamed text into lines: text is pushed as it arrives, and each
/// complete line comes out; what follows the last line break waits for more.
#[derive(Debug)]
pub struct LineBuffer {
    pending: Vec<char>,
}

impl View for LineBuffer {
    type V = Seq<char>;

    closed spec fn view(&self) -> Seq<char> {
        self.pending@
    }
}

impl LineBuffer {
    #[verifier::type_invariant]
    spec fn inv(self) -> bool {
        has_no_newline(self.pending@)
    }

    /// An empty buffer.
    pub fn new() -> (r: LineBuffer)
        ensures
            r@ == Seq::<char>::empty(),
    {
        let r = LineBuffer { pending: Vec::new() };
        assert(r@ =~= seq![]);
        r
    }

    /// Adds `chunk` and takes out every line that is now complete: the lines
    /// and what is left are the split of what was pending followed by
    /// `chunk`. Each line is complete, and what is left holds no line break.
    pub fn push_text(&mut self, chunk: &str) -> (lines: Vec<String>)
        ensures
            (lines_view(lines@), final(self)@) == split_lines(old(self)@ + chunk@),
            joined(lines_view(lines@)) + final(self)@ == old(self)@ + chunk@,
            forall|i: int| 0 <= i < lines@.len() ==> is_complete_line(#[trigger] lines@[i]@),
            has_no_newline(final(self)@),
    {
        proof {
            use_type_invariant(&*self);
        }
        let incoming = chars_of(chunk);
        let data = concat_chars(self.pending.as_slice(), incoming.as_slice());
        let mut lines: Vec<String> = Vec::new();
        let mut start: usize = 0;
        let mut i: usize = 0;
        assert(data@.take(0) =~= joined(lines_view(lines@)));
        assert(data@.take(0) =~= Seq::<char>::empty());
        assert(lines_view(lines@) =~= Seq::<Seq<char>>::empty());
        assert(data@.subrange(0, 0) =~= Seq::<char>::empty());
        while i < data.len()
            invariant
                data@ == old(self)@ + chunk@,
                start <= i <= data@.len(),
                joined(lines_view(lines@)) == data@.take(start as int),
                forall|k: int| 0 <= k < lines@.len() ==> is_complete_line(#[trigger] lines@[k]@),
                forall|k: int| start <= k < i ==> data@[k] != '\n',
                split_lines(data@.take(i as int)) == (
                    lines_view(lines@),
                    data@.subrange(start as int, i as int),
                ),
            decreases data@.len() - i,
        {
            assert(data@.take(i + 1).drop_last() =~= data@.take(i as int));
            assert(data@.take(i + 1).last() == data@[i as int]);
            if data[i] == '\n' {
                let piece = slice_chars(data.as_slice(), start, i + 1);
                let line = string_of(piece.as_slice());
                let ghost before = lines_view(lines@);
                lines.push(line);
                proof {
                    assert(lines_view(lines@) =~= before.push(piece@));
                    assert(lines_view(lines@).drop_last() =~= before);
                    assert(data@.take(i + 1) =~= data@.take(start as int) + piece@);
                    assert(piece@.drop_last() =~= data@.subrange(start as int, i as int));
                    assert(piece@ =~= data@.subrange(start as int, i as int).push('\n'));
                    assert(is_complete_line(lines@[lines@.len() - 1]@));
                    assert(data@.subrange(i + 1, i + 1) =~= Seq::<char>::empty());
                }
                start = i + 1;
            } else {
                assert(data@.subrange(start as int, i + 1) =~= data@.subrange(start as int, i as int).push(
                    data@[i as int],
                ));
            }
            i = i + 1;
        }
        let rest = slice_chars(data.as_slice(), start, data.len());
        assert(data@ =~= data@.take(start as int) + rest@);
        assert(data@.take(data@.len() as int) =~= data@);
        self.pending = rest;
        lines
    }

    /// What is left when the stream ends: the pending text, unless it is
    /// blank.
    pub fn finish(self) -> (r: Option<String>)
        ensures
            is_blank(self@) ==> r is None,
            !is_blank(self@) ==> (r matches Some(s) && s@ == self@),
    {
        if is_blank_chars(self.pending.as_slice()) {
            None
        } else {
            Some(string_of(self.pending.as_slice()))
        }
    }
}

/// What `d` makes of `lines`, one after the other, until it fails on one:
/// the decoder afterwards, the events in order, and whether it failed. The
/// lines after the one it fails on are not read.
pub open spec fn decode_lines<D: StreamDecoder>(d: D, lines: Seq<Seq<char>>) -> (D, Seq<D::Event>, bool)
    decreases lines.len(),
{
    if lines.len() == 0 {
        (d, seq![], false)
    } else {
        let prev = decode_lines(d, lines.drop_last());
        let line = lines.last();
        if prev.2 {
            prev
        } else {
            match prev.0.event_of(line) {
                Some(Some(e)) => (prev.0.after_line(line), prev.1.push(e), false),
                Some(None) => (prev.0.after_line(line), prev.1, false),
                None => (prev.0.after_line(line), prev.1, true),
            }
        }
    }
}

/// Decoding two runs of lines is decoding the first, then, unless it failed,
/// the second from where the first left the decoder.
pub proof fn lemma_decode_append<D: StreamDecoder>(d: D, first: Seq<Seq<char>>, second: Seq<Seq<char>>)
    ensures
        ({
            let a = decode_lines(d, first);
            let b = decode_lines(a.0, second);
            decode_lines(d, first + second) == if a.2 {
                a
            } else {
                (b.0, a.1 + b.1, b.2)
            }
        }),
    decreases second.len(),
{
    let mid = decode_lines(d, first);
    if second.len() == 0 {
        assert(first + second =~= first);
        assert(mid.1 + Seq::<D::Event>::empty() =~= mid.1);
    } else {
        lemma_decode_append(d, first, second.drop_last());
        assert((first + second).drop_last() =~= first + second.drop_last());
        assert((first + second).last() == second.last());
        let inner = decode_lines(mid.0, second.drop_last());
        match inner.0.event_of(second.last()) {
            Some(Some(e)) => {
                assert(mid.1 + inner.1.push(e) =~= (mid.1 + inner.1).push(e));
            },
            _ => {},
        }
    }
}

/// Reading `chunk` when `pending` waits in the buffer, the decoder is `d`
/// and `failed` tells whether the stream has failed: what then waits, the
/// decoder afterwards, whether the stream has failed, and the events of the
/// lines that the chunk completes. A failed stream reads nothing more, and a
/// failure drops the text that waits.
pub open spec fn read_chunk<D: StreamDecoder>(pending: Seq<char>, d: D, failed: bool, chunk: Seq<char>) -> (
    Seq<char>,
    D,
    bool,
    Seq<D::Event>,
) {
    if failed {
        (pending, d, true, seq![])
    } else {
        let split = split_lines(pending + chunk);
        let decoded = decode_lines(d, split.0);
        (
            if decoded.2 {
                seq![]
            } else {
                split.1
            },
            decoded.0,
            decoded.2,
            decoded.1,
        )
    }
}

/// Where a stream is cut into chunks changes nothing: reading `a` and then
/// `b` leaves the same text waiting, the same decoder and the same failure,
/// and gives the same events in the same order, as reading `a + b` at once.
pub proof fn lemma_chunking_is_invisible<D: StreamDecoder>(
    pending: Seq<char>,
    d: D,
    failed: bool,
    a: Seq<char>,
    b: Seq<char>,
)
    ensures
        ({
            let first = read_chunk(pending, d, failed, a);
            let second = read_chunk(first.0, first.1, first.2, b);
            let whole = read_chunk(pending, d, failed, a + b);
            second.0 == whole.0 && second.1 == whole.1 && second.2 == whole.2 && first.3 + second.3
                == whole.3
        }),
{
    if failed {
        assert(Seq::<D::Event>::empty() + Seq::<D::Event>::empty() =~= Seq::<D::Event>::empty());
    } else {
        let x = pending + a;
        assert(pending + (a + b) =~= x + b);
        lemma_split_append(x, b);
        let sx = split_lines(x);
        let sb = split_lines(sx.1 + b);
        lemma_decode_append(d, sx.0, sb.0);
        let da = decode_lines(d, sx.0);
        if da.2 {
            assert(da.1 + Seq::<D::Event>::empty() =~= da.1);
        }
    }
}

/// Reading `chunks` one after the other, from `pending`, the decoder `d` and
/// the failure flag `failed`: what then waits, the decoder afterwards,
/// whether the stream has failed, and all the events in order.
pub open spec fn read_chunks<D: StreamDecoder>(
    pending: Seq<char>,
    d: D,
    failed: bool,
    chunks: Seq<Seq<char>>,
) -> (Seq<char>, D, bool, Seq<D::Event>)
    decreases chunks.len(),
{
    if chunks.len() == 0 {
        (pending, d, failed, seq![])
    } else {
        let prev = read_chunks(pending, d, failed, chunks.drop_last());
        let step = read_chunk(prev.0, prev.1, prev.2, chunks.last());
        (step.0, step.1, step.2, prev.3 + step.3)
    }
}

/// What ending the stream gives: nothing for a failed stream or blank
/// pending text; otherwise what the decoder makes of the pending text, the
/// event, if any, and whether it failed on it.
pub open spec fn finish_events<D: StreamDecoder>(pending: Seq<char>, d: D, failed: bool) -> (
    Seq<D::Event>,
    bool,
) {
    if failed || is_blank(pending) {
        (seq![], failed)
    } else {
        match d.event_of(pending) {
            Some(Some(e)) => (seq![e], false),
            Some(None) => (seq![], false),
            None => (seq![], true),
        }
    }
}

/// The events of a whole stream that arrives as `chunks`, and whether it
/// fails: every chunk is read, then the stream ends.
pub open spec fn stream_events<D: StreamDecoder>(d: D, chunks: Seq<Seq<char>>) -> (Seq<D::Event>, bool) {
    let read = read_chunks(seq![], d, false, chunks);
    let end = finish_events(read.0, read.1, read.2);
    (read.3 + end.0, end.1)
}

/// Reading chunks one by one is reading their concatenation at once.
pub proof fn lemma_read_chunks_is_read_whole<D: StreamDecoder>(d: D, chunks: Seq<Seq<char>>)
    ensures
        read_chunks(seq![], d, false, chunks) == read_chunk(seq![], d, false, joined(chunks)),
    decreases chunks.len(),
{
    if chunks.len() == 0 {
        assert(Seq::<char>::empty() + Seq::<char>::empty() =~= Seq::<char>::empty());
        assert(split_lines(Seq::<char>::empty()) == (Seq::<Seq<char>>::empty(), Seq::<char>::empty()));
    } else {
        let rest = chunks.drop_last();
        lemma_read_chunks_is_read_whole(d, rest);
        lemma_chunking_is_invisible(seq![], d, false, joined(rest), chunks.last());
    }
}

/// A whole stream: the decoder sees each complete line of the text that the
/// chunks make, in order, each with its line break, and then the text after
/// the last line break unless it is blank; the events are what it finds, in
/// that order. The first line it fails on ends the stream with a failure, and
/// no later line is read. How the text was cut into chunks plays no part.
pub proof fn lemma_stream_events<D: StreamDecoder>(d: D, chunks: Seq<Seq<char>>)
    ensures
        ({
            let split = split_lines(joined(chunks));
            let decoded = decode_lines(d, split.0);
            stream_events(d, chunks) == if decoded.2 {
                (decoded.1, true)
            } else {
                let end = finish_events(split.1, decoded.0, false);
                (decoded.1 + end.0, end.1)
            }
        }),
{
    lemma_read_chunks_is_read_whole(d, chunks);
    assert(Seq::<char>::empty() + joined(chunks) =~= joined(chunks));
    let decoded = decode_lines(d, split_lines(joined(chunks)).0);
    if decoded.2 {
        assert(decoded.1 + Seq::<D::Event>::empty() =~= decoded.1);
    }
}

/// A stream cut short after `chunks`, when the transport fails: the events
/// are those of the complete lines that the chunks make, up to the first line
/// the decoder fails on; the text after the last line break is not decoded.
pub proof fn lemma_interrupted_stream_events<D: StreamDecoder>(d: D, chunks: Seq<Seq<char>>)
    ensures
        ({
            let read = read_chunks(seq![], d, false, chunks);
            let decoded = decode_lines(d, split_lines(joined(chunks)).0);
            read.3 == decoded.1 && read.2 == decoded.2
        }),
{
    lemma_read_chunks_is_read_whole(d, chunks);
    assert(Seq::<char>::empty() + joined(chunks) =~= joined(chunks));
}

/// Whether `items` are what a reader hands out for `events`: each event as
/// a success, in order, then one error when the stream fails.
pub open spec fn items_of<E>(items: Seq<Result<E>>, events: Seq<E>, fails: bool) -> bool {
    &&& items.len() == events.len() + (if fails {
        1int
    } else {
        0int
    })
    &&& forall|i: int| 0 <= i < events.len() ==> #[trigger] items[i] == Ok::<E, ClientError>(events[i])
    &&& fails ==> items.last() is Err
}

/// The reader of a streamed response: it cuts the text into lines and hands
/// each complete line to its decoder, until the decoder fails on one.
#[derive(Debug)]
pub struct StreamReader<D> {
    buffer: LineBuffer,
    decoder: D,
    failed: bool,
}

impl<D: StreamDecoder> StreamReader<D> {
    /// The text that waits for the end of its line.
    pub closed spec fn pending(&self) -> Seq<char> {
        self.buffer@
    }

    /// The decoder, as it is now.
    pub closed spec fn decoder(&self) -> D {
        self.decoder
    }

    /// Whether the decoder has failed on a line.
    pub closed spec fn has_failed(&self) -> bool {
        self.failed
    }

    /// A reader with nothing pending.
    pub fn new(decoder: D) -> (r: StreamReader<D>)
        ensures
            r.pending() == Seq::<char>::empty(),
            r.decoder() == decoder,
            !r.has_failed(),
    {
        StreamReader { buffer: LineBuffer::new(), decoder, failed: false }
    }

    /// Reads `chunk`: the events of the lines that it completes, in order,
    /// then the error of the first line the decoder fails on, if it fails.
    /// Once the decoder has failed, nothing more is read. For a decoder that
    /// follows its line model, the outcome is `read_chunk`.
    pub fn push(&mut self, chunk: &str) -> (items: Vec<Result<D::Event>>)
        ensures
            old(self).has_failed() ==> items@.len() == 0 && *final(self) == *old(self),
            !old(self).has_failed() ==> (final(self).has_failed() <==> (items@.len() > 0
                && items@.last() is Err)),
            forall|i: int| 0 <= i < items@.len() - 1 ==> #[trigger] items@[i] is Ok,
            D::follows_line_model() ==> ({
                let r = read_chunk(
                    old(self).pending(),
                    old(self).decoder(),
                    old(self).has_failed(),
                    chunk@,
                );
                &&& final(self).pending() == r.0
                &&& final(self).decoder() == r.1
                &&& final(self).has_failed() == r.2
                &&& items_of(items@, r.3, r.2 && !old(self).has_failed())
            }),
    {
        let mut items: Vec<Result<D::Event>> = Vec::new();
        if self.failed {
            assert(items_of(items@, Seq::<D::Event>::empty(), false));
            return items;
        }
        let ghost d0 = self.decoder;
        let ghost text = old(self).pending() + chunk@;
        let lines = self.buffer.push_text(chunk);
        let ghost all = lines_view(lines@);
        let ghost mut events: Seq<D::Event> = seq![];
        let mut i: usize = 0;
        assert(all.take(0) =~= Seq::<Seq<char>>::empty());
        while i < lines.len()
            invariant
                i <= lines@.len(),
                !self.failed,
                !old(self).has_failed(),
                d0 == old(self).decoder(),
                all == lines_view(lines@),
                text == old(self).pending() + chunk@,
                (split_lines(text).0, self.buffer@) == split_lines(text),
                all == split_lines(text).0,
                D::follows_line_model() ==> (self.decoder, events, false) == decode_lines(
                    d0,
                    all.take(i as int),
                ),
                items_of(items@, events, false),
            decreases lines@.len() - i,
        {
            let ghost dec = self.decoder;
            assert(all.take(i + 1).drop_last() =~= all.take(i as int));
            assert(all.take(i + 1).last() == lines@[i as int]@);
            match self.decoder.decode_line(lines[i].as_str()) {
                Ok(Some(e)) => {
                    proof {
                        events = events.push(e);
                    }
                    items.push(Ok(e));
                    assert(items_of(items@, events, false));
                },
                Ok(None) => {},
                Err(err) => {
                    items.push(Err(err));
                    self.failed = true;
                    self.buffer = LineBuffer::new();
                    proof {
                        if D::follows_line_model() {
                            let done = all.take(i + 1);
                            assert(decode_lines(d0, done) == (self.decoder, events, true));
                            lemma_decode_append(d0, done, all.skip(i + 1));
                            assert(done + all.skip(i + 1) =~= all);
                        }
                    }
                    assert(items_of(items@, events, true));
                    return items;
                },
            }
            i = i + 1;
        }
        assert(all.take(lines@.len() as int) =~= all);
        items
    }

    /// Ends the stream: the event of the text still pending, unless that
    /// text is blank or the stream has failed; an error when the decoder
    /// fails on it. For a decoder that follows its line model, the outcome
    /// is `finish_events`.
    pub fn finish(self) -> (r: Result<Option<D::Event>>)
        ensures
            self.has_failed() || is_blank(self.pending()) ==> r matches Ok(None),
            D::follows_line_model() ==> ({
                let end = finish_events(self.pending(), self.decoder(), self.has_failed());
                &&& r is Err <==> end.1 && !self.has_failed()
                &&& r matches Ok(e) ==> end.0 == match e {
                    Some(ev) => seq![ev],
                    None => Seq::<D::Event>::empty(),
                }
            }),
    {
        let StreamReader { buffer, mut decoder, failed } = self;
        if failed {
            return Ok(None);
        }
        match buffer.finish() {
            Some(rest) => decoder.decode_line(rest.as_str()),
            None => Ok(None),
        }
    }
}

/// An `event:` line names the type of the next event and carries no data:
/// both server-sent-event decoders skip it, whatever their state, and keep
/// their end flag; the lenient decoder skips `id:` lines the same way.
pub proof fn lemma_event_lines_carry_nothing(done: bool, line: Seq<char>)
    ensures
        "event:"@.is_prefix_of(trim(line)) ==> openai_sse_step(done, line) == (
            done,
            Option::<Seq<char>>::None,
        ),
        "event:"@.is_prefix_of(trim(line)) ==> lenient_sse_step(done, line) == (
            done,
            Option::<Seq<char>>::None,
        ),
        "id:"@.is_prefix_of(trim(line)) ==> lenient_sse_step(done, line) == (
            done,
            Option::<Seq<char>>::None,
        ),
{
}

/// The decoders read an `event:` line as a line without an event, and stay
/// as they were.
pub proof fn lemma_decoders_skip_event_lines(
    strict: OpenAiSseDecoder,
    lenient: LenientSseDecoder,
    line: Seq<char>,
)
    requires
        "event:"@.is_prefix_of(trim(line)),
    ensures
        strict.event_of(line) == Some(Option::<serde_json::Value>::None),
        strict.after_line(line) == strict,
        lenient.event_of(line) == Some(Option::<serde_json::Value>::None),
        lenient.after_line(line) == lenient,
{
    lemma_event_lines_carry_nothing(strict.is_done(), line);
    lemma_event_lines_carry_nothing(lenient.is_done(), line);
}

/// A `data:` line carries what follows the prefix, trimmed: both
/// server-sent-event decoders give it as the payload while they have not
/// ended, and `[DONE]` there ends them with no payload.
pub proof fn lemma_data_lines(done: bool, line: Seq<char>, data: Seq<char>)
    requires
        trim(line) == "data:"@ + data,
    ensures
        !done && trim(data) != "[DONE]"@ ==> openai_sse_step(done, line) == (false, Some(trim(data))),
        trim(data) == "[DONE]"@ ==> openai_sse_step(done, line) == (true, Option::<Seq<char>>::None),
        !done && trim(data) != "[DONE]"@ && !eq_ignore_ascii_case(trim(data), "done"@)
            ==> lenient_sse_step(done, line) == (false, Some(trim(data))),
        trim(data) == "[DONE]"@ ==> lenient_sse_step(done, line) == (true, Option::<Seq<char>>::None),
{
    reveal_strlit("data:");
    reveal_strlit("event:");
    reveal_strlit("id:");
    let t = trim(line);
    assert(t.skip(5) =~= data);
    assert(t[0] == 'd');
    assert(!"event:"@.is_prefix_of(t)) by {
        if "event:"@.is_prefix_of(t) {
            assert(t.subrange(0, 6)[0] == t[0]);
        }
    }
    assert(!"id:"@.is_prefix_of(t)) by {
        if "id:"@.is_prefix_of(t) {
            assert(t.subrange(0, 3)[0] == t[0]);
        }
    }
    assert("data:"@.is_prefix_of(t)) by {
        assert(t.subrange(0, 5) =~= "data:"@);
    }
}

/// A line that the lenient decoder does not know as a field is a payload
/// itself: it gives the trimmed line while it has not ended, unless the line
/// is an end marker.
pub proof fn lemma_lenient_bare_lines(line: Seq<char>)
    requires
        trim(line).len() > 0,
        !"event:"@.is_prefix_of(trim(line)),
        !"id:"@.is_prefix_of(trim(line)),
        !"data:"@.is_prefix_of(trim(line)),
        trim(trim(line)) == trim(line),
        trim(line) != "[DONE]"@,
        !eq_ignore_ascii_case(trim(line), "done"@),
    ensures
        lenient_sse_step(false, line) == (false, Some(trim(line))),
        json_lines_step(line) == Some(trim(line)),
{
}

/// Blank lines carry nothing for any decoder, and change none of them.
pub proof fn lemma_blank_lines_carry_nothing(done: bool, line: Seq<char>)
    requires
        trim(line).len() == 0,
    ensures
        openai_sse_step(done, line) == (done, Option::<Seq<char>>::None),
        lenient_sse_step(done, line) == (done, Option::<Seq<char>>::None),
        json_lines_step(line) is None,
{
}

/// After the end marker, the strict decoder gives nothing more, whatever the
/// line.
pub proof fn lemma_openai_sse_done_is_final(line: Seq<char>)
    ensures
        openai_sse_step(true, line) == (true, Option::<Seq<char>>::None),
{
}

/// After the end marker, the lenient decoder gives nothing more, whatever
/// the line.
pub proof fn lemma_lenient_sse_done_is_final(line: Seq<char>)
    ensures
        lenient_sse_step(true, line) == (true, Option::<Seq<char>>::None),
{
}

/// A decoder reaches its end state only through the end marker: a line that
/// yields a payload leaves the end flag as it was.
pub proof fn lemma_payload_keeps_state(done: bool, line: Seq<char>)
    ensures
        openai_sse_step(done, line).1 is Some ==> openai_sse_step(done, line).0 == done && !done,
        lenient_sse_step(done, line).1 is Some ==> lenient_sse_step(done, line).0 == done && !done,
{
}

} // verus!
