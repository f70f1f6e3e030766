//! Cutting a stream of bytes into lines of bounded length.

use crate::outside::{text_from_utf8, utf8_lossy};
use vstd::prelude::*;
use vstd::utf8::{decode_utf8, encode_scalar, encode_utf8, valid_utf8};

verus! {

/// The byte that ends a line.
pub const NEWLINE: u8 = 10;

/// How many bytes stand before the first newline; all where there is none.
pub open spec fn line_len(bytes: Seq<u8>) -> int
    decreases bytes.len(),
{
    if bytes.len() == 0 || bytes[0] == NEWLINE {
        0
    } else {
        1 + line_len(bytes.drop_first())
    }
}

/// Whether there is a newline.
pub open spec fn has_newline(bytes: Seq<u8>) -> bool {
    line_len(bytes) < bytes.len()
}

/// How many of the bytes at hand belong to the line that is being read: those
/// up to its newline, or all of them.
pub open spec fn line_part(available: Seq<u8>) -> int {
    if has_newline(available) {
        line_len(available) + 1
    } else {
        available.len() as int
    }
}

/// How far the reading of a line has come.
#[verifier::ext_equal]
pub enum LineView {
    /// Its end has not been seen.
    More,
    /// These bytes are the line, with its newline, or without one where the
    /// stream ended before it.
    Line(Seq<u8>),
    /// It has more bytes than a line may have.
    TooLong,
}

/// How far the reading has come when `available` follows the bytes `held`; no
/// byte available is the end of the stream.
pub open spec fn line_step(max: usize, held: Seq<u8>, available: Seq<u8>) -> LineView {
    let all = held + available.take(line_part(available));
    if available.len() == 0 {
        LineView::Line(held)
    } else if all.len() > max {
        LineView::TooLong
    } else if has_newline(available) {
        LineView::Line(all)
    } else {
        LineView::More
    }
}

/// How far the reading of a line has come.
#[derive(Debug, Clone)]
pub enum LineStep {
    /// More bytes are needed.
    More,
    /// The line, with its newline, or without one where the stream ended
    /// before it.
    Line(String),
    /// The line has more bytes than it may have.
    TooLong,
}

impl LineStep {
    /// Whether this is the outcome `v`, its bytes read as text.
    pub open spec fn shows(&self, v: LineView) -> bool {
        match v {
            LineView::More => *self is More,
            LineView::Line(bytes) => {
                &&& *self matches LineStep::Line(text)
                &&& text@ == utf8_lossy(bytes)
                &&& valid_utf8(bytes) ==> text@ == decode_utf8(bytes)
                &&& bytes.len() > 0 && bytes.last() == NEWLINE ==> ends_line(text@)
                &&& !bytes.contains(NEWLINE) ==> !text@.contains('\n')
                &&& bytes.len() > 0 && !bytes.drop_last().contains(NEWLINE)
                    ==> !text@.drop_last().contains('\n')
            },
            LineView::TooLong => *self is TooLong,
        }
    }
}

/// Whether a text ends with a newline.
pub open spec fn ends_line(text: Seq<char>) -> bool {
    text.len() > 0 && text.last() == '\n'
}

/// A line in the course of being read.
pub struct LineReader {
    pub held: Vec<u8>,
}

impl View for LineReader {
    type V = Seq<u8>;

    open spec fn view(&self) -> Seq<u8> {
        self.held@
    }
}

/// The wording of the error for a line that is too long.
pub fn too_long_text() -> (r: String)
    ensures
        r@ == "frame exceeds MAX_LINE_BYTES"@,
{
    "frame exceeds MAX_LINE_BYTES".to_owned()
}

fn find_newline(bytes: &[u8]) -> (r: usize)
    ensures
        r == line_len(bytes@),
        r <= bytes@.len(),
{
    let mut i: usize = 0;
    assert(bytes@.skip(0) =~= bytes@);
    while i < bytes.len() && bytes[i] != NEWLINE
        invariant
            i <= bytes@.len(),
            line_len(bytes@) == i + line_len(bytes@.skip(i as int)),
        decreases bytes@.len() - i,
    {
        assert(bytes@.skip(i as int).drop_first() =~= bytes@.skip(i + 1));
        i += 1;
    }
    i
}

impl LineReader {
    /// A line of which nothing has been read.
    pub fn new() -> (r: LineReader)
        ensures
            r@ == Seq::<u8>::empty(),
    {
        LineReader { held: Vec::new() }
    }

    /// Goes on reading with the bytes at hand; no bytes are the end of the
    /// stream. Says how many of them it took and how far it has come. A line
    /// may have `max` bytes, its newline among them.
    pub fn read_frame(&mut self, max: usize, available: &[u8]) -> (r: (usize, LineStep))
        ensures
            r.0 == line_part(available@),
            final(self)@ == old(self)@ + available@.take(line_part(available@)),
            r.1.shows(line_step(max, old(self)@, available@)),
    {
        let ghost before = self@;
        if available.len() == 0 {
            assert(before + available@.take(0) =~= before);
            return (0, LineStep::Line(text_from_utf8(self.held.as_slice())));
        }
        let pos = find_newline(available);
        let found: bool = pos < available.len();
        let used: usize = if found {
            pos + 1
        } else {
            pos
        };
        proof {
            lemma_line_len(available@);
        }
        let mut i: usize = 0;
        assert(before + available@.take(0) =~= before);
        while i < used
            invariant
                i <= used <= available@.len(),
                self@ == before + available@.take(i as int),
            decreases used - i,
        {
            self.held.push(available[i]);
            assert(self@ =~= before + available@.take(i + 1));
            i += 1;
        }
        if self.held.len() > max {
            (used, LineStep::TooLong)
        } else if found {
            (used, LineStep::Line(text_from_utf8(self.held.as_slice())))
        } else {
            (used, LineStep::More)
        }
    }
}

proof fn lemma_line_len(bytes: Seq<u8>)
    ensures
        0 <= line_len(bytes) <= bytes.len(),
        forall|i: int| 0 <= i < line_len(bytes) ==> bytes[i] != NEWLINE,
        has_newline(bytes) ==> bytes[line_len(bytes)] == NEWLINE,
    decreases bytes.len(),
{
    if bytes.len() > 0 && bytes[0] != NEWLINE {
        let rest = bytes.drop_first();
        lemma_line_len(rest);
        assert forall|i: int| 0 <= i < line_len(bytes) implies bytes[i] != NEWLINE by {
            if i > 0 {
                assert(rest[i - 1] == bytes[i]);
            }
        }
        if has_newline(bytes) {
            assert(rest[line_len(rest)] == bytes[line_len(bytes)]);
        }
    }
}

/// The first newline is the only place that `line_len` can name.
proof fn lemma_line_len_is(bytes: Seq<u8>, n: int)
    requires
        0 <= n <= bytes.len(),
        forall|i: int| 0 <= i < n ==> bytes[i] != NEWLINE,
        n < bytes.len() ==> bytes[n] == NEWLINE,
    ensures
        line_len(bytes) == n,
{
    lemma_line_len(bytes);
    let m = line_len(bytes);
    if m < n {
        assert(bytes[m] != NEWLINE);
    } else if n < m {
        assert(bytes[n] != NEWLINE);
    }
}

/// Where the bytes at hand hold a newline, they are taken up to and with the
/// first, and the line is what was held and those bytes, unless it has more
/// bytes than a line may have.
pub proof fn law_newline_ends_the_line(
    max: usize,
    held: Seq<u8>,
    body: Seq<u8>,
    rest: Seq<u8>,
)
    requires
        forall|i: int| 0 <= i < body.len() ==> #[trigger] body[i] != 10,
    ensures
        ({
            let available = body + seq![10u8] + rest;
            &&& line_part(available) == body.len() + 1
            &&& available.take(line_part(available)) == body.push(10)
            &&& held.len() + body.len() + 1 > max ==> line_step(max, held, available)
                == LineView::TooLong
            &&& held.len() + body.len() + 1 <= max ==> line_step(max, held, available)
                == LineView::Line(held + body.push(10))
        }),
{
    let available = body + seq![10u8] + rest;
    lemma_line_len_is(available, body.len() as int);
    assert(available.take((body.len() + 1) as int) =~= body.push(10));
}

/// Where the bytes at hand hold no newline, all of them are taken, and more are
/// needed unless the line has too many bytes already. Where there are none, the
/// stream has ended and the line is what was held.
pub proof fn law_bytes_without_newline_are_held(max: usize, held: Seq<u8>, available: Seq<u8>)
    requires
        forall|i: int| 0 <= i < available.len() ==> #[trigger] available[i] != 10,
    ensures
        line_part(available) == available.len(),
        available.take(line_part(available)) == available,
        available.len() == 0 ==> line_step(max, held, available) == LineView::Line(held),
        available.len() > 0 && held.len() + available.len() > max ==> line_step(
            max,
            held,
            available,
        ) == LineView::TooLong,
        available.len() > 0 && held.len() + available.len() <= max ==> line_step(
            max,
            held,
            available,
        ) == LineView::More,
{
    lemma_line_len_is(available, available.len() as int);
    assert(available.take(available.len() as int) =~= available);
}

/// A step shows one outcome: more bytes are needed, the line is too long, or
/// the line is there, as the text of its bytes.
pub proof fn law_step_shows_its_outcome(step: LineStep, bytes: Seq<u8>)
    ensures
        step.shows(LineView::More) <==> step is More,
        step.shows(LineView::TooLong) <==> step is TooLong,
        step.shows(LineView::Line(bytes)) ==> {
            &&& step matches LineStep::Line(text)
            &&& text@ == utf8_lossy(bytes)
            &&& valid_utf8(bytes) ==> text@ == decode_utf8(bytes)
        },
{
}

/// The first line of a stream is its bytes up to and with the first newline;
/// where there is none, it is all that the stream holds once it has ended. A
/// line of more than `max` bytes is refused, and before the end of the stream
/// as soon as it has more.
pub proof fn law_first_line_of_a_stream(max: usize, body: Seq<u8>, rest: Seq<u8>, ended: bool)
    requires
        forall|i: int| 0 <= i < body.len() ==> #[trigger] body[i] != 10,
    ensures
        line_of(max, body + seq![10u8] + rest, ended) == (if body.len() + 1 > max {
            LineView::TooLong
        } else {
            LineView::Line(body.push(10))
        }),
        line_of(max, body, ended) == (if body.len() > max {
            LineView::TooLong
        } else if ended {
            LineView::Line(body)
        } else {
            LineView::More
        }),
{
    let stream = body + seq![10u8] + rest;
    lemma_line_len_is(stream, body.len() as int);
    lemma_line_len_is(body, body.len() as int);
    assert(stream.take((body.len() + 1) as int) =~= body.push(10));
}

/// The outcome of reading a line off a stream that has delivered `stream` so
/// far, and after it has ended where `ended`.
pub open spec fn line_of(max: usize, stream: Seq<u8>, ended: bool) -> LineView {
    if has_newline(stream) {
        if line_len(stream) + 1 > max {
            LineView::TooLong
        } else {
            LineView::Line(stream.take(line_len(stream) + 1))
        }
    } else if stream.len() > max {
        LineView::TooLong
    } else if ended {
        LineView::Line(stream)
    } else {
        LineView::More
    }
}

/// The outcome of reading a line off a stream that comes in chunks, when
/// `held` has been read of it; the end of the stream is an empty chunk.
pub open spec fn line_of_chunks(max: usize, held: Seq<u8>, chunks: Seq<Seq<u8>>) -> LineView
    decreases chunks.len(),
{
    if chunks.len() == 0 {
        LineView::More
    } else {
        match line_step(max, held, chunks[0]) {
            LineView::More => line_of_chunks(max, held + chunks[0], chunks.drop_first()),
            outcome => outcome,
        }
    }
}

/// Which line is read does not depend on how the stream was cut into chunks:
/// it is the first line of all that the chunks hold. `ended` says whether the
/// end of the stream follows them.
pub proof fn law_chunking_does_not_matter(max: usize, chunks: Seq<Seq<u8>>, ended: bool)
    requires
        forall|i: int| 0 <= i < chunks.len() ==> (#[trigger] chunks[i]).len() > 0,
    ensures
        line_of_chunks(
            max,
            Seq::empty(),
            if ended {
                chunks.push(Seq::empty())
            } else {
                chunks
            },
        ) == line_of(max, chunks.flatten(), ended),
{
    lemma_chunks(max, Seq::empty(), chunks, ended);
    assert(Seq::<u8>::empty() + chunks.flatten() =~= chunks.flatten());
}

proof fn lemma_chunks(max: usize, held: Seq<u8>, chunks: Seq<Seq<u8>>, ended: bool)
    requires
        forall|i: int| 0 <= i < chunks.len() ==> (#[trigger] chunks[i]).len() > 0,
        !has_newline(held),
        held.len() <= max,
    ensures
        line_of_chunks(
            max,
            held,
            if ended {
                chunks.push(Seq::empty())
            } else {
                chunks
            },
        ) == line_of(max, held + chunks.flatten(), ended),
    decreases chunks.len(),
{
    reveal_with_fuel(line_of_chunks, 2);
    let all_chunks = if ended {
        chunks.push(Seq::empty())
    } else {
        chunks
    };
    lemma_line_len(held);
    if chunks.len() == 0 {
        assert(held + chunks.flatten() =~= held);
    } else {
        let c = chunks[0];
        let rest = chunks.drop_first();
        let stream = held + chunks.flatten();
        let next = held + c;
        assert(chunks.flatten() =~= c + rest.flatten());
        assert(stream =~= next + rest.flatten());
        lemma_line_len(c);
        lemma_line_len(stream);
        assert(all_chunks[0] == c);
        if has_newline(c) {
            let n = held.len() + line_len(c);
            assert forall|i: int| 0 <= i < n implies stream[i] != NEWLINE by {
                if i < held.len() {
                    assert(stream[i] == held[i]);
                } else {
                    assert(stream[i] == c[i - held.len()]);
                }
            }
            assert(stream[n] == c[line_len(c)]);
            lemma_line_len_is(stream, n);
            assert(held + c.take(line_part(c)) =~= stream.take(n + 1));
        } else {
            assert(c.take(line_part(c)) =~= c);
            assert forall|i: int| 0 <= i < next.len() implies next[i] != NEWLINE by {
                if i < held.len() {
                    assert(next[i] == held[i]);
                } else {
                    assert(next[i] == c[i - held.len()]);
                }
            }
            lemma_line_len_is(next, next.len() as int);
            if next.len() > max {
                if line_len(stream) < next.len() {
                    assert(stream[line_len(stream)] == next[line_len(stream)]);
                }
            } else {
                assert forall|i: int| 0 <= i < rest.len() implies (#[trigger] rest[i]).len()
                    > 0 by {
                    assert(rest[i] == chunks[i + 1]);
                }
                lemma_chunks(max, next, rest, ended);
                if ended {
                    assert(all_chunks.drop_first() =~= rest.push(Seq::empty()));
                }
            }
        }
    }
}

/// A line that was read ends with a newline exactly when there is one on the
/// stream, and has none before its end, whether its bytes are valid UTF-8 or
/// not: a whole line is told from what is left when the stream ends, and one
/// line from two.
pub proof fn law_whole_line_ends_with_newline(
    max: usize,
    stream: Seq<u8>,
    ended: bool,
    step: LineStep,
)
    requires
        step.shows(line_of(max, stream, ended)),
    ensures
        step matches LineStep::Line(text) ==> {
            &&& ends_line(text@) <==> has_newline(stream)
            &&& forall|i: int| 0 <= i < text@.len() - 1 ==> #[trigger] text@[i] != '\n'
        },
{
    lemma_line_len(stream);
    if let LineStep::Line(text) = step {
        if has_newline(stream) {
            let bytes = stream.take(line_len(stream) + 1);
            assert(!bytes.drop_last().contains(NEWLINE));
            assert forall|i: int| 0 <= i < text@.len() - 1 implies #[trigger] text@[i]
                != '\n' by {
                assert(text@.drop_last()[i] == text@[i]);
            }
        } else {
            assert(!stream.contains(NEWLINE));
            assert forall|i: int| 0 <= i < text@.len() implies #[trigger] text@[i] != '\n' by {
                assert(text@.contains(text@[i]));
            }
        }
    }
}

/// A line that is written as UTF-8 is read back as it was, whatever follows it
/// on the stream, as long as it has no more bytes than a line may have.
pub proof fn law_written_line_is_read_back(
    max: usize,
    body: Seq<char>,
    after: Seq<u8>,
    ended: bool,
)
    requires
        !body.contains('\n'),
        encode_utf8(body.push('\n')).len() <= max,
    ensures
        line_of(max, encode_utf8(body.push('\n')) + after, ended) == LineView::Line(
            encode_utf8(body.push('\n')),
        ),
        valid_utf8(encode_utf8(body.push('\n'))),
        decode_utf8(encode_utf8(body.push('\n'))) == body.push('\n'),
{
    let line = encode_utf8(body.push('\n'));
    let stream = line + after;
    lemma_encoded_line(body);
    assert forall|i: int| 0 <= i < line.len() - 1 implies stream[i] != NEWLINE by {
        assert(stream[i] == encode_utf8(body)[i]);
    }
    lemma_line_len_is(stream, line.len() - 1);
    assert(stream.take(line.len() as int) =~= line);
    vstd::utf8::encode_utf8_valid_utf8(body.push('\n'));
    vstd::utf8::encode_utf8_decode_utf8(body.push('\n'));
}

proof fn lemma_encoded_line(body: Seq<char>)
    requires
        !body.contains('\n'),
    ensures
        encode_utf8(body.push('\n')) == encode_utf8(body).push(NEWLINE),
        forall|i: int| 0 <= i < encode_utf8(body).len() ==> encode_utf8(body)[i] != NEWLINE,
    decreases body.len(),
{
    let line = body.push('\n');
    if body.len() == 0 {
        lemma_encoded_scalar(10);
        assert(line.drop_first() =~= body);
        assert(encode_utf8(line) =~= encode_utf8(body).push(NEWLINE));
    } else {
        let rest = body.drop_first();
        assert(!rest.contains('\n')) by {
            if rest.contains('\n') {
                let i = choose|i: int| 0 <= i < rest.len() && rest[i] == '\n';
                assert(body[i + 1] == '\n');
            }
        }
        assert(body[0] != '\n') by {
            assert(body.contains(body[0]));
        }
        lemma_encoded_line(rest);
        lemma_encoded_scalar(body[0] as u32);
        if body[0] as u32 == 10 {
            vstd::utf8::char_u32_cast(body[0], 10);
        }
        assert(line.drop_first() =~= rest.push('\n'));
        let first = encode_scalar(body[0] as u32);
        assert(encode_utf8(line) =~= encode_utf8(body).push(NEWLINE));
        assert forall|i: int| 0 <= i < encode_utf8(body).len() implies encode_utf8(body)[i]
            != NEWLINE by {
            if i < first.len() {
                assert(encode_utf8(body)[i] == first[i]);
            } else {
                assert(encode_utf8(body)[i] == encode_utf8(rest)[i - first.len()]);
            }
        }
    }
}

proof fn lemma_encoded_scalar(u: u32)
    ensures
        u == 10 ==> encode_scalar(u) == seq![NEWLINE],
        u != 10 ==> forall|i: int|
            0 <= i < encode_scalar(u).len() ==> encode_scalar(u)[i] != NEWLINE,
{
    assert(u <= 0x7f ==> (u & 0x7f) as u8 == u) by (bit_vector);
    assert(forall|b: u8| #[trigger] (0x80u8 | b) != 10) by (bit_vector);
    assert(forall|b: u8| #[trigger] (0xc0u8 | b) != 10) by (bit_vector);
    assert(forall|b: u8| #[trigger] (0xe0u8 | b) != 10) by (bit_vector);
    assert(forall|b: u8| #[trigger] (0xf0u8 | b) != 10) by (bit_vector);
    if u == 10 {
        assert(encode_scalar(u) =~= seq![NEWLINE]);
    }
}

} // verus!
