//! Splitting the raw byte stream into protocol lines.
//!
//! Bytes arrive from the pipe in chunks cut at arbitrary positions. The
//! framer accumulates the tail that no separator has closed yet and hands
//! out every complete line as soon as its separator arrives. Chunk
//! boundaries carry no meaning: feeding any split of a byte sequence yields
//! the same lines as feeding it whole (`lemma_chunking_is_immaterial`).

use vstd::prelude::*;

use crate::message::{decode_line_model, decode_lines_model, decode_view, decode_views, DecodeError, Message};

verus! {

/// The byte that terminates every protocol line.
pub const LINE_SEPARATOR: u8 = 10;

/// The complete lines that come out when `bytes` arrive while `pending` is
/// the buffered partial line: each run of bytes that a separator closes.
pub open spec fn split_lines(pending: Seq<u8>, bytes: Seq<u8>) -> Seq<Seq<u8>>
    decreases bytes.len(),
{
    if bytes.len() == 0 {
        Seq::empty()
    } else if bytes[0] == LINE_SEPARATOR {
        seq![pending] + split_lines(Seq::empty(), bytes.skip(1))
    } else {
        split_lines(pending.push(bytes[0]), bytes.skip(1))
    }
}

/// The partial line still buffered after `bytes` arrive while `pending` is
/// buffered: everything past the last separator.
pub open spec fn split_rest(pending: Seq<u8>, bytes: Seq<u8>) -> Seq<u8>
    decreases bytes.len(),
{
    if bytes.len() == 0 {
        pending
    } else if bytes[0] == LINE_SEPARATOR {
        split_rest(Seq::empty(), bytes.skip(1))
    } else {
        split_rest(pending.push(bytes[0]), bytes.skip(1))
    }
}

/// Feeding one byte sequence is the same as feeding any two-way split of it:
/// the lines concatenate and the tail threads through. Splitting into more
/// chunks than two is this lemma applied once per boundary.
pub proof fn lemma_chunking_is_immaterial(pending: Seq<u8>, c1: Seq<u8>, c2: Seq<u8>)
    ensures
        split_lines(pending, c1 + c2) == split_lines(pending, c1) + split_lines(
            split_rest(pending, c1),
            c2,
        ),
        split_rest(pending, c1 + c2) == split_rest(split_rest(pending, c1), c2),
    decreases c1.len(),
{
    if c1.len() == 0 {
        assert(c1 + c2 =~= c2);
        assert(split_lines(pending, c1) + split_lines(split_rest(pending, c1), c2) =~= split_lines(
            pending,
            c2,
        ));
    } else {
        assert((c1 + c2).skip(1) =~= c1.skip(1) + c2);
        assert((c1 + c2)[0] == c1[0]);
        if c1[0] == LINE_SEPARATOR {
            lemma_chunking_is_immaterial(Seq::empty(), c1.skip(1), c2);
            assert(seq![pending] + (split_lines(Seq::<u8>::empty(), c1.skip(1)) + split_lines(
                split_rest(Seq::<u8>::empty(), c1.skip(1)),
                c2,
            )) =~= (seq![pending] + split_lines(Seq::<u8>::empty(), c1.skip(1))) + split_lines(
                split_rest(Seq::<u8>::empty(), c1.skip(1)),
                c2,
            ));
        } else {
            lemma_chunking_is_immaterial(pending.push(c1[0]), c1.skip(1), c2);
        }
    }
}

/// Chunk-boundary independence at the message level: the messages decoded
/// after feeding two chunks are exactly those decoded after feeding their
/// concatenation at once. Decoding is per line, so it inherits the line
/// framer's indifference to how the bytes were split.
pub proof fn lemma_messages_chunking_is_immaterial(pending: Seq<u8>, c1: Seq<u8>, c2: Seq<u8>)
    ensures
        decode_lines_model(split_lines(pending, c1 + c2)) == decode_lines_model(
            split_lines(pending, c1),
        ) + decode_lines_model(split_lines(split_rest(pending, c1), c2)),
{
    lemma_chunking_is_immaterial(pending, c1, c2);
    assert(decode_lines_model(split_lines(pending, c1) + split_lines(split_rest(pending, c1), c2))
        =~= decode_lines_model(split_lines(pending, c1)) + decode_lines_model(
        split_lines(split_rest(pending, c1), c2),
    ));
}

/// What feeding the one-byte chunk `b` does: a separator closes the pending
/// line, any other byte extends it.
pub proof fn lemma_split_one_byte(pending: Seq<u8>, b: u8)
    ensures
        b == LINE_SEPARATOR ==> split_lines(pending, seq![b]) == seq![pending] && split_rest(
            pending,
            seq![b],
        ) == Seq::<u8>::empty(),
        b != LINE_SEPARATOR ==> split_lines(pending, seq![b]) == Seq::<Seq<u8>>::empty()
            && split_rest(pending, seq![b]) == pending.push(b),
{
    let s = seq![b];
    assert(s.skip(1) =~= Seq::<u8>::empty());
    assert(split_lines(Seq::<u8>::empty(), Seq::<u8>::empty()) == Seq::<Seq<u8>>::empty());
    assert(split_rest(Seq::<u8>::empty(), Seq::<u8>::empty()) == Seq::<u8>::empty());
    assert(split_lines(pending.push(b), Seq::<u8>::empty()) == Seq::<Seq<u8>>::empty());
    assert(split_rest(pending.push(b), Seq::<u8>::empty()) == pending.push(b));
    if b == LINE_SEPARATOR {
        assert(split_lines(pending, s) =~= seq![pending]);
    }
}

/// Accumulates raw bytes and hands out every line that a separator closes.
/// The view is the buffered partial line.
pub struct MessageBuffer {
    line_buffer: Vec<u8>,
}

impl View for MessageBuffer {
    type V = Seq<u8>;

    closed spec fn view(&self) -> Seq<u8> {
        self.line_buffer@
    }
}

impl MessageBuffer {
    /// A framer with nothing buffered.
    pub fn new() -> (r: MessageBuffer)
        ensures
            r@ == Seq::<u8>::empty(),
    {
        MessageBuffer { line_buffer: Vec::new() }
    }

    /// Takes in one chunk of bytes and returns the complete lines it closes,
    /// in order; the trailing partial line stays buffered.
    pub fn feed(&mut self, buf: &[u8]) -> (lines: Vec<Vec<u8>>)
        ensures
            final(self)@ == split_rest(old(self)@, buf@),
            lines.deep_view() == split_lines(old(self)@, buf@),
    {
        let mut lines: Vec<Vec<u8>> = Vec::new();
        let mut k: usize = 0;
        proof {
            assert(buf@.take(0) =~= Seq::<u8>::empty());
            assert(lines.deep_view() =~= split_lines(old(self)@, buf@.take(0)));
        }
        while k < buf.len()
            invariant
                k <= buf.len(),
                lines.deep_view() == split_lines(old(self)@, buf@.take(k as int)),
                self.line_buffer@ == split_rest(old(self)@, buf@.take(k as int)),
            decreases buf.len() - k,
        {
            let b = buf[k];
            proof {
                assert(buf@.take(k + 1) =~= buf@.take(k as int) + seq![buf@[k as int]]);
                lemma_chunking_is_immaterial(old(self)@, buf@.take(k as int), seq![buf@[k as int]]);
                lemma_split_one_byte(self.line_buffer@, buf@[k as int]);
            }
            if b == LINE_SEPARATOR {
                let mut complete: Vec<u8> = Vec::new();
                core::mem::swap(&mut complete, &mut self.line_buffer);
                lines.push(complete);
                proof {
                    assert(lines.deep_view() =~~= split_lines(old(self)@, buf@.take(k + 1)));
                }
            } else {
                self.line_buffer.push(b);
                proof {
                    assert(lines.deep_view() =~~= split_lines(old(self)@, buf@.take(k + 1)));
                }
            }
            k = k + 1;
        }
        proof {
            assert(buf@.take(buf@.len() as int) =~= buf@);
        }
        lines
    }

    /// Takes in one chunk of bytes and decodes every complete line it
    /// closes, in order; a line that fails to decode is reported in place
    /// and does not disturb the rest of the stream.
    pub fn insert(&mut self, buf: &[u8]) -> (msgs: Vec<Result<Message, DecodeError>>)
        ensures
            final(self)@ == split_rest(old(self)@, buf@),
            decode_views(msgs@) == decode_lines_model(split_lines(old(self)@, buf@)),
    {
        let lines = self.feed(buf);
        let mut msgs: Vec<Result<Message, DecodeError>> = Vec::new();
        let mut i: usize = 0;
        while i < lines.len()
            invariant
                i <= lines.len(),
                lines.deep_view() == split_lines(old(self)@, buf@),
                msgs@.len() == i,
                forall|j: int|
                    0 <= j < i ==> decode_view(msgs@[j]) == decode_line_model(
                        lines.deep_view()[j],
                    ),
            decreases lines.len() - i,
        {
            let line = &lines[i];
            proof {
                assert(lines.deep_view()[i as int] =~= lines@[i as int]@);
            }
            msgs.push(Message::from_slice(line.as_slice()));
            i = i + 1;
        }
        proof {
            assert(decode_views(msgs@) =~= decode_lines_model(split_lines(old(self)@, buf@)));
        }
        msgs
    }
}

} // verus!
