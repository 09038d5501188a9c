//! Message framing over a raw byte stream.
//!
//! One reserved byte, the delimiter, brackets every message. In a stream the
//! first delimiter opens a frame and the next one closes it; what lies
//! strictly between them is the payload. Bytes in front of the opening
//! delimiter belong to no message and are dropped, which is how a reader finds
//! its footing again after a garbled or half-received message.

use vstd::prelude::*;

verus! {

/// The byte that brackets every message on the wire: a line feed.
pub const DELIMITER: u8 = 0x0A;

/// No byte of `s` is the delimiter.
pub open spec fn delimiter_free(s: Seq<u8>) -> bool {
    forall|i: int| 0 <= i < s.len() ==> s[i] != DELIMITER
}

/// The length of the longest delimiter-free prefix of `s`: the position of
/// its first delimiter, or `s.len()` where it holds none.
pub open spec fn leading_len(s: Seq<u8>) -> int
    decreases s.len(),
{
    if s.len() == 0 || s[0] == DELIMITER {
        0
    } else {
        1 + leading_len(s.skip(1))
    }
}

/// `s` without the bytes in front of its first delimiter. The result is empty
/// or begins with a delimiter.
pub open spec fn resync(s: Seq<u8>) -> Seq<u8> {
    s.skip(leading_len(s))
}

/// A payload between its two delimiters, as it travels on the wire.
pub open spec fn framed(payload: Seq<u8>) -> Seq<u8> {
    seq![DELIMITER] + payload + seq![DELIMITER]
}

/// The first complete frame of `s`: its payload, and what follows its closing
/// delimiter. `None` where `s` holds fewer than two delimiters.
pub open spec fn next_frame(s: Seq<u8>) -> Option<(Seq<u8>, Seq<u8>)> {
    let opened = resync(s);
    if opened.len() == 0 {
        None
    } else {
        let body = opened.skip(1);
        let n = leading_len(body);
        if n == body.len() {
            None
        } else {
            Some((body.take(n), body.skip(n + 1)))
        }
    }
}

/// `leading_len(s)` is a position in `s`, nothing in front of it is a
/// delimiter, and the byte at it, if there is one, is.
pub proof fn lemma_leading_len(s: Seq<u8>)
    ensures
        0 <= leading_len(s) <= s.len(),
        delimiter_free(s.take(leading_len(s))),
        leading_len(s) < s.len() ==> s[leading_len(s)] == DELIMITER,
        delimiter_free(s) <==> leading_len(s) == s.len(),
    decreases s.len(),
{
    if s.len() == 0 || s[0] == DELIMITER {
    } else {
        let t = s.skip(1);
        lemma_leading_len(t);
        let n = leading_len(s);
        assert forall|i: int| 0 <= i < s.take(n).len() implies s.take(n)[i] != DELIMITER by {
            if i > 0 {
                assert(s.take(n)[i] == t.take(n - 1)[i - 1]);
            }
        }
        if n == s.len() {
            assert(s.take(n) =~= s);
        }
        if delimiter_free(s) {
            assert forall|i: int| 0 <= i < t.len() implies t[i] != DELIMITER by {
                assert(t[i] == s[i + 1]);
            }
        }
    }
}

/// Where a delimiter-free `prefix` is followed by a delimiter, the delimiter
/// is the first of the whole.
pub proof fn lemma_leading_len_of_prefix(prefix: Seq<u8>, rest: Seq<u8>)
    requires
        delimiter_free(prefix),
        rest.len() == 0 || rest[0] == DELIMITER,
    ensures
        leading_len(prefix + rest) == prefix.len(),
    decreases prefix.len(),
{
    let s = prefix + rest;
    if prefix.len() == 0 {
        assert(s =~= rest);
    } else {
        assert(s[0] == prefix[0]);
        assert(s.skip(1) =~= prefix.skip(1) + rest);
        assert forall|i: int| 0 <= i < prefix.skip(1).len() implies prefix.skip(1)[i]
            != DELIMITER by {
            assert(prefix.skip(1)[i] == prefix[i + 1]);
        }
        lemma_leading_len_of_prefix(prefix.skip(1), rest);
    }
}

/// Framing round trip: a delimiter-free payload, put between two delimiters,
/// is the first frame of the result, and nothing is left behind it.
pub proof fn lemma_frame_round_trip(payload: Seq<u8>)
    requires
        delimiter_free(payload),
    ensures
        next_frame(framed(payload)) == Some((payload, Seq::<u8>::empty())),
{
    lemma_resynchronization(Seq::empty(), payload, Seq::empty());
    assert(Seq::<u8>::empty() + framed(payload) + Seq::<u8>::empty() =~= framed(payload));
}

/// Resynchronisation: whatever delimiter-free bytes stand in front of a frame
/// are dropped, the payload that comes out is exactly what stands between the
/// two delimiters, and the stream goes on behind the closing one.
pub proof fn lemma_resynchronization(garbage: Seq<u8>, payload: Seq<u8>, rest: Seq<u8>)
    requires
        delimiter_free(garbage),
        delimiter_free(payload),
    ensures
        next_frame(garbage + framed(payload) + rest) == Some((payload, rest)),
{
    let s = garbage + framed(payload) + rest;
    let tail = framed(payload) + rest;
    assert(s =~= garbage + tail);
    lemma_leading_len_of_prefix(garbage, tail);
    let opened = resync(s);
    assert(opened =~= tail);
    let body = opened.skip(1);
    let closing = seq![DELIMITER] + rest;
    assert(body =~= payload + closing);
    lemma_leading_len_of_prefix(payload, closing);
    assert(body.take(payload.len() as int) =~= payload);
    assert(body.skip(payload.len() as int + 1) =~= rest);
}

/// What `next_frame` hands out really is a frame of the stream: the stream is
/// some delimiter-free bytes, the payload between two delimiters, and the
/// rest; and the payload holds no delimiter.
pub proof fn lemma_next_frame_shape(s: Seq<u8>)
    requires
        next_frame(s) is Some,
    ensures
        ({
            let (payload, rest) = next_frame(s)->0;
            let garbage = s.take(leading_len(s));
            &&& delimiter_free(garbage)
            &&& delimiter_free(payload)
            &&& s == garbage + framed(payload) + rest
        }),
{
    let (payload, rest) = next_frame(s)->0;
    let g = leading_len(s);
    lemma_leading_len(s);
    let opened = resync(s);
    let body = opened.skip(1);
    lemma_leading_len(body);
    assert(opened[0] == s[g]);
    assert(body[leading_len(body)] == DELIMITER);
    assert(s =~= s.take(g) + framed(payload) + rest);
}

/// Delimiter-free bytes in front of a stream change nothing of what is read
/// from it.
pub proof fn lemma_garbage_ignored(garbage: Seq<u8>, s: Seq<u8>)
    requires
        delimiter_free(garbage),
    ensures
        resync(garbage + s) == resync(s),
        next_frame(garbage + s) == next_frame(s),
    decreases garbage.len(),
{
    let whole = garbage + s;
    if garbage.len() == 0 {
        assert(whole =~= s);
    } else if s.len() == 0 {
        assert(whole =~= garbage);
        lemma_leading_len(garbage);
        assert(resync(garbage) =~= Seq::<u8>::empty());
        assert(resync(s) =~= Seq::<u8>::empty());
    } else {
        lemma_leading_len(s);
        let n = leading_len(s);
        let clean = garbage + s.take(n);
        assert(whole =~= clean + s.skip(n));
        lemma_leading_len_of_prefix(clean, s.skip(n));
        assert(whole.skip(clean.len() as int) =~= s.skip(n));
    }
}

/// A frame that a stream already holds stays its first frame however the
/// stream goes on; only the rest grows.
pub proof fn lemma_next_frame_extend(s: Seq<u8>, more: Seq<u8>)
    requires
        next_frame(s) is Some,
    ensures
        ({
            let (payload, rest) = next_frame(s)->0;
            next_frame(s + more) == Some((payload, rest + more))
        }),
{
    let (payload, rest) = next_frame(s)->0;
    lemma_next_frame_shape(s);
    let garbage = s.take(leading_len(s));
    assert(s + more =~= garbage + framed(payload) + (rest + more));
    lemma_resynchronization(garbage, payload, rest + more);
}

/// Dropping the bytes in front of the first delimiter early, before the rest
/// of the stream has arrived, changes nothing of what is read.
pub proof fn lemma_resync_early(s: Seq<u8>, more: Seq<u8>)
    ensures
        next_frame(resync(s) + more) == next_frame(s + more),
        resync(resync(s) + more) == resync(s + more),
{
    lemma_leading_len(s);
    let n = leading_len(s);
    assert(s + more =~= s.take(n) + (resync(s) + more));
    lemma_garbage_ignored(s.take(n), resync(s) + more);
}

/// What a reader gets that looks for a frame in what it holds and, finding
/// none, takes in the next chunk and looks again, until the chunks run out.
pub open spec fn read_chunks(buffered: Seq<u8>, chunks: Seq<Seq<u8>>) -> Option<Seq<u8>>
    decreases chunks.len(),
{
    match next_frame(buffered) {
        Some((payload, _)) => Some(payload),
        None => if chunks.len() == 0 {
            None
        } else {
            read_chunks(resync(buffered) + chunks[0], chunks.skip(1))
        },
    }
}

/// The bytes of all chunks, in order.
pub open spec fn joined(chunks: Seq<Seq<u8>>) -> Seq<u8>
    decreases chunks.len(),
{
    if chunks.len() == 0 {
        Seq::empty()
    } else {
        chunks[0] + joined(chunks.skip(1))
    }
}

/// Chunk boundaries do not matter: reading chunk by chunk yields the first
/// frame of the whole stream, however the stream was cut, one byte at a time
/// or all at once.
pub proof fn lemma_chunking_irrelevant(buffered: Seq<u8>, chunks: Seq<Seq<u8>>)
    ensures
        read_chunks(buffered, chunks) == match next_frame(buffered + joined(chunks)) {
            Some((payload, _)) => Some(payload),
            None => None,
        },
    decreases chunks.len(),
{
    let whole = buffered + joined(chunks);
    if next_frame(buffered) is Some {
        lemma_next_frame_extend(buffered, joined(chunks));
    } else if chunks.len() == 0 {
        assert(whole =~= buffered);
    } else {
        let next = resync(buffered) + chunks[0];
        lemma_chunking_irrelevant(next, chunks.skip(1));
        assert(next + joined(chunks.skip(1)) =~= resync(buffered) + joined(chunks));
        lemma_resync_early(buffered, joined(chunks));
    }
}

/// A framed payload is read back whole from any cut of its bytes into chunks.
pub proof fn lemma_round_trip_any_split(payload: Seq<u8>, chunks: Seq<Seq<u8>>)
    requires
        delimiter_free(payload),
        joined(chunks) == framed(payload),
    ensures
        read_chunks(Seq::empty(), chunks) == Some(payload),
{
    lemma_chunking_irrelevant(Seq::empty(), chunks);
    assert(Seq::<u8>::empty() + joined(chunks) =~= framed(payload));
    lemma_frame_round_trip(payload);
}

/// An incremental reader of frames. It takes the stream in as chunks of any
/// size and hands the payloads out one by one.
pub struct Framer {
    in_frame: bool,
    partial: Vec<u8>,
    pending: Vec<u8>,
    cursor: usize,
}

impl View for Framer {
    type V = Seq<u8>;

    /// The stream that this reader still holds: what it was fed, less the
    /// frames it has handed out and the bytes it has dropped.
    closed spec fn view(&self) -> Seq<u8> {
        let unread = self.pending@.skip(self.cursor as int);
        if self.in_frame {
            seq![DELIMITER] + self.partial@ + unread
        } else {
            unread
        }
    }
}

impl Framer {
    /// The reader's own consistency: every constructor gives it and every
    /// method keeps it.
    pub closed spec fn wf(&self) -> bool {
        &&& self.cursor <= self.pending.len()
        &&& delimiter_free(self.partial@)
        &&& !self.in_frame ==> self.partial@.len() == 0
    }

    /// A reader that holds nothing.
    pub fn new() -> (framer: Framer)
        ensures
            framer.wf(),
            framer@ == Seq::<u8>::empty(),
    {
        let framer = Framer {
            in_frame: false,
            partial: Vec::new(),
            pending: Vec::new(),
            cursor: 0,
        };
        assert(framer@ =~= Seq::<u8>::empty());
        framer
    }

    /// Takes in the next bytes of the stream. An empty chunk is in order and
    /// changes nothing.
    pub fn feed(&mut self, chunk: &[u8])
        requires
            old(self).wf(),
        ensures
            final(self).wf(),
            final(self)@ == old(self)@ + chunk@,
    {
        if self.cursor == self.pending.len() {
            self.pending.clear();
            self.cursor = 0;
            assert(self@ =~= old(self)@);
        }
        let mut i: usize = 0;
        while i < chunk.len()
            invariant
                i <= chunk.len(),
                self.wf(),
                self@ == old(self)@ + chunk@.take(i as int),
            decreases chunk.len() - i,
        {
            let ghost before = self@;
            self.pending.push(chunk[i]);
            i = i + 1;
            assert(self@ =~= before + seq![chunk@[i - 1]]);
            assert(chunk@.take(i as int) =~= chunk@.take(i - 1) + seq![chunk@[i - 1]]);
        }
        assert(chunk@.take(i as int) =~= chunk@);
    }

    /// Hands out the payload of the first complete frame that the reader
    /// holds, and keeps what follows it. Where it holds no complete frame
    /// yet, it returns `None` and keeps what it has from the first delimiter
    /// on.
    pub fn next_message(&mut self) -> (message: Option<Vec<u8>>)
        requires
            old(self).wf(),
        ensures
            final(self).wf(),
            match next_frame(old(self)@) {
                Some((payload, rest)) => message matches Some(bytes) && bytes@ == payload
                    && final(self)@ == rest,
                None => message is None && final(self)@ == resync(old(self)@),
            },
    {
        while self.cursor < self.pending.len()
            invariant
                self.wf(),
                next_frame(self@) == next_frame(old(self)@),
                resync(self@) == resync(old(self)@),
            decreases self.pending.len() - self.cursor,
        {
            let byte = self.pending[self.cursor];
            let ghost before = self@;
            let ghost rest = self.pending@.skip(self.cursor + 1);
            assert(self.pending@.skip(self.cursor as int) =~= seq![byte] + rest);
            self.cursor = self.cursor + 1;
            if byte == DELIMITER {
                if self.in_frame {
                    proof {
                        assert(before =~= Seq::<u8>::empty() + framed(self.partial@) + rest);
                        lemma_resynchronization(Seq::empty(), self.partial@, rest);
                    }
                    self.in_frame = false;
                    let mut payload: Vec<u8> = Vec::new();
                    std::mem::swap(&mut payload, &mut self.partial);
                    assert(self@ =~= rest);
                    return Some(payload);
                } else {
                    self.in_frame = true;
                    assert(self@ =~= before);
                }
            } else if self.in_frame {
                self.partial.push(byte);
                assert(self@ =~= before);
            } else {
                proof {
                    assert(before =~= seq![byte] + rest);
                    assert(self@ =~= rest);
                    lemma_garbage_ignored(seq![byte], rest);
                }
            }
        }
        let ghost held = self@;
        self.pending.clear();
        self.cursor = 0;
        proof {
            assert(self@ =~= held);
            if self.in_frame {
                assert(held =~= seq![DELIMITER] + self.partial@);
                assert(held[0] == DELIMITER);
                assert(resync(held) =~= held);
                assert(held.skip(1) =~= self.partial@);
                lemma_leading_len(self.partial@);
            } else {
                assert(held =~= Seq::<u8>::empty());
                assert(resync(held) =~= held);
            }
        }
        None
    }
}

/// The chunks of a recorded stream, as values.
pub open spec fn chunk_views(chunks: Seq<Vec<u8>>) -> Seq<Seq<u8>> {
    chunks.map_values(|chunk: Vec<u8>| chunk@)
}

/// The payload of the first complete frame of `s`, if it has one.
pub open spec fn first_payload(s: Seq<u8>) -> Option<Seq<u8>> {
    match next_frame(s) {
        Some((payload, _)) => Some(payload),
        None => None,
    }
}

/// Reads the first message of a stream that arrives in these chunks, with a
/// reader of its own that looks for a frame after every chunk. What comes out
/// is the first frame of the stream as a whole: the cut into chunks does not
/// show. `None` where the chunks run out before a frame is complete.
pub fn read_message(chunks: &Vec<Vec<u8>>) -> (message: Option<Vec<u8>>)
    ensures
        match message {
            Some(bytes) => Some(bytes@),
            None => None,
        } == first_payload(joined(chunk_views(chunks@))),
        first_payload(joined(chunk_views(chunks@))) == read_chunks(
            Seq::empty(),
            chunk_views(chunks@),
        ),
{
    let ghost views = chunk_views(chunks@);
    proof {
        lemma_chunking_irrelevant(Seq::empty(), views);
        assert(Seq::<u8>::empty() + joined(views) =~= joined(views));
        assert(views.skip(0) =~= views);
    }
    let mut framer = Framer::new();
    let mut i: usize = 0;
    loop
        invariant
            i <= chunks.len(),
            framer.wf(),
            views == chunk_views(chunks@),
            first_payload(joined(views)) == read_chunks(Seq::empty(), views),
            read_chunks(framer@, views.skip(i as int)) == read_chunks(Seq::empty(), views),
        decreases chunks.len() - i,
    {
        match framer.next_message() {
            Some(bytes) => {
                return Some(bytes);
            },
            None => {},
        }
        if i == chunks.len() {
            return None;
        }
        framer.feed(chunks[i].as_slice());
        proof {
            let left = views.skip(i as int);
            assert(left[0] == chunks@[i as int]@);
            assert(left.skip(1) =~= views.skip(i + 1));
        }
        i = i + 1;
    }
}

/// Puts a payload between two delimiters, ready to be written. A payload that
/// holds the delimiter itself cannot travel and yields `None`.
pub fn frame(payload: &[u8]) -> (wire: Option<Vec<u8>>)
    ensures
        match wire {
            Some(bytes) => delimiter_free(payload@) && bytes@ == framed(payload@),
            None => !delimiter_free(payload@),
        },
{
    let mut bytes: Vec<u8> = Vec::new();
    bytes.push(DELIMITER);
    let mut i: usize = 0;
    while i < payload.len()
        invariant
            i <= payload.len(),
            delimiter_free(payload@.take(i as int)),
            bytes@ == seq![DELIMITER] + payload@.take(i as int),
        decreases payload.len() - i,
    {
        if payload[i] == DELIMITER {
            return None;
        }
        bytes.push(payload[i]);
        i = i + 1;
        assert(payload@.take(i as int) =~= payload@.take(i - 1) + seq![payload@[i - 1]]);
    }
    assert(payload@.take(i as int) =~= payload@);
    bytes.push(DELIMITER);
    Some(bytes)
}

} // verus!
