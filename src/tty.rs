use vstd::prelude::*;
use crate::error::Error;

verus! {

/// One piece of a container's standard streams, as carried by an attach stream.
#[derive(Debug, PartialEq, Eq)]
pub enum TtyChunk {
    StdIn(Vec<u8>),
    StdOut(Vec<u8>),
    StdErr(Vec<u8>),
}

/// Length of a frame header: the stream type, three reserved bytes, and the
/// big-endian payload length.
pub const HEADER_LEN: usize = 8;

/// The big-endian 32-bit number held by `s[i..i + 4]`.
pub open spec fn be32(s: Seq<u8>, i: int) -> nat {
    (s[i] as nat) * 16777216 + (s[i + 1] as nat) * 65536 + (s[i + 2] as nat) * 256 + (s[i + 3] as nat)
}

/// `s` starts with a whole frame: a header and all of its payload.
pub open spec fn frame_complete(s: Seq<u8>) -> bool {
    s.len() >= 8 && s.len() - 8 >= be32(s, 4)
}

/// Where the frame at the start of `s` ends.
pub open spec fn frame_end(s: Seq<u8>) -> int {
    8 + be32(s, 4) as int
}

/// The complete frames at the start of `s`, each as its stream type and
/// payload, in order; a stdin frame ends the sequence, as it ends the stream.
pub open spec fn frames(s: Seq<u8>) -> Seq<(u8, Seq<u8>)>
    decreases s.len(),
{
    if frame_complete(s) {
        let f = (s[0], s.subrange(8, frame_end(s)));
        if s[0] == 0 {
            seq![f]
        } else {
            seq![f] + frames(s.subrange(frame_end(s), s.len() as int))
        }
    } else {
        seq![]
    }
}

/// How many bytes of `s` the frames of `frames(s)` take up.
pub open spec fn consumed(s: Seq<u8>) -> int
    decreases s.len(),
{
    if frame_complete(s) {
        if s[0] == 0 {
            frame_end(s)
        } else {
            frame_end(s) + consumed(s.subrange(frame_end(s), s.len() as int))
        }
    } else {
        0
    }
}

/// The item a frame of stream type `f.0` and payload `f.1` is delivered as:
/// stdout and stderr payloads as chunks, a stdin frame as a protocol
/// violation, any other stream type as a decode error on that item.
pub open spec fn delivers(r: Result<TtyChunk, Error>, f: (u8, Seq<u8>)) -> bool {
    if f.0 == 1 {
        r matches Ok(TtyChunk::StdOut(b)) && b@ == f.1
    } else if f.0 == 2 {
        r matches Ok(TtyChunk::StdErr(b)) && b@ == f.1
    } else if f.0 == 0 {
        r matches Err(Error::ProtocolViolation)
    } else {
        r matches Err(Error::InvalidStreamType(t)) && t == f.0
    }
}

fn copy_range(bytes: &[u8], from: usize, to: usize) -> (r: Vec<u8>)
    requires
        from <= to <= bytes@.len(),
    ensures
        r@ == bytes@.subrange(from as int, to as int),
{
    let mut out: Vec<u8> = Vec::new();
    let mut i: usize = from;
    while i < to
        invariant
            from <= i <= to <= bytes@.len(),
            out@ == bytes@.subrange(from as int, i as int),
        decreases to - i,
    {
        out.push(bytes[i]);
        i = i + 1;
        assert(out@ =~= bytes@.subrange(from as int, i as int));
    }
    out
}

/// Splits the multiplexed bytes of an attach stream into items, frame by
/// frame, in order. Returns the items and how many bytes they took up; the
/// bytes after that are an incomplete frame, to be completed by more input.
/// After a stdin frame nothing more is decoded.
pub fn demux(bytes: &[u8]) -> (r: (Vec<Result<TtyChunk, Error>>, usize))
    ensures
        r.0@.len() == frames(bytes@).len(),
        forall|i: int| 0 <= i < r.0@.len() ==> delivers(#[trigger] r.0@[i], frames(bytes@)[i]),
        r.1 == consumed(bytes@),
{
    let len = bytes.len();
    let mut out: Vec<Result<TtyChunk, Error>> = Vec::new();
    let mut pos: usize = 0;
    let ghost mut done: Seq<(u8, Seq<u8>)> = seq![];
    assert(bytes@.subrange(0, len as int) =~= bytes@);
    assert(done + frames(bytes@) =~= frames(bytes@));
    loop
        invariant_except_break
            frames(bytes@) == done + frames(bytes@.subrange(pos as int, len as int)),
            consumed(bytes@) == pos + consumed(bytes@.subrange(pos as int, len as int)),
        invariant
            len == bytes@.len(),
            pos <= len,
            out@.len() == done.len(),
            forall|i: int| 0 <= i < out@.len() ==> delivers(#[trigger] out@[i], done[i]),
        ensures
            frames(bytes@) == done,
            consumed(bytes@) == pos,
        decreases len - pos,
    {
        let ghost rest = bytes@.subrange(pos as int, len as int);
        if len - pos < HEADER_LEN {
            assert(frames(rest) == Seq::<(u8, Seq<u8>)>::empty());
            assert(done + frames(rest) =~= done);
            break;
        }
        let n: u64 = (bytes[pos + 4] as u64) * 16777216 + (bytes[pos + 5] as u64) * 65536
            + (bytes[pos + 6] as u64) * 256 + (bytes[pos + 7] as u64);
        assert(n == be32(rest, 4));
        if ((len - pos - HEADER_LEN) as u64) < n {
            assert(!frame_complete(rest));
            assert(done + frames(rest) =~= done);
            break;
        }
        let end: usize = pos + HEADER_LEN + n as usize;
        let kind = bytes[pos];
        let payload = copy_range(bytes, pos + HEADER_LEN, end);
        let ghost f = (kind, payload@);
        assert(rest.subrange(8, frame_end(rest)) =~= payload@);
        assert(rest.subrange(frame_end(rest), rest.len() as int) =~= bytes@.subrange(end as int, len as int));
        let item = if kind == 1 {
            Ok(TtyChunk::StdOut(payload))
        } else if kind == 2 {
            Ok(TtyChunk::StdErr(payload))
        } else if kind == 0 {
            Err(Error::ProtocolViolation)
        } else {
            Err(Error::InvalidStreamType(kind))
        };
        out.push(item);
        proof {
            done = done.push(f);
        }
        if kind == 0 {
            assert(frames(rest) == seq![f]);
            pos = end;
            break;
        }
        assert(frames(rest) == seq![f] + frames(bytes@.subrange(end as int, len as int)));
        pos = end;
    }
    (out, pos)
}

} // verus!

verus! {

/// The read half of an attach stream: takes the bytes as the connection
/// delivers them and hands out items. A multiplexed stream is split into
/// frames, keeping an incomplete frame until the rest arrives; a raw stream
/// (a container with a TTY) is all standard output.
#[derive(Debug)]
pub struct TtyDecoder {
    multiplexed: bool,
    pending: Vec<u8>,
    closed: bool,
}

impl TtyDecoder {
    /// Whether the stream is multiplexed.
    pub closed spec fn is_multiplexed(&self) -> bool {
        self.multiplexed
    }

    /// The bytes received but not yet decoded.
    pub closed spec fn pending(&self) -> Seq<u8> {
        self.pending@
    }

    /// Whether a protocol violation has ended the stream.
    pub closed spec fn is_closed(&self) -> bool {
        self.closed
    }

    /// A decoder for a stream, multiplexed or raw, that nothing has been read from.
    pub fn new(multiplexed: bool) -> (r: Self)
        ensures
            r.is_multiplexed() == multiplexed,
            r.pending() == Seq::<u8>::empty(),
            !r.is_closed(),
    {
        TtyDecoder { multiplexed, pending: Vec::new(), closed: false }
    }

    /// Whether a protocol violation has ended the stream.
    pub fn closed(&self) -> (r: bool)
        ensures
            r == self.is_closed(),
    {
        self.closed
    }

    /// How many received bytes wait for the rest of their frame.
    pub fn pending_len(&self) -> (r: usize)
        ensures
            r == self.pending().len(),
    {
        self.pending.len()
    }

    /// The items that `bytes`, following what came before, complete. On a
    /// raw stream that is one standard-output chunk of `bytes`, if any.
    /// After a protocol violation the stream yields nothing more.
    pub fn feed(&mut self, bytes: &[u8]) -> (r: Vec<Result<TtyChunk, Error>>)
        requires
            old(self).pending().len() + bytes@.len() <= usize::MAX,
        ensures
            final(self).is_multiplexed() == old(self).is_multiplexed(),
            old(self).is_closed() ==> r@.len() == 0 && final(self).is_closed()
                && final(self).pending() == old(self).pending(),
            !old(self).is_closed() && !old(self).is_multiplexed() ==> !final(self).is_closed()
                && final(self).pending() == old(self).pending() && (if bytes@.len() == 0 {
                r@.len() == 0
            } else {
                r@.len() == 1 && (r@[0] matches Ok(TtyChunk::StdOut(b)) && b@ == bytes@)
            }),
            !old(self).is_closed() && old(self).is_multiplexed() ==> ({
                let s = old(self).pending() + bytes@;
                &&& r@.len() == frames(s).len()
                &&& forall|i: int| 0 <= i < r@.len() ==> delivers(#[trigger] r@[i], frames(s)[i])
                &&& final(self).pending() == s.subrange(consumed(s), s.len() as int)
                &&& final(self).is_closed() == (exists|i: int|
                    0 <= i < frames(s).len() && (#[trigger] frames(s)[i]).0 == 0)
            }),
    {
        if self.closed {
            return Vec::new();
        }
        if !self.multiplexed {
            let mut out: Vec<Result<TtyChunk, Error>> = Vec::new();
            if bytes.len() > 0 {
                let b = copy_range(bytes, 0, bytes.len());
                assert(b@ =~= bytes@);
                out.push(Ok(TtyChunk::StdOut(b)));
            }
            return out;
        }
        let n = bytes.len();
        let mut i: usize = 0;
        while i < n
            invariant
                n == bytes@.len(),
                i <= n,
                self.pending@ == old(self).pending@ + bytes@.subrange(0, i as int),
                self.multiplexed == old(self).multiplexed,
                self.closed == old(self).closed,
            decreases n - i,
        {
            self.pending.push(bytes[i]);
            i = i + 1;
            assert(self.pending@ =~= old(self).pending@ + bytes@.subrange(0, i as int));
        }
        assert(bytes@.subrange(0, n as int) =~= bytes@);
        let ghost whole = self.pending@;
        let (items, used) = demux(self.pending.as_slice());
        proof {
            lemma_consumed_bounds(self.pending@);
        }
        let rest = copy_range(self.pending.as_slice(), used, self.pending.len());
        self.pending = rest;
        let mut violated = false;
        let mut k: usize = 0;
        while k < items.len()
            invariant
                k <= items@.len(),
                violated == exists|j: int| 0 <= j < k && (#[trigger] items@[j]) matches Err(Error::ProtocolViolation),
            decreases items@.len() - k,
        {
            if let Err(Error::ProtocolViolation) = &items[k] {
                violated = true;
            }
            k = k + 1;
        }
        proof {
            let ghost s = whole;
            assert(s == old(self).pending() + bytes@);
            if violated {
                let j = choose|j: int| 0 <= j < k && (#[trigger] items@[j]) matches Err(Error::ProtocolViolation);
                assert(delivers(items@[j], frames(s)[j]));
                assert(frames(s)[j].0 == 0);
            } else {
                assert forall|i: int| 0 <= i < frames(s).len() implies (#[trigger] frames(s)[i]).0 != 0 by {
                    assert(delivers(items@[i], frames(s)[i]));
                    assert(!(items@[i] matches Err(Error::ProtocolViolation)));
                }
            }
        }
        self.closed = violated;
        items
    }
}

/// The frames decoded from `s` lie within `s`.
proof fn lemma_consumed_bounds(s: Seq<u8>)
    ensures
        consumed(s) <= s.len(),
        0 <= consumed(s),
    decreases s.len(),
{
    if frame_complete(s) && s[0] != 0 {
        lemma_consumed_bounds(s.subrange(frame_end(s), s.len() as int));
    }
}

} // verus!
