//! NUL-delimited framing of the wire stream. A frame is an opaque byte
//! sequence with no embedded length; its boundary is a single `0x00` byte
//! appended on write and stripped on read. Frames may be empty, and callers
//! skip empty frames rather than treat them as malformed.

use vstd::prelude::*;
use vstd::slice::slice_to_vec;

verus! {

/// Whether the buffered bytes contain a frame terminator.
pub open spec fn has_terminator(s: Seq<u8>) -> bool {
    exists|i: int| 0 <= i < s.len() && s[i] == 0
}

/// The index of the first terminator, or the length when there is none.
pub open spec fn first_terminator(s: Seq<u8>) -> int
    decreases s.len(),
{
    if s.len() == 0 {
        0
    } else if s[0] == 0 {
        0
    } else {
        1 + first_terminator(s.drop_first())
    }
}

/// `first_terminator` is what its name says: no terminator stands before it,
/// one stands at it when there is any, and it is the length exactly when the
/// buffer holds no terminator.
pub proof fn lemma_first_terminator(s: Seq<u8>)
    ensures
        0 <= first_terminator(s) <= s.len(),
        forall|j: int| 0 <= j < first_terminator(s) ==> s[j] != 0,
        first_terminator(s) < s.len() ==> s[first_terminator(s)] == 0,
        has_terminator(s) <==> first_terminator(s) < s.len(),
    decreases s.len(),
{
    if s.len() == 0 {
    } else if s[0] == 0 {
    } else {
        lemma_first_terminator(s.drop_first());
        assert forall|j: int| 0 <= j < first_terminator(s) implies s[j] != 0 by {
            if j > 0 {
                assert(s.drop_first()[j - 1] != 0);
            }
        }
        if has_terminator(s) {
            let i = choose|i: int| 0 <= i < s.len() && s[i] == 0;
            assert(s.drop_first()[i - 1] == 0);
        }
        if first_terminator(s) < s.len() {
            assert(s[first_terminator(s)] == s.drop_first()[first_terminator(s.drop_first())]);
        }
    }
}

/// Encodes one outgoing frame: the payload followed by a single `0x00`.
pub fn encode_frame(payload: &[u8]) -> (r: Vec<u8>)
    ensures
        r@ == payload@ + seq![0u8],
{
    let mut out = slice_to_vec(payload);
    out.push(0u8);
    proof {
        assert(out@ =~= payload@ + seq![0u8]);
    }
    out
}

/// The read side of the transport: accumulates bytes as they arrive from the
/// stream and cuts them at each terminator into frames.
pub struct FrameBuffer {
    data: Vec<u8>,
}

impl FrameBuffer {
    /// The bytes received and not yet cut into frames.
    pub closed spec fn view(&self) -> Seq<u8> {
        self.data@
    }

    /// Creates an empty buffer.
    pub fn new() -> (r: FrameBuffer)
        ensures
            r.view() == Seq::<u8>::empty(),
    {
        FrameBuffer { data: Vec::new() }
    }

    /// Appends bytes read from the stream.
    pub fn push_bytes(&mut self, chunk: &[u8])
        ensures
            final(self).view() == old(self).view() + chunk@,
    {
        self.data.extend_from_slice(chunk);
    }

    /// Cuts the next frame off the front of the buffer: the bytes before the
    /// first terminator, which is consumed with them. Returns nothing, and
    /// leaves the buffer as it was, while no terminator has arrived.
    pub fn take_frame(&mut self) -> (r: Option<Vec<u8>>)
        ensures
            match r {
                Some(frame) => {
                    &&& has_terminator(old(self).view())
                    &&& frame@ == old(self).view().take(first_terminator(old(self).view()))
                    &&& final(self).view() == old(self).view().skip(
                        first_terminator(old(self).view()) + 1,
                    )
                },
                None => !has_terminator(old(self).view()) && final(self).view() == old(
                    self,
                ).view(),
            },
    {
        proof {
            lemma_first_terminator(self.data@);
        }
        let ghost orig = self.data@;
        let mut i: usize = 0;
        let n = self.data.len();
        while i < n && self.data[i] != 0
            invariant
                i <= n,
                n == self.data@.len(),
                self.data@ == orig,
                forall|j: int| 0 <= j < i ==> orig[j] != 0,
            decreases n - i,
        {
            i = i + 1;
        }
        proof {
            if i < n {
                if first_terminator(orig) < i {
                    assert(orig[first_terminator(orig)] != 0);
                }
                if first_terminator(orig) > i {
                    assert(orig[i as int] != 0);
                }
                assert(first_terminator(orig) == i);
            } else {
                assert(!has_terminator(orig));
            }
        }
        if i == n {
            return None;
        }
        let mut rest = self.data.split_off(i + 1);
        self.data.pop();
        core::mem::swap(&mut self.data, &mut rest);
        proof {
            assert(rest@ =~= orig.take(i as int));
            assert(self.data@ =~= orig.skip(i + 1));
        }
        Some(rest)
    }
}

/// A frame written whole round-trips: for a payload with no embedded NUL,
/// the encoded bytes hold a terminator exactly at the payload's end, so
/// cutting the next frame yields the payload and leaves the buffer empty.
pub proof fn lemma_frame_round_trip(payload: Seq<u8>)
    requires
        forall|i: int| 0 <= i < payload.len() ==> payload[i] != 0,
    ensures
        has_terminator(payload + seq![0u8]),
        first_terminator(payload + seq![0u8]) == payload.len(),
        (payload + seq![0u8]).take(payload.len() as int) =~= payload,
        (payload + seq![0u8]).skip(payload.len() as int + 1) =~= Seq::<u8>::empty(),
{
    let s = payload + seq![0u8];
    lemma_first_terminator(s);
    assert(s[payload.len() as int] == 0);
    if first_terminator(s) < payload.len() {
        assert(payload[first_terminator(s)] != 0);
        assert(s[first_terminator(s)] == payload[first_terminator(s)]);
    }
}

} // verus!
