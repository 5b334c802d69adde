//! Length-prefixed framing of messages over a byte stream: every frame is a
//! two-byte big-endian payload length followed by the payload.
use vstd::prelude::*;

verus! {

/// Largest payload a frame may carry, in bytes.
pub const MAX_PAYLOAD: usize = 2048;

/// Bytes in a frame's length prefix.
pub const HEADER_LEN: usize = 2;

/// Why a frame could not be built or read.
#[derive(Clone, Copy, Debug, PartialEq, Eq, Structural)]
pub enum FrameError {
    /// The payload is longer than `MAX_PAYLOAD`.
    TooLarge,
}

/// The frame that carries `payload`.
pub open spec fn frame_of(payload: Seq<u8>) -> Seq<u8> {
    seq![(payload.len() / 256) as u8, (payload.len() % 256) as u8] + payload
}

/// The payload length announced by the prefix of `buf` (at least two bytes long).
pub open spec fn announced_len(buf: Seq<u8>) -> int {
    buf[0] * 256 + buf[1]
}

/// What the front of a received byte sequence holds: `Ok(None)` while the first
/// frame is incomplete, `Ok(Some((payload, rest)))` once it is complete, and
/// `Err(TooLarge)` as soon as its prefix announces more than `MAX_PAYLOAD` bytes.
pub open spec fn split_frame(buf: Seq<u8>) -> Result<Option<(Seq<u8>, Seq<u8>)>, FrameError> {
    if buf.len() < HEADER_LEN {
        Ok(None)
    } else if announced_len(buf) > MAX_PAYLOAD {
        Err(FrameError::TooLarge)
    } else if buf.len() < HEADER_LEN + announced_len(buf) {
        Ok(None)
    } else {
        let end = HEADER_LEN + announced_len(buf);
        Ok(Some((buf.subrange(HEADER_LEN as int, end), buf.subrange(end, buf.len() as int))))
    }
}

/// Builds the frame that carries `payload`; a payload over `MAX_PAYLOAD` bytes is
/// refused.
pub fn encode_frame(payload: &[u8]) -> (r: Result<Vec<u8>, FrameError>)
    ensures
        payload@.len() > MAX_PAYLOAD <==> r is Err,
        r matches Ok(f) ==> f@ == frame_of(payload@),
        r matches Err(e) ==> e == FrameError::TooLarge,
{
    let n = payload.len();
    if n > MAX_PAYLOAD {
        return Err(FrameError::TooLarge);
    }
    let mut out: Vec<u8> = Vec::with_capacity(n + HEADER_LEN);
    out.push((n / 256) as u8);
    out.push((n % 256) as u8);
    let mut i: usize = 0;
    while i < n
        invariant
            i <= n,
            n == payload@.len(),
            out@ == seq![(n / 256) as u8, (n % 256) as u8] + payload@.subrange(0, i as int),
        decreases n - i,
    {
        out.push(payload[i]);
        i = i + 1;
        proof {
            assert(payload@.subrange(0, i as int) == payload@.subrange(0, i - 1) + seq![
                payload@[i - 1],
            ]);
        }
    }
    proof {
        assert(payload@.subrange(0, n as int) == payload@);
    }
    Ok(out)
}

/// Collects the bytes of a stream and cuts them into frames.
pub struct FrameDecoder {
    buf: Vec<u8>,
}

impl View for FrameDecoder {
    type V = Seq<u8>;

    /// The bytes received and not yet handed out as a frame.
    closed spec fn view(&self) -> Seq<u8> {
        self.buf@
    }
}

/// The bytes of `s` from index `from` on, in a new vector.
fn copy_from(s: &Vec<u8>, from: usize, to: usize) -> (r: Vec<u8>)
    requires
        from <= to <= s@.len(),
    ensures
        r@ == s@.subrange(from as int, to as int),
{
    let mut r: Vec<u8> = Vec::with_capacity(to - from);
    let mut i: usize = from;
    while i < to
        invariant
            from <= i <= to <= s@.len(),
            r@ == s@.subrange(from as int, i as int),
        decreases to - i,
    {
        r.push(s[i]);
        i = i + 1;
        proof {
            assert(s@.subrange(from as int, i as int) == s@.subrange(from as int, i - 1) + seq![
                s@[i - 1],
            ]);
        }
    }
    r
}

impl FrameDecoder {
    /// A decoder that has received nothing yet.
    pub fn new() -> (r: FrameDecoder)
        ensures
            r@ == Seq::<u8>::empty(),
    {
        FrameDecoder { buf: Vec::new() }
    }

    /// Appends bytes read from the stream.
    pub fn push(&mut self, bytes: &[u8])
        ensures
            final(self)@ == old(self)@ + bytes@,
    {
        let mut i: usize = 0;
        while i < bytes.len()
            invariant
                i <= bytes@.len(),
                self@ == old(self)@ + bytes@.subrange(0, i as int),
            decreases bytes@.len() - i,
        {
            self.buf.push(bytes[i]);
            i = i + 1;
            proof {
                assert(bytes@.subrange(0, i as int) == bytes@.subrange(0, i - 1) + seq![
                    bytes@[i - 1],
                ]);
            }
        }
        proof {
            assert(bytes@.subrange(0, bytes@.len() as int) == bytes@);
        }
    }

    /// Takes the first complete frame's payload off the received bytes. Returns
    /// `Ok(None)`, and keeps the bytes, while that frame is incomplete, and
    /// `Err(TooLarge)`, keeping the bytes too, where its prefix announces a payload
    /// over `MAX_PAYLOAD` bytes.
    pub fn next_frame(&mut self) -> (r: Result<Option<Vec<u8>>, FrameError>)
        ensures
            match split_frame(old(self)@) {
                Ok(Some((payload, rest))) => {
                    &&& r matches Ok(Some(p)) && p@ == payload
                    &&& final(self)@ == rest
                },
                Ok(None) => r matches Ok(None) && final(self)@ == old(self)@,
                Err(e) => r == Err::<Option<Vec<u8>>, FrameError>(e) && final(self)@ == old(self)@,
            },
    {
        let len = self.buf.len();
        if len < HEADER_LEN {
            return Ok(None);
        }
        let n = self.buf[0] as usize * 256 + self.buf[1] as usize;
        if n > MAX_PAYLOAD {
            return Err(FrameError::TooLarge);
        }
        if len < HEADER_LEN + n {
            return Ok(None);
        }
        let payload = copy_from(&self.buf, HEADER_LEN, HEADER_LEN + n);
        let rest = copy_from(&self.buf, HEADER_LEN + n, len);
        self.buf = rest;
        Ok(Some(payload))
    }
}

/// A frame built from a payload of at most `MAX_PAYLOAD` bytes, followed by any
/// further bytes, is read back as that same payload, and the further bytes stay.
pub proof fn lemma_frame_round_trip(payload: Seq<u8>, rest: Seq<u8>)
    requires
        payload.len() <= MAX_PAYLOAD,
    ensures
        split_frame(frame_of(payload) + rest) == Ok::<Option<(Seq<u8>, Seq<u8>)>, FrameError>(
            Some((payload, rest)),
        ),
{
    let buf = frame_of(payload) + rest;
    let n = payload.len();
    assert(buf[0] == (n / 256) as u8);
    assert(buf[1] == (n % 256) as u8);
    assert(announced_len(buf) == n);
    assert(buf.subrange(HEADER_LEN as int, HEADER_LEN + n) == payload);
    assert(buf.subrange(HEADER_LEN + n, buf.len() as int) == rest);
}

} // verus!
