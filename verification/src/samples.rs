use vstd::prelude::*;

verus! {

use vstd::math::max;

// The audio source delivers interleaved stereo frames of four bytes: a
// little-endian signed 16-bit right sample followed by a little-endian
// signed 16-bit left sample.

/// The signed 16-bit value encoded little-endian by two bytes.
pub open spec fn spec_le_i16(b0: u8, b1: u8) -> int {
    let v = b0 + 256 * b1;
    if v >= 32768 {
        v - 65536
    } else {
        v as int
    }
}

/// Decodes a little-endian signed 16-bit sample from two bytes.
pub fn le_i16(b0: u8, b1: u8) -> (s: i16)
    ensures
        s == spec_le_i16(b0, b1),
{
    let v: u32 = (b0 as u32) + 256 * (b1 as u32);
    if v >= 32768 {
        ((v as i32) - 65536) as i16
    } else {
        v as i16
    }
}

/// Splits interleaved stereo bytes into left and right sample vectors:
/// frame `k` holds the right sample in its first two bytes and the left
/// sample in its last two.
pub fn split_channels(bytes: &[u8]) -> (channels: (Vec<i16>, Vec<i16>))
    requires
        bytes@.len() % 4 == 0,
    ensures
        channels.0@.len() == bytes@.len() / 4,
        channels.1@.len() == bytes@.len() / 4,
        forall|k: int|
            #![trigger channels.0@[k]]
            0 <= k < bytes@.len() / 4 ==> channels.0@[k] == spec_le_i16(
                bytes@[4 * k + 2],
                bytes@[4 * k + 3],
            ),
        forall|k: int|
            #![trigger channels.1@[k]]
            0 <= k < bytes@.len() / 4 ==> channels.1@[k] == spec_le_i16(
                bytes@[4 * k],
                bytes@[4 * k + 1],
            ),
{
    let nb = bytes.len();
    let total = nb / 4;
    let mut left: Vec<i16> = Vec::new();
    let mut right: Vec<i16> = Vec::new();
    let mut k: usize = 0;
    while k < total
        invariant
            k <= total,
            nb == bytes@.len(),
            total == bytes@.len() / 4,
            bytes@.len() % 4 == 0,
            left@.len() == k,
            right@.len() == k,
            forall|t: int|
                #![trigger left@[t]]
                0 <= t < k ==> left@[t] == spec_le_i16(bytes@[4 * t + 2], bytes@[4 * t + 3]),
            forall|t: int|
                #![trigger right@[t]]
                0 <= t < k ==> right@[t] == spec_le_i16(bytes@[4 * t], bytes@[4 * t + 1]),
        decreases total - k,
    {
        proof {
            vstd::arithmetic::div_mod::lemma_fundamental_div_mod(bytes@.len() as int, 4);
            assert(4 * (k as int) + 3 < bytes@.len());
        }
        let base = 4 * k;
        right.push(le_i16(bytes[base], bytes[base + 1]));
        left.push(le_i16(bytes[base + 2], bytes[base + 3]));
        k += 1;
    }
    (left, right)
}

/// Sliding accumulator for FFT input frames: it keeps at most the
/// freshest `frame_len` bytes of the stream, discarding the oldest bytes
/// when more arrive.
pub struct Framer {
    data: Vec<u8>,
    frame_len: usize,
}

impl View for Framer {
    type V = Seq<u8>;

    closed spec fn view(&self) -> Seq<u8> {
        self.data@
    }
}

impl Framer {
    /// Number of bytes a full frame holds.
    pub closed spec fn frame_size(&self) -> int {
        self.frame_len as int
    }

    /// The accumulator never holds more than one frame.
    pub open spec fn wf(&self) -> bool {
        self@.len() <= self.frame_size()
    }

    /// Creates an empty accumulator for frames of the given byte length.
    pub fn new(frame_len: usize) -> (framer: Framer)
        requires
            frame_len >= 1,
        ensures
            framer@ == Seq::<u8>::empty(),
            framer.frame_size() == frame_len,
            framer.wf(),
    {
        Framer { data: Vec::new(), frame_len }
    }

    /// Appends fresh stream bytes, dropping the oldest bytes so that at
    /// most one frame remains.
    pub fn push(&mut self, bytes: &[u8])
        requires
            old(self).wf(),
            old(self)@.len() + bytes@.len() <= usize::MAX,
        ensures
            final(self).wf(),
            final(self).frame_size() == old(self).frame_size(),
            final(self)@ == (old(self)@ + bytes@).skip(
                max(0, old(self)@.len() + bytes@.len() - old(self).frame_size()),
            ),
    {
        let ghost combined = self.data@ + bytes@;
        let mut i: usize = 0;
        while i < bytes.len()
            invariant
                i <= bytes@.len(),
                self.data@ == old(self).data@ + bytes@.take(i as int),
                self.frame_len == old(self).frame_len,
            decreases bytes@.len() - i,
        {
            self.data.push(bytes[i]);
            i += 1;
        }
        proof {
            assert(self.data@ =~= combined);
        }
        if self.data.len() > self.frame_len {
            let overflow = self.data.len() - self.frame_len;
            let mut kept: Vec<u8> = Vec::new();
            let mut j: usize = overflow;
            while j < self.data.len()
                invariant
                    overflow <= j <= self.data@.len(),
                    self.data@ == combined,
                    overflow == combined.len() - self.frame_len,
                    kept@ == combined.skip(overflow as int).take(j - overflow),
                decreases self.data@.len() - j,
            {
                kept.push(self.data[j]);
                j += 1;
            }
            proof {
                assert(kept@ =~= combined.skip(overflow as int));
            }
            self.data = kept;
        } else {
            proof {
                assert(combined.skip(0) =~= combined);
            }
        }
    }

    /// Whether a full frame has accumulated.
    pub fn ready(&self) -> (full: bool)
        ensures
            full == (self@.len() == self.frame_size()),
    {
        self.data.len() == self.frame_len
    }

    /// Returns a copy of the accumulated frame; the accumulator keeps its
    /// bytes so the frame window can slide.
    pub fn frame(&self) -> (bytes: Vec<u8>)
        requires
            self@.len() == self.frame_size(),
        ensures
            bytes@ == self@,
    {
        let mut out: Vec<u8> = Vec::new();
        let mut i: usize = 0;
        while i < self.data.len()
            invariant
                i <= self.data@.len(),
                out@ == self.data@.take(i as int),
            decreases self.data@.len() - i,
        {
            out.push(self.data[i]);
            i += 1;
        }
        proof {
            assert(out@ =~= self.data@);
        }
        out
    }
}

} // verus!
