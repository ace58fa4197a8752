use vstd::prelude::*;

verus! {

/// Growable byte queue absorbing bursty audio delivery.
///
/// The queue keeps its bytes oldest-first. `capacity` records how much
/// storage has been promised so far; `write` always succeeds and grows the
/// promise on demand, `reserve` grows it ahead of time so that writers can
/// decide whether to proceed.
pub struct Buffer {
    data: Vec<u8>,
    capacity: usize,
}

impl View for Buffer {
    type V = Seq<u8>;

    closed spec fn view(&self) -> Seq<u8> {
        self.data@
    }
}

impl Buffer {
    /// Bytes of storage promised to future writes.
    pub closed spec fn cap(&self) -> int {
        self.capacity as int
    }

    /// Creates an empty buffer with the provided initial capacity.
    pub fn new(size: usize) -> (buffer: Buffer)
        ensures
            buffer@ == Seq::<u8>::empty(),
            buffer.cap() == size,
    {
        Buffer { data: Vec::new(), capacity: size }
    }

    /// Returns how many bytes are currently queued.
    pub fn available(&self) -> (count: usize)
        ensures
            count == self@.len(),
    {
        self.data.len()
    }

    /// Removes the oldest `size` bytes from the queue and returns them.
    pub fn read(&mut self, size: usize) -> (bytes: Vec<u8>)
        requires
            size <= old(self)@.len(),
        ensures
            bytes@ == old(self)@.take(size as int),
            final(self)@ == old(self)@.skip(size as int),
            final(self).cap() == old(self).cap(),
    {
        let mut bytes: Vec<u8> = Vec::new();
        let mut i: usize = 0;
        while i < size
            invariant
                i <= size,
                size <= self@.len(),
                bytes@ == self@.take(size as int).take(i as int),
            decreases size - i,
        {
            bytes.push(self.data[i]);
            i += 1;
        }
        let mut rest: Vec<u8> = Vec::new();
        let mut j: usize = size;
        while j < self.data.len()
            invariant
                size <= j <= self@.len(),
                rest@ == self@.skip(size as int).take(j - size),
            decreases self@.len() - j,
        {
            rest.push(self.data[j]);
            j += 1;
        }
        proof {
            assert(bytes@ =~= self@.take(size as int));
            assert(rest@ =~= self@.skip(size as int));
        }
        self.data = rest;
        bytes
    }

    /// Ensures at least `size` spare bytes are promised and returns the
    /// spare capacity, which is never less than `size`.
    pub fn reserve(&mut self, size: usize) -> (spare: usize)
        requires
            old(self)@.len() + size <= usize::MAX,
        ensures
            final(self)@ == old(self)@,
            final(self).cap() == vstd::math::max(old(self).cap(), old(self)@.len() + size as int),
            spare == final(self).cap() - final(self)@.len(),
            spare >= size,
    {
        let needed = self.data.len() + size;
        if self.capacity < needed {
            self.capacity = needed;
        }
        self.capacity - self.data.len()
    }

    /// Appends the provided bytes to the queue; always succeeds, growing
    /// the promised capacity if it was exhausted.
    pub fn write(&mut self, bytes: &[u8])
        requires
            old(self)@.len() + bytes@.len() <= usize::MAX,
        ensures
            final(self)@ == old(self)@ + bytes@,
            final(self).cap() == vstd::math::max(old(self).cap(), old(self)@.len() + bytes@.len() as int),
    {
        let needed = self.data.len() + bytes.len();
        if self.capacity < needed {
            self.capacity = needed;
        }
        let mut i: usize = 0;
        while i < bytes.len()
            invariant
                i <= bytes@.len(),
                self.data@ == old(self)@ + bytes@.take(i as int),
                self.capacity as int == vstd::math::max(old(self).cap(), old(self)@.len() + bytes@.len() as int),
            decreases bytes@.len() - i,
        {
            self.data.push(bytes[i]);
            i += 1;
        }
        proof {
            assert(self.data@ =~= old(self)@ + bytes@);
        }
    }
}

/// Total number of bytes across a sequence of chunks.
pub open spec fn total_len(chunks: Seq<Seq<u8>>) -> int
    decreases chunks.len(),
{
    if chunks.len() == 0 {
        0
    } else {
        total_len(chunks.drop_last()) + chunks.last().len()
    }
}

/// Queue contents after writing every chunk in order.
pub open spec fn after_writes(contents: Seq<u8>, chunks: Seq<Seq<u8>>) -> Seq<u8>
    decreases chunks.len(),
{
    if chunks.len() == 0 {
        contents
    } else {
        after_writes(contents, chunks.drop_last()) + chunks.last()
    }
}

/// Law: however many writes are performed, the number of queued bytes is
/// the number queued before plus the sum of the written chunk sizes.
/// Together with `read`'s contract (which removes exactly the bytes read)
/// this pins down `available` for every write/read sequence.
pub proof fn lemma_available_after_writes(contents: Seq<u8>, chunks: Seq<Seq<u8>>)
    ensures
        after_writes(contents, chunks).len() == contents.len() + total_len(chunks),
    decreases chunks.len(),
{
    if chunks.len() > 0 {
        lemma_available_after_writes(contents, chunks.drop_last());
    }
}

} // verus!
