use vstd::prelude::*;

verus! {

/// The bytes of `data` after writing `bytes` at `pos`: what lay before `pos`
/// stays, `bytes` replace what lay under them, and the buffer grows where
/// they run past its end.
pub open spec fn overwrite(data: Seq<u8>, pos: nat, bytes: Seq<u8>) -> Seq<u8> {
    if pos + bytes.len() < data.len() {
        data.subrange(0, pos as int) + bytes + data.subrange((pos + bytes.len()) as int, data.len() as int)
    } else {
        data.subrange(0, pos as int) + bytes
    }
}

/// An in-memory audio buffer with a read/write position, held until it is
/// played.
pub struct AudioBuffer {
    data: Vec<u8>,
    position: usize,
}

impl AudioBuffer {
    /// The bytes held.
    pub closed spec fn data_spec(&self) -> Seq<u8> {
        self.data@
    }

    /// The position at which the next write or read starts.
    pub closed spec fn position_spec(&self) -> nat {
        self.position as nat
    }

    /// The position never lies past the end of the bytes.
    pub open spec fn wf(&self) -> bool {
        self.position_spec() <= self.data_spec().len()
    }

    /// An empty buffer at position zero.
    pub fn new() -> (r: AudioBuffer)
        ensures
            r.wf(),
            r.data_spec() == Seq::<u8>::empty(),
            r.position_spec() == 0,
    {
        AudioBuffer { data: Vec::new(), position: 0 }
    }

    /// Writes `bytes` at the position and moves the position past them.
    pub fn write_all(&mut self, bytes: &[u8])
        requires
            old(self).wf(),
            old(self).position_spec() + bytes@.len() <= usize::MAX,
        ensures
            final(self).wf(),
            final(self).data_spec() == overwrite(
                old(self).data_spec(),
                old(self).position_spec(),
                bytes@,
            ),
            final(self).position_spec() == old(self).position_spec() + bytes@.len(),
    {
        let ghost d0 = self.data@;
        let ghost start = self.position as nat;
        let n = bytes.len();
        let mut i: usize = 0;
        while i < n
            invariant
                n == bytes@.len(),
                i <= n,
                start + n <= usize::MAX,
                start <= d0.len(),
                self.position == start + i,
                self.position <= self.data@.len(),
                self.data@ == overwrite(d0, start, bytes@.subrange(0, i as int)),
            decreases n - i,
        {
            let b = bytes[i];
            let ghost before = self.data@;
            if self.position < self.data.len() {
                self.data.set(self.position, b);
            } else {
                self.data.push(b);
            }
            self.position = self.position + 1;
            i = i + 1;
            proof {
                let s = bytes@.subrange(0, i as int);
                let s0 = bytes@.subrange(0, i - 1);
                assert(s == s0.push(b));
                assert(self.data@ =~= overwrite(d0, start, s));
            }
        }
        proof {
            assert(bytes@.subrange(0, n as int) =~= bytes@);
        }
    }

    /// Moves the position back to the first byte.
    pub fn seek_to_start(&mut self)
        ensures
            final(self).data_spec() == old(self).data_spec(),
            final(self).position_spec() == 0,
            final(self).wf(),
    {
        self.position = 0;
    }

    /// A buffer that holds a copy of `bytes`, ready to be read from its
    /// first byte.
    pub fn from_bytes(bytes: &[u8]) -> (r: AudioBuffer)
        ensures
            r.wf(),
            r.data_spec() == bytes@,
            r.position_spec() == 0,
    {
        let mut buffer = AudioBuffer { data: Vec::with_capacity(bytes.len()), position: 0 };
        buffer.write_all(bytes);
        buffer.seek_to_start();
        proof {
            lemma_buffer_round_trip(bytes@);
        }
        buffer
    }

    /// The bytes held.
    pub fn bytes(&self) -> (r: &Vec<u8>)
        ensures
            r@ == self.data_spec(),
    {
        &self.data
    }

    /// The position at which the next write or read starts.
    pub fn position(&self) -> (r: usize)
        ensures
            r == self.position_spec(),
    {
        self.position
    }

    /// The number of bytes held.
    pub fn len(&self) -> (r: usize)
        ensures
            r == self.data_spec().len(),
    {
        self.data.len()
    }

    /// Gives up the buffer and hands back its bytes.
    pub fn into_bytes(self) -> (r: Vec<u8>)
        ensures
            r@ == self.data_spec(),
    {
        self.data
    }
}

/// Writing bytes into an empty buffer from its start leaves exactly those
/// bytes in it, of the same length.
pub proof fn lemma_buffer_round_trip(bytes: Seq<u8>)
    ensures
        overwrite(Seq::<u8>::empty(), 0, bytes) == bytes,
        overwrite(Seq::<u8>::empty(), 0, bytes).len() == bytes.len(),
{
    assert(overwrite(Seq::<u8>::empty(), 0, bytes) =~= bytes);
}

} // verus!
