use vstd::prelude::*;

verus! {

/// How many bytes a file is read in at a time.
pub const CHUNK_SIZE: usize = 1024;

/// The chunks in which a file holding `file` is read with a buffer of `size`
/// bytes: full buffers, then whatever is left, never an empty chunk.
pub open spec fn chunks_of(file: Seq<u8>, size: nat) -> Seq<Seq<u8>>
    decreases file.len(),
{
    if size == 0 || file.len() == 0 {
        Seq::empty()
    } else {
        let k: int = if file.len() < size {
            file.len() as int
        } else {
            size as int
        };
        seq![file.take(k)] + chunks_of(file.skip(k), size)
    }
}

/// Reading a file in chunks of `size` bytes and joining the chunks in order
/// gives back exactly the file's bytes, whatever its length: every chunk is
/// non-empty and no longer than `size`, so the last read (of zero bytes) marks
/// the end.
pub proof fn lemma_chunked_read_preserves_bytes(file: Seq<u8>, size: nat)
    requires
        size > 0,
    ensures
        chunks_of(file, size).flatten() == file,
        chunks_of(file, size).flatten().len() == file.len(),
        forall|i: int|
            0 <= i < chunks_of(file, size).len() ==> 0 < (#[trigger] chunks_of(file, size)[i]).len()
                <= size,
    decreases file.len(),
{
    if file.len() > 0 {
        let k: int = if file.len() < size {
            file.len() as int
        } else {
            size as int
        };
        lemma_chunked_read_preserves_bytes(file.skip(k), size);
        let cs = chunks_of(file, size);
        let rest = chunks_of(file.skip(k), size);
        assert(cs == seq![file.take(k)] + rest);
        assert(cs.first() == file.take(k));
        assert(cs.drop_first() =~= rest);
        assert(file.take(k) + file.skip(k) =~= file);
        assert forall|i: int| 0 <= i < cs.len() implies 0 < (#[trigger] cs[i]).len() <= size by {
            if i > 0 {
                assert(cs[i] == rest[i - 1]);
            }
        }
    }
}

/// The bytes of a file, accumulated chunk by chunk as they are read.
pub struct FileBuffer {
    content: Vec<u8>,
}

impl FileBuffer {
    /// The bytes accumulated so far.
    pub closed spec fn bytes(&self) -> Seq<u8> {
        self.content@
    }

    /// An empty buffer.
    pub fn new() -> (r: Self)
        ensures
            r.bytes() == Seq::<u8>::empty(),
    {
        FileBuffer { content: Vec::new() }
    }

    /// Appends the bytes of one read; returns whether reading should go on,
    /// which it should unless the read gave no bytes (the end of the file).
    pub fn absorb(&mut self, chunk: &[u8]) -> (more: bool)
        ensures
            more == (chunk@.len() > 0),
            final(self).bytes() == old(self).bytes() + chunk@,
    {
        let n = chunk.len();
        let mut i: usize = 0;
        while i < n
            invariant
                n == chunk@.len(),
                i <= n,
                self.content@ == old(self).content@ + chunk@.take(i as int),
            decreases n - i,
        {
            self.content.push(chunk[i]);
            proof {
                assert(chunk@.take(i + 1) =~= chunk@.take(i as int).push(chunk@[i as int]));
            }
            i = i + 1;
        }
        proof {
            assert(chunk@.take(n as int) =~= chunk@);
        }
        n > 0
    }

    /// How many bytes have been accumulated.
    pub fn len(&self) -> (r: usize)
        ensures
            r == self.bytes().len(),
    {
        self.content.len()
    }

    /// The accumulated bytes.
    pub fn into_bytes(self) -> (r: Vec<u8>)
        ensures
            r@ == self.bytes(),
    {
        self.content
    }
}

} // verus!
