//! The chunk splitter of the progress bridge: an outbound block of bytes is
//! handed out again in slices of at most one mebibyte, and each slice comes
//! with its length, for the caller to emit on its progress channel. The
//! bounded slices turn a transfer layer's coarse blocks into frequent,
//! evenly sized progress events.

use vstd::prelude::*;
use bytes::Bytes;

verus! {

/// The largest slice the splitter hands out: one mebibyte.
pub const CHUNK_SIZE: usize = 1048576;

#[verifier::external_type_specification]
#[verifier::external_body]
pub struct ExBytes(Bytes);

/// The bytes a `Bytes` buffer holds, in order.
pub uninterp spec fn bytes_view(b: Bytes) -> Seq<u8>;

/// Relies on `Bytes::len`: how many bytes the buffer holds.
#[verifier::external_body]
fn bytes_len(b: &Bytes) -> (r: usize)
    ensures
        r == bytes_view(*b).len(),
{
    b.len()
}

/// Relies on `Bytes::split_to`: the first `at` bytes are split off and
/// returned; the buffer keeps the rest.
#[verifier::external_body]
fn bytes_split_to(b: &mut Bytes, at: usize) -> (r: Bytes)
    requires
        at <= bytes_view(*old(b)).len(),
    ensures
        bytes_view(r) == bytes_view(*old(b)).take(at as int),
        bytes_view(*final(b)) == bytes_view(*old(b)).skip(at as int),
{
    b.split_to(at)
}

/// The slices the splitter will hand out for a block: each of at most
/// `CHUNK_SIZE` bytes, none empty, jointly the block itself.
pub open spec fn chunks_of(s: Seq<u8>) -> Seq<Seq<u8>>
    decreases s.len(),
{
    if s.len() == 0 {
        Seq::empty()
    } else if s.len() < CHUNK_SIZE {
        seq![s]
    } else {
        seq![s.take(CHUNK_SIZE as int)] + chunks_of(s.skip(CHUNK_SIZE as int))
    }
}

/// The slices of a block are bounded, non-empty, and concatenate back to
/// the block: splitting loses and reorders nothing, it only bounds the
/// granularity.
pub proof fn lemma_chunks_of(s: Seq<u8>)
    ensures
        chunks_of(s).flatten() == s,
        forall|i: int|
            0 <= i < chunks_of(s).len() ==> 0 < (#[trigger] chunks_of(s)[i]).len()
                <= CHUNK_SIZE,
    decreases s.len(),
{
    if s.len() == 0 {
        assert(chunks_of(s).flatten() =~= s);
    } else if s.len() < CHUNK_SIZE {
        assert(chunks_of(s) == seq![s]);
        chunks_of(s).lemma_flatten_one_element();
        assert(chunks_of(s).flatten() =~= s);
    } else {
        let head = s.take(CHUNK_SIZE as int);
        let tail = s.skip(CHUNK_SIZE as int);
        lemma_chunks_of(tail);
        assert(chunks_of(s).drop_first() =~= chunks_of(tail));
        assert(chunks_of(s).flatten() == head + chunks_of(tail).flatten());
        assert(chunks_of(s).flatten() =~= s);
    }
}

/// Relies on `Bytes::clone`: the clone holds the same bytes.
#[verifier::external_body]
fn bytes_clone(b: &Bytes) -> (r: Bytes)
    ensures
        bytes_view(r) == bytes_view(*b),
{
    b.clone()
}

/// One outbound block, being consumed slice by slice.
pub struct ChunkedBuffer {
    bytes: Bytes,
}

impl Clone for ChunkedBuffer {
    /// A transfer layer may clone a block to retry it; the clone holds the
    /// same remaining bytes.
    fn clone(&self) -> (r: Self)
        ensures
            r.remaining() == self.remaining(),
    {
        ChunkedBuffer { bytes: bytes_clone(&self.bytes) }
    }
}

impl ChunkedBuffer {
    /// The bytes not yet handed out.
    pub closed spec fn remaining(&self) -> Seq<u8> {
        bytes_view(self.bytes)
    }

    /// Wraps a block for splitting.
    pub fn new(bytes: Bytes) -> (r: ChunkedBuffer)
        ensures
            r.remaining() == bytes_view(bytes),
    {
        ChunkedBuffer { bytes }
    }

    /// How many bytes are still to be handed out.
    pub fn remaining_len(&self) -> (r: usize)
        ensures
            r == self.remaining().len(),
    {
        bytes_len(&self.bytes)
    }

    /// Hands out the next slice and the length to emit for it: up to
    /// `CHUNK_SIZE` bytes off the front of what remains. Once the block is
    /// exhausted, nothing more comes.
    pub fn progress(&mut self) -> (r: Option<(Bytes, u64)>)
        ensures
            r is None <==> old(self).remaining().len() == 0,
            r is None ==> final(self).remaining() == old(self).remaining(),
            r matches Some(p) ==> ({
                let n = if old(self).remaining().len() < CHUNK_SIZE {
                    old(self).remaining().len() as int
                } else {
                    CHUNK_SIZE as int
                };
                &&& p.1 == n
                &&& 0 < p.1 <= CHUNK_SIZE
                &&& bytes_view(p.0) == old(self).remaining().take(n)
                &&& final(self).remaining() == old(self).remaining().skip(n)
            }),
    {
        let n = bytes_len(&self.bytes);
        if n == 0 {
            None
        } else if n < CHUNK_SIZE {
            let slice = bytes_split_to(&mut self.bytes, n);
            Some((slice, n as u64))
        } else {
            let slice = bytes_split_to(&mut self.bytes, CHUNK_SIZE);
            Some((slice, CHUNK_SIZE as u64))
        }
    }
}

} // verus!
