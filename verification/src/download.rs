//! Decisions of the first stage's TFTP downloads: where the server address
//! comes from, how large the receive buffer is, and when a file is complete.
use crate::wire::read_bytes4;
use vstd::prelude::*;

verus! {

/// The packet size that the first stage asks the server for.
pub const MAX_PACKET_SIZE: u16 = 1024;

/// The boot server's IPv4 address, at bytes 20..24 of the cached reply
/// packet (its `siaddr` field).
pub fn server_ip_address(cached_info: &[u8]) -> (r: [u8; 4])
    requires
        cached_info@.len() >= 24,
    ensures
        r@ == cached_info@.subrange(20, 24),
{
    read_bytes4(cached_info, 20)
}

/// The sum of a sequence of chunk lengths.
pub open spec fn total(chunks: Seq<usize>) -> int
    decreases chunks.len(),
{
    if chunks.len() == 0 {
        0
    } else {
        total(chunks.drop_last()) + chunks.last()
    }
}

/// The progress of one file download.
///
/// The file arrives in chunks of the negotiated packet size; the first
/// chunk that is shorter ends the file.
pub struct Download {
    packet_size: usize,
    len: usize,
    done: bool,
    chunks: Ghost<Seq<usize>>,
}

impl Download {
    /// The negotiated packet size.
    pub closed spec fn spec_packet_size(&self) -> usize {
        self.packet_size
    }

    /// The number of bytes received so far.
    pub closed spec fn spec_len(&self) -> usize {
        self.len
    }

    /// Whether the last chunk has arrived.
    pub closed spec fn spec_done(&self) -> bool {
        self.done
    }

    /// The lengths of the chunks received so far, in order.
    pub closed spec fn chunks(&self) -> Seq<usize> {
        self.chunks@
    }

    /// The bytes received are the sum of the chunk lengths; no chunk exceeds
    /// a packet; every chunk but
    /// the last is a full packet, and the download is done exactly when a
    /// chunk was shorter than a packet.
    pub open spec fn wf(&self) -> bool {
        &&& 0 < self.spec_packet_size() <= MAX_PACKET_SIZE
        &&& self.spec_len() == total(self.chunks())
        &&& forall|i: int|
            0 <= i < self.chunks().len() ==> #[trigger] self.chunks()[i]
                <= self.spec_packet_size()
        &&& forall|i: int|
            0 <= i < self.chunks().len() - 1 ==> #[trigger] self.chunks()[i]
                == self.spec_packet_size()
        &&& self.spec_done() == (self.chunks().len() > 0 && self.chunks().last()
            < self.spec_packet_size())
    }

    /// Starts a download with the packet size the server agreed to. The
    /// receive buffer is a prefix of a `MAX_PACKET_SIZE` buffer, and it must
    /// hold at least one byte.
    pub fn new(negotiated_packet_size: u16) -> (r: Self)
        requires
            0 < negotiated_packet_size <= MAX_PACKET_SIZE,
        ensures
            r.wf(),
            r.spec_packet_size() == negotiated_packet_size,
            r.spec_len() == 0,
            !r.spec_done(),
            r.chunks() == Seq::<usize>::empty(),
    {
        Download {
            packet_size: negotiated_packet_size as usize,
            len: 0,
            done: false,
            chunks: Ghost(Seq::empty()),
        }
    }

    /// The negotiated packet size, which is also the receive buffer's length.
    #[verifier::when_used_as_spec(spec_packet_size)]
    pub fn packet_size(&self) -> (r: usize)
        ensures
            r == self.spec_packet_size(),
    {
        self.packet_size
    }

    /// The number of bytes received so far.
    #[verifier::when_used_as_spec(spec_len)]
    pub fn len(&self) -> (r: usize)
        ensures
            r == self.spec_len(),
    {
        self.len
    }

    /// Whether the last chunk has arrived.
    #[verifier::when_used_as_spec(spec_done)]
    pub fn is_done(&self) -> (r: bool)
        ensures
            r == self.spec_done(),
    {
        self.done
    }

    /// Accounts for a received chunk, which fills the receive buffer at most.
    /// Returns whether the file is complete: the chunk was shorter than a
    /// packet. A file whose size is a whole number of packets ends with an
    /// empty chunk, which completes it without adding to its length.
    pub fn receive(&mut self, chunk_len: usize) -> (done: bool)
        requires
            old(self).wf(),
            !old(self).spec_done(),
            chunk_len <= old(self).spec_packet_size(),
            old(self).spec_len() + chunk_len <= usize::MAX,
        ensures
            final(self).wf(),
            final(self).spec_packet_size() == old(self).spec_packet_size(),
            final(self).chunks() == old(self).chunks().push(chunk_len),
            final(self).spec_len() == old(self).spec_len() + chunk_len,
            done == (chunk_len < old(self).spec_packet_size()),
            final(self).spec_done() == done,
    {
        let ghost old_chunks = self.chunks@;
        self.len = self.len + chunk_len;
        self.done = chunk_len < self.packet_size;
        self.chunks = Ghost(self.chunks@.push(chunk_len));
        proof {
            assert(self.chunks@.drop_last() =~= old_chunks);
            assert forall|i: int| 0 <= i < self.chunks@.len() - 1 implies #[trigger] self.chunks@[i]
                == self.packet_size by {
                assert(self.chunks@[i] == old_chunks[i]);
            }
            assert forall|i: int| 0 <= i < self.chunks@.len() implies #[trigger] self.chunks@[i]
                <= self.packet_size by {
                if i < old_chunks.len() {
                    assert(self.chunks@[i] == old_chunks[i]);
                }
            }
        }
        self.done
    }
}

/// A finished download holds whole packets followed by one short chunk: its
/// length is the packet size times the number of full packets, plus the
/// length of the last chunk, which is below the packet size.
pub proof fn lemma_finished_download_len(d: Download)
    requires
        d.wf(),
        d.spec_done(),
    ensures
        d.spec_len() == (d.chunks().len() - 1) * d.spec_packet_size() + d.chunks().last(),
        d.chunks().last() < d.spec_packet_size(),
{
    lemma_full_packets_total(d.chunks().drop_last(), d.spec_packet_size());
}

/// A sequence of full packets sums to its length times the packet size.
proof fn lemma_full_packets_total(chunks: Seq<usize>, packet_size: usize)
    requires
        forall|i: int| 0 <= i < chunks.len() ==> #[trigger] chunks[i] == packet_size,
    ensures
        total(chunks) == chunks.len() * packet_size,
    decreases chunks.len(),
{
    if chunks.len() > 0 {
        lemma_full_packets_total(chunks.drop_last(), packet_size);
        assert(total(chunks) == (chunks.len() - 1) * packet_size + packet_size);
        assert((chunks.len() - 1) * packet_size + packet_size == chunks.len() * packet_size)
            by (nonlinear_arith);
    }
}

} // verus!
