//! What the decoders and encoders of frames share: the result of decoding a
//! buffer that may still be incomplete, and sixteen-bit integers in network
//! byte order.

use byteorder::{ByteOrder, NetworkEndian};
use vstd::prelude::*;

verus! {

/// What a decoder makes of the bytes received so far.
#[derive(Debug, PartialEq, Eq)]
pub enum Decoded<T> {
    /// The frame is not complete: no verdict is possible before the buffer
    /// holds this many bytes in all.
    NeedMore(usize),
    /// The frame has been read as far as the verdict needs it.
    Ready(T),
}

impl<T: View> View for Decoded<T> {
    type V = Decoded<T::V>;

    open spec fn view(&self) -> Decoded<T::V> {
        match self {
            Decoded::NeedMore(total) => Decoded::NeedMore(*total),
            Decoded::Ready(verdict) => Decoded::Ready(verdict@),
        }
    }
}

/// The integer whose big-endian encoding is `hi` followed by `lo`.
pub open spec fn be_u16(hi: u8, lo: u8) -> u16 {
    (hi * 256 + lo) as u16
}

/// The two bytes of `n` in network byte order, most significant first.
pub open spec fn be_bytes(n: u16) -> Seq<u8> {
    seq![(n / 256) as u8, (n % 256) as u8]
}

/// `byteorder::NetworkEndian::read_u16`: decodes the first two bytes of `buf`
/// as a big-endian integer. The outside function panics on a shorter buffer,
/// which the precondition rules out.
#[verifier::external_body]
pub(crate) fn read_u16(buf: &[u8]) -> (n: u16)
    requires
        buf@.len() >= 2,
    ensures
        n == be_u16(buf@[0], buf@[1]),
{
    NetworkEndian::read_u16(buf)
}

/// `byteorder::NetworkEndian::write_u16`: stores `n` in `buf`, most
/// significant byte first.
#[verifier::external_body]
pub(crate) fn write_u16(buf: &mut [u8; 2], n: u16)
    ensures
        final(buf)@ == be_bytes(n),
{
    NetworkEndian::write_u16(buf, n)
}

/// Appends `src` to `dst`.
pub(crate) fn append_bytes(dst: &mut Vec<u8>, src: &[u8])
    ensures
        final(dst)@ == old(dst)@ + src@,
{
    let mut i: usize = 0;
    while i < src.len()
        invariant
            i <= src@.len(),
            dst@ == old(dst)@ + src@.subrange(0, i as int),
        decreases src@.len() - i,
    {
        dst.push(src[i]);
        i += 1;
        assert(dst@ =~= old(dst)@ + src@.subrange(0, i as int));
    }
    assert(src@.subrange(0, i as int) =~= src@);
}

/// Decoding the encoding of a port gives the port back.
pub proof fn lemma_be_u16_of_be_bytes(n: u16)
    ensures
        be_bytes(n).len() == 2,
        be_u16(be_bytes(n)[0], be_bytes(n)[1]) == n,
{
}

/// Encoding the integer that two bytes decode to gives the two bytes back.
pub proof fn lemma_be_bytes_of_be_u16(hi: u8, lo: u8)
    ensures
        be_bytes(be_u16(hi, lo)) == seq![hi, lo],
{
    assert(be_bytes(be_u16(hi, lo)) =~= seq![hi, lo]);
}

} // verus!
