//! Byte buffers that are filled at the back and drained at the front.
use bytes::BytesMut;
use vstd::prelude::*;

verus! {

/// Declares `bytes::BytesMut` as an opaque type.
#[verifier::external_type_specification]
#[verifier::external_body]
pub struct ExBytesMut(bytes::BytesMut);

/// The bytes that a buffer holds, first in first.
pub uninterp spec fn buffered(buffer: BytesMut) -> Seq<u8>;

/// The most bytes that a buffer can be asked to hold.
pub const MAX_BUFFERED: usize = usize::MAX / 16;

/// `BytesMut::new`: a buffer that holds nothing.
#[verifier::external_body]
pub(crate) fn empty_buffer() -> (r: BytesMut)
    ensures
        buffered(r) == Seq::<u8>::empty(),
{
    BytesMut::new()
}

/// `BytesMut::len`: the number of bytes held.
#[verifier::external_body]
pub(crate) fn buffer_len(buffer: &BytesMut) -> (r: usize)
    ensures
        r == buffered(*buffer).len(),
{
    buffer.len()
}

/// `BytesMut::extend_from_slice`: appends `data`. The buffer's growth panics where a capacity
/// leaves the address space, which `MAX_BUFFERED` keeps far away.
#[verifier::external_body]
pub(crate) fn append(buffer: &mut BytesMut, data: &[u8])
    requires
        buffered(*old(buffer)).len() + data@.len() <= MAX_BUFFERED,
    ensures
        buffered(*final(buffer)) == buffered(*old(buffer)) + data@,
{
    buffer.extend_from_slice(data)
}

/// `BytesMut::split_to`: takes the first `at` bytes out; it panics where fewer are held.
#[verifier::external_body]
pub(crate) fn take_front(buffer: &mut BytesMut, at: usize) -> (r: Vec<u8>)
    requires
        at <= buffered(*old(buffer)).len(),
    ensures
        r@ == buffered(*old(buffer)).take(at as int),
        buffered(*final(buffer)) == buffered(*old(buffer)).skip(at as int),
{
    buffer.split_to(at).to_vec()
}

/// The larger number of bytes that both `held` and `wanted` allow.
pub open spec fn at_most(held: nat, wanted: nat) -> nat {
    if held <= wanted {
        held
    } else {
        wanted
    }
}

/// Takes as many bytes out of the front as `max` allows and the buffer holds.
pub(crate) fn drain_front(buffer: &mut BytesMut, max: usize) -> (r: Vec<u8>)
    ensures
        r@.len() == at_most(buffered(*old(buffer)).len(), max as nat),
        r@ == buffered(*old(buffer)).take(r@.len() as int),
        buffered(*final(buffer)) == buffered(*old(buffer)).skip(r@.len() as int),
{
    let held: usize = buffer_len(buffer);
    let at: usize = if held <= max {
        held
    } else {
        max
    };
    take_front(buffer, at)
}

/// Fills the front of `out` with bytes out of the front of the buffer, as many as both allow;
/// returns their number.
pub(crate) fn read_into(buffer: &mut BytesMut, out: &mut [u8]) -> (n: usize)
    ensures
        n == at_most(buffered(*old(buffer)).len(), old(out)@.len()),
        buffered(*final(buffer)) == buffered(*old(buffer)).skip(n as int),
        final(out)@ == buffered(*old(buffer)).take(n as int) + old(out)@.skip(n as int),
{
    let taken = drain_front(buffer, out.len());
    let n: usize = taken.len();
    let mut i: usize = 0;
    while i < n
        invariant
            n == taken@.len(),
            i <= n <= out@.len(),
            out@ == taken@.take(i as int) + old(out)@.skip(i as int),
            old(out)@.len() == out@.len(),
        decreases n - i,
    {
        out[i] = taken[i];
        proof {
            assert(out@ =~= taken@.take(i + 1) + old(out)@.skip(i + 1));
        }
        i += 1;
    }
    proof {
        assert(taken@.take(n as int) =~= taken@);
    }
    n
}

/// As many bytes are handed over as there are and as are wanted: never more than either, and no
/// fewer than both allow.
pub proof fn law_as_many_as_both_allow(held: nat, wanted: nat)
    ensures
        at_most(held, wanted) <= held,
        at_most(held, wanted) <= wanted,
        at_most(held, wanted) == held || at_most(held, wanted) == wanted,
{
}

} // verus!
