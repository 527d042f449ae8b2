//! The byte buffers between a client and its backend.
//!
//! A buffer has two faces. A `MutByteBuf` is being filled; a `ByteBuf` is
//! being emptied. `flip` turns one into the other, and the way back throws
//! away what has not been taken out.

use bytes::{Buf, ByteBuf, MutBuf, MutByteBuf};
use vstd::prelude::*;

verus! {

/// The buffer of the `bytes` crate that is being filled.
#[verifier::external_type_specification]
#[verifier::external_body]
pub struct ExMutByteBuf(bytes::MutByteBuf);

/// The buffer of the `bytes` crate that is being emptied.
#[verifier::external_type_specification]
#[verifier::external_body]
pub struct ExByteBuf(bytes::ByteBuf);

/// The bytes that have been put into a buffer since it was last empty.
pub uninterp spec fn written(buf: MutByteBuf) -> Seq<u8>;

/// The number of bytes that a buffer was made for.
pub uninterp spec fn write_capacity(buf: MutByteBuf) -> nat;

/// The bytes of a buffer that have not been taken out yet.
pub uninterp spec fn unread(buf: ByteBuf) -> Seq<u8>;

/// The number of bytes that a buffer was made for.
pub uninterp spec fn read_capacity(buf: ByteBuf) -> nat;

/// Whether a number is 1, 2, 4, 8 and so on.
pub open spec fn power_of_two(n: nat) -> bool
    decreases n,
{
    n == 1 || (n > 1 && n % 2 == 0 && power_of_two(n / 2))
}

/// `ByteBuf::mut_with_capacity`: an empty buffer. The crate rounds the capacity
/// up to a power of two, so one that is a power of two is kept as it is. It
/// refuses capacities beyond 32 bits, and an allocation of half the address
/// space or more fails on any machine.
pub assume_specification[ bytes::ByteBuf::mut_with_capacity ](capacity: usize) -> (buf: MutByteBuf)
    requires
        power_of_two(capacity as nat),
        capacity <= 0x4000_0000,
    ensures
        written(buf) == Seq::<u8>::empty(),
        write_capacity(buf) == capacity,
;

/// `MutByteBuf::flip`: what has been put in can now be taken out.
pub assume_specification[ bytes::MutByteBuf::flip ](buf: MutByteBuf) -> (flipped: ByteBuf)
    ensures
        unread(flipped) == written(buf),
        read_capacity(flipped) == write_capacity(buf),
;

/// `ByteBuf::flip`: the buffer is emptied, whatever had been left in it, and can
/// be filled again.
pub assume_specification[ bytes::ByteBuf::flip ](buf: ByteBuf) -> (flipped: MutByteBuf)
    ensures
        written(flipped) == Seq::<u8>::empty(),
        write_capacity(flipped) == read_capacity(buf),
;

/// `MutByteBuf::write_slice`: appends as many bytes of `src` as there is room for,
/// from its start, and returns how many. The crate counts the bytes in 32 bits.
pub assume_specification[ bytes::MutByteBuf::write_slice ](
    buf: &mut MutByteBuf,
    src: &[u8],
) -> (count: usize)
    requires
        src@.len() <= u32::MAX,
    ensures
        count == (if src@.len() <= write_capacity(*old(buf)) - written(*old(buf)).len() {
            src@.len() as int
        } else {
            write_capacity(*old(buf)) - written(*old(buf)).len()
        }),
        written(*final(buf)) == written(*old(buf)) + src@.take(count as int),
        write_capacity(*final(buf)) == write_capacity(*old(buf)),
;

/// `MutByteBuf::bytes`: the bytes that have been put in.
pub assume_specification<'a>[ bytes::MutByteBuf::bytes ](buf: &'a MutByteBuf) -> (data: &'a [u8])
    ensures
        data@ == written(*buf),
;

/// `MutBuf::remaining` of a `MutByteBuf`: the room that is left.
#[verifier::external_body]
pub(crate) fn room(buf: &MutByteBuf) -> (count: usize)
    ensures
        count == write_capacity(*buf) - written(*buf).len(),
{
    MutBuf::remaining(buf)
}

/// `Buf::remaining` of a `ByteBuf`: the number of bytes that can still be taken out.
#[verifier::external_body]
pub(crate) fn remaining(buf: &ByteBuf) -> (count: usize)
    ensures
        count == unread(*buf).len(),
{
    Buf::remaining(buf)
}

/// `Buf::advance` of a `ByteBuf`: takes out `count` bytes, or all of them where
/// there are fewer.
#[verifier::external_body]
pub(crate) fn advance(buf: &mut ByteBuf, count: usize)
    ensures
        unread(*final(buf)) == unread(*old(buf)).skip(
            if count <= unread(*old(buf)).len() {
                count as int
            } else {
                unread(*old(buf)).len() as int
            },
        ),
        read_capacity(*final(buf)) == read_capacity(*old(buf)),
{
    Buf::advance(buf, count)
}

} // verus!
