//! tokio's `ReadBuf`, the destination of a read: a fixed capacity, the prefix
//! of it filled so far, and the calls on it that the readers make.
use vstd::prelude::*;
use tokio::io::ReadBuf;

verus! {

#[verifier::external_type_specification]
#[verifier::external_body]
pub struct ExReadBuf<'a>(ReadBuf<'a>);

/// The bytes a destination has been filled with so far.
pub uninterp spec fn filled_of(buf: ReadBuf<'_>) -> Seq<u8>;

/// How many bytes a destination holds in all.
pub uninterp spec fn capacity_of(buf: ReadBuf<'_>) -> nat;

/// The room left in a destination.
pub open spec fn room_of(buf: ReadBuf<'_>) -> nat {
    (capacity_of(buf) - filled_of(buf).len()) as nat
}

/// Relies on `ReadBuf::remaining`: the capacity less the filled part, which
/// never exceeds the capacity.
#[verifier::external_body]
pub fn remaining(buf: &ReadBuf<'_>) -> (r: usize)
    ensures
        r + filled_of(*buf).len() == capacity_of(*buf),
{
    buf.remaining()
}

/// Relies on `ReadBuf::filled`: the filled part.
#[verifier::external_body]
pub fn filled<'a>(buf: &'a ReadBuf<'_>) -> (r: &'a [u8])
    ensures
        r@ == filled_of(*buf),
{
    buf.filled()
}

/// Relies on `ReadBuf::put_slice`: appends `data` to the filled part; it
/// panics when `data` does not fit in what remains.
#[verifier::external_body]
pub fn put_slice(buf: &mut ReadBuf<'_>, data: &[u8])
    requires
        filled_of(*old(buf)).len() + data@.len() <= capacity_of(*old(buf)),
    ensures
        filled_of(*final(buf)) == filled_of(*old(buf)) + data@,
        capacity_of(*final(buf)) == capacity_of(*old(buf)),
{
    buf.put_slice(data)
}

} // verus!
