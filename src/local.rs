use crate::data::{Data, Metadata};
use crate::error::Error;
use vstd::prelude::*;

verus! {

/// `size` zero bytes.
pub open spec fn zeros(size: nat) -> Seq<u8> {
    Seq::new(size, |i: int| 0u8)
}

/// The buffer that a local read of `size` bytes hands to the read call:
/// `size` zero bytes, allocated by the backend rather than the caller.
pub fn zeroed_buffer(size: usize) -> (r: Vec<u8>)
    ensures
        r@ == zeros(size as nat),
{
    let mut v: Vec<u8> = Vec::with_capacity(size);
    let mut i: usize = 0;
    while i < size
        invariant
            i <= size,
            v@ == zeros(i as nat),
        decreases size - i,
    {
        v.push(0u8);
        i = i + 1;
        proof {
            assert(v@ =~= zeros(i as nat));
        }
    }
    v
}

/// The first `count` bytes of `buf`, or all of them where it is shorter.
pub open spec fn spec_read_result(buf: Seq<u8>, count: nat) -> Seq<u8> {
    if count <= buf.len() {
        buf.take(count as int)
    } else {
        buf
    }
}

/// The buffer that a local read returns once the read call reported `count`
/// bytes read into `buf`: `buf` cut to that count. A count below the size
/// asked for (end of file, a short read) is no error.
pub fn finish_read(buf: Vec<u8>, count: usize) -> (r: Data)
    ensures
        r@ == spec_read_result(buf@, count as nat),
        r@.len() <= buf@.len(),
{
    let mut buf = buf;
    buf.truncate(count);
    Data::from_vec(buf)
}

/// The size that a read of the whole file asks for: its length from `m`,
/// where that fits in memory, else [`Error::TooLarge`].
pub fn read_all_size(m: &Metadata) -> (r: Result<usize, Error>)
    ensures
        m.len <= usize::MAX ==> r == Ok::<usize, Error>(m.len as usize),
        m.len > usize::MAX ==> r == Err::<usize, Error>(Error::TooLarge(m.len)),
{
    if m.len <= usize::MAX as u64 {
        Ok(m.len as usize)
    } else {
        Err(Error::TooLarge(m.len))
    }
}

} // verus!
