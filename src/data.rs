use vstd::prelude::*;

verus! {

/// An immutable buffer of bytes that a read returned.
///
/// A read builds it only once the bytes are all in place, so no caller ever
/// holds a view into memory that a pending operation still writes.
#[derive(Debug, Hash)]
pub struct Data {
    bytes: Vec<u8>,
}

impl View for Data {
    type V = Seq<u8>;

    closed spec fn view(&self) -> Seq<u8> {
        self.bytes@
    }
}

/// Relies on `Vec::into_boxed_slice`: the boxed slice holds the same bytes.
#[verifier::external_body]
fn vec_into_boxed(v: Vec<u8>) -> (r: Box<[u8]>)
    ensures
        r@ == v@,
{
    v.into_boxed_slice()
}

impl Data {
    /// A buffer that holds the bytes of `v`.
    pub fn from_vec(v: Vec<u8>) -> (r: Data)
        ensures
            r@ == v@,
    {
        Data { bytes: v }
    }

    /// A buffer that holds the bytes of `bytes`.
    pub fn from(bytes: Box<[u8]>) -> (r: Data)
        ensures
            r@ == bytes@,
    {
        Data { bytes: bytes.into_vec() }
    }

    /// The bytes, as a boxed slice that the caller owns.
    pub fn into_boxed_slice(self) -> (r: Box<[u8]>)
        ensures
            r@ == self@,
    {
        vec_into_boxed(self.bytes)
    }

    /// The bytes, as a vector that the caller owns.
    pub fn into_vec(self) -> (r: Vec<u8>)
        ensures
            r@ == self@,
    {
        self.bytes
    }

    /// The bytes, borrowed.
    pub fn as_slice(&self) -> (r: &[u8])
        ensures
            r@ == self@,
    {
        self.bytes.as_slice()
    }

    /// The number of bytes.
    pub fn len(&self) -> (r: usize)
        ensures
            r == self@.len(),
    {
        self.bytes.len()
    }

    /// Whether the buffer holds no byte.
    pub fn is_empty(&self) -> (r: bool)
        ensures
            r == (self@.len() == 0),
    {
        self.bytes.len() == 0
    }
}

impl AsRef<[u8]> for Data {
    fn as_ref(&self) -> &[u8] {
        self.bytes.as_slice()
    }
}

impl core::ops::Deref for Data {
    type Target = [u8];

    fn deref(&self) -> &[u8] {
        self.bytes.as_slice()
    }
}

impl PartialEq for Data {
    fn eq(&self, other: &Data) -> (r: bool)
        ensures
            r == (self@ == other@),
    {
        let n = self.bytes.len();
        if n != other.bytes.len() {
            return false;
        }
        let mut i: usize = 0;
        while i < n
            invariant
                n == self@.len(),
                n == other@.len(),
                i <= n,
                forall|j: int| 0 <= j < i ==> self@[j] == other@[j],
            decreases n - i,
        {
            if self.bytes[i] != other.bytes[i] {
                return false;
            }
            i = i + 1;
        }
        proof {
            assert(self@ =~= other@);
        }
        true
    }
}

impl vstd::std_specs::cmp::PartialEqSpecImpl for Data {
    open spec fn obeys_eq_spec() -> bool {
        true
    }

    open spec fn eq_spec(&self, other: &Data) -> bool {
        self@ == other@
    }
}

impl Eq for Data {
}

/// What a metadata request learned of a file: its length in bytes.
///
/// It keeps no reference to the handle that produced it.
#[derive(Debug, Clone, Copy, PartialEq, Eq, Structural)]
pub struct Metadata {
    pub len: u64,
}

impl Metadata {
    /// Metadata of a file of `len` bytes.
    pub fn new(len: u64) -> (r: Metadata)
        ensures
            r.len == len,
    {
        Metadata { len }
    }

    /// The length of the file in bytes.
    pub fn len(&self) -> (r: u64)
        ensures
            r == self.len,
    {
        self.len
    }

    /// Whether the file is zero bytes long.
    pub fn is_empty(&self) -> (r: bool)
        ensures
            r == (self.len == 0),
    {
        self.len == 0
    }
}

} // verus!
