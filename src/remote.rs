use crate::data::{Data, Metadata};
use crate::error::Error;
use crate::http::{is_success, parse_length, range_header, range_value, spec_is_success, spec_parse_length};
use crate::origin::{full_path, spec_full_path};
use crate::slot::Slot;
use vstd::prelude::*;

verus! {

/// Where a seek moves the cursor to.
#[derive(Debug, Clone, Copy, PartialEq, Eq, Structural)]
pub enum SeekFrom {
    /// To this many bytes from the start.
    Start(u64),
    /// To this many bytes from the end.
    End(i64),
    /// By this many bytes from the current position.
    Current(i64),
}

/// The cursor that a seek from `cursor` to `pos` leaves on the remote
/// backend, or the failure.
///
/// A relative seek whose target falls below zero or past `u64::MAX` fails
/// with [`Error::Overflow`]. A seek from the end fails with
/// [`Error::Unsupported`]: the length is not known without a request, and a
/// seek makes none.
pub open spec fn spec_seek(cursor: u64, pos: SeekFrom) -> Result<u64, Error> {
    match pos {
        SeekFrom::Start(n) => Ok(n),
        SeekFrom::End(_) => Err(Error::Unsupported),
        SeekFrom::Current(d) => if 0 <= cursor + d <= u64::MAX {
            Ok((cursor + d) as u64)
        } else {
            Err(Error::Overflow)
        },
    }
}

/// A file on the remote backend: its path under the origin and a cursor that
/// only this handle keeps.
///
/// The cursor is bookkeeping: no request checks it against the file's length
/// until a read fails. A read does not move it.
#[derive(Debug)]
pub struct RemoteFile {
    path: String,
    cursor: u64,
}

impl RemoteFile {
    pub closed spec fn spec_path(&self) -> Seq<char> {
        self.path@
    }

    pub closed spec fn spec_cursor(&self) -> u64 {
        self.cursor
    }

    /// Opens `path` given what the existence check found: a handle with its
    /// cursor at zero where the resource exists, else [`Error::NotFound`].
    pub fn open(path: &str, found: bool) -> (r: Result<RemoteFile, Error>)
        ensures
            found ==> (r matches Ok(f) && f.spec_path() == path@ && f.spec_cursor() == 0),
            !found ==> r == Err::<RemoteFile, Error>(Error::NotFound),
    {
        if found {
            Ok(RemoteFile { path: String::from_str(path), cursor: 0 })
        } else {
            Err(Error::NotFound)
        }
    }

    /// The path under the origin.
    pub fn path(&self) -> (r: &str)
        ensures
            r@ == self.spec_path(),
    {
        self.path.as_str()
    }

    /// The cursor: where the next read starts.
    pub fn cursor(&self) -> (r: u64)
        ensures
            r == self.spec_cursor(),
    {
        self.cursor
    }

    /// Moves the cursor, without any request, and returns its new value.
    ///
    /// A failed seek leaves the cursor where it was.
    pub fn seek(&mut self, pos: SeekFrom) -> (r: Result<u64, Error>)
        ensures
            r == spec_seek(old(self).spec_cursor(), pos),
            final(self).spec_path() == old(self).spec_path(),
            final(self).spec_cursor() == match r {
                Ok(n) => n,
                Err(_) => old(self).spec_cursor(),
            },
    {
        match pos {
            SeekFrom::Start(n) => {
                self.cursor = n;
                Ok(n)
            },
            SeekFrom::End(_) => Err(Error::Unsupported),
            SeekFrom::Current(d) => {
                if d >= 0 {
                    let up = d as u64;
                    if self.cursor > u64::MAX - up {
                        Err(Error::Overflow)
                    } else {
                        self.cursor = self.cursor + up;
                        Ok(self.cursor)
                    }
                } else {
                    let down: u64 = if d == i64::MIN {
                        9223372036854775808u64
                    } else {
                        (-d) as u64
                    };
                    if self.cursor < down {
                        Err(Error::Overflow)
                    } else {
                        self.cursor = self.cursor - down;
                        Ok(self.cursor)
                    }
                }
            },
        }
    }

    /// The GET request that a read of `size` bytes sends: the file's URL
    /// under `origin`, and the `Range` header for bytes `cursor` to
    /// `cursor + size`.
    ///
    /// Fails with [`Error::Overflow`] where `cursor + size` exceeds
    /// `u64::MAX`.
    pub fn range_request(&self, origin: &str, size: usize) -> (r: Result<RangeRequest, Error>)
        ensures
            self.spec_cursor() + size <= u64::MAX ==> (r matches Ok(q) && q.url@ == spec_full_path(
                origin@,
                self.spec_path(),
            ) && q.range@ == range_value(
                self.spec_cursor() as nat,
                (self.spec_cursor() + size) as nat,
            )),
            self.spec_cursor() + size > u64::MAX ==> r == Err::<RangeRequest, Error>(
                Error::Overflow,
            ),
    {
        let len = size as u64;
        if self.cursor > u64::MAX - len {
            return Err(Error::Overflow);
        }
        let url = full_path(origin, self.path.as_str());
        let range = range_header(self.cursor, self.cursor + len);
        Ok(RangeRequest { url, range })
    }
}

/// A ranged GET request: the URL and the value of its `Range` header.
#[derive(Debug)]
pub struct RangeRequest {
    pub url: String,
    pub range: String,
}

/// Seeks a remote handle whose file sits in `handle`: the file is checked
/// out for the seek and checked back in after it, moved or not.
///
/// Where another operation has the file checked out, this fails with
/// [`Error::Busy`] and changes nothing.
pub fn seek_handle(handle: &mut Slot<RemoteFile>, pos: SeekFrom) -> (r: Result<u64, Error>)
    ensures
        old(handle).spec_is_busy() ==> r == Err::<u64, Error>(Error::Busy)
            && final(handle).spec_is_busy(),
        !old(handle).spec_is_busy() ==> ({
            let f = old(handle).held()->Some_0;
            &&& r == spec_seek(f.spec_cursor(), pos)
            &&& final(handle).held() matches Some(g)
            &&& g.spec_path() == f.spec_path()
            &&& g.spec_cursor() == match r {
                Ok(n) => n,
                Err(_) => f.spec_cursor(),
            }
        }),
{
    match handle.check_out() {
        Err(e) => Err(e),
        Ok(mut f) => {
            let r = f.seek(pos);
            handle.check_in(f);
            r
        },
    }
}

/// The buffer that a read of `size` bytes holds after `data` took in
/// `chunk`: as much of the chunk as still fits.
pub open spec fn absorb(size: nat, data: Seq<u8>, chunk: Seq<u8>) -> Seq<u8> {
    if data.len() + chunk.len() <= size {
        data + chunk
    } else {
        data + chunk.take(size - data.len())
    }
}

/// The buffer that a read of `size` bytes returns after the body arrived in
/// `chunks` and the stream ended.
pub open spec fn accumulate(size: nat, chunks: Seq<Seq<u8>>) -> Seq<u8>
    decreases chunks.len(),
{
    if chunks.len() == 0 {
        Seq::empty()
    } else {
        absorb(size, accumulate(size, chunks.drop_last()), chunks.last())
    }
}

/// A remote read in progress: the bytes of the body taken in so far, never
/// more than the size asked for.
#[derive(Debug)]
pub struct RemoteRead {
    size: usize,
    data: Vec<u8>,
}

impl RemoteRead {
    /// The buffer never holds more than the size asked for.
    pub open spec fn wf(&self) -> bool {
        self.spec_data().len() <= self.spec_size()
    }

    pub closed spec fn spec_size(&self) -> nat {
        self.size as nat
    }

    pub closed spec fn spec_data(&self) -> Seq<u8> {
        self.data@
    }

    /// Starts a read of `size` bytes from the response to its ranged GET:
    /// fails with [`Error::HttpStatus`] where `status` is not a success, else
    /// with [`Error::NoBody`] where the response has no body.
    pub fn begin(size: usize, status: u16, has_body: bool) -> (r: Result<RemoteRead, Error>)
        ensures
            !spec_is_success(status) ==> r == Err::<RemoteRead, Error>(Error::HttpStatus(status)),
            spec_is_success(status) && !has_body ==> r == Err::<RemoteRead, Error>(Error::NoBody),
            spec_is_success(status) && has_body ==> (r matches Ok(rr) && rr.spec_size() == size
                && rr.spec_data() == Seq::<u8>::empty() && rr.wf()),
    {
        if !is_success(status) {
            return Err(Error::HttpStatus(status));
        }
        if !has_body {
            return Err(Error::NoBody);
        }
        Ok(RemoteRead { size, data: Vec::new() })
    }

    /// Whether the buffer holds the full size asked for, so that no more of
    /// the body is needed.
    pub fn is_full(&self) -> (r: bool)
        ensures
            r == (self.spec_data().len() == self.spec_size()),
    {
        self.data.len() == self.size
    }

    /// Takes in the next chunk of the body, as much of it as fits; returns
    /// whether the buffer is now full.
    pub fn take_chunk(&mut self, chunk: &[u8]) -> (r: bool)
        requires
            old(self).wf(),
        ensures
            final(self).wf(),
            final(self).spec_size() == old(self).spec_size(),
            final(self).spec_data() == absorb(
                old(self).spec_size(),
                old(self).spec_data(),
                chunk@,
            ),
            r == (final(self).spec_data().len() == final(self).spec_size()),
    {
        let room = self.size - self.data.len();
        let n = if chunk.len() <= room {
            chunk.len()
        } else {
            room
        };
        let mut i: usize = 0;
        while i < n
            invariant
                n <= chunk@.len(),
                i <= n,
                self.size == old(self).size,
                old(self).data@.len() + n <= self.size,
                self.data@ == old(self).data@ + chunk@.take(i as int),
            decreases n - i,
        {
            proof {
                assert(chunk@.take(i + 1) =~= chunk@.take(i as int).push(chunk@[i as int]));
            }
            self.data.push(chunk[i]);
            i = i + 1;
        }
        proof {
            if chunk@.len() <= room {
                assert(chunk@.take(n as int) =~= chunk@);
            }
        }
        self.data.len() == self.size
    }

    /// The bytes read, as a buffer.
    pub fn finish(self) -> (r: Data)
        requires
            self.wf(),
        ensures
            r@ == self.spec_data(),
            r@.len() <= self.spec_size(),
    {
        Data::from_vec(self.data)
    }
}

/// The metadata that a HEAD response gives: the value of its length header.
///
/// A status outside the success range fails with [`Error::HttpStatus`]; an
/// absent length header, or one that is not a decimal `u64`, fails with
/// [`Error::BadLength`].
pub fn metadata_from_head(status: u16, length: Option<&str>) -> (r: Result<Metadata, Error>)
    ensures
        !spec_is_success(status) ==> r == Err::<Metadata, Error>(Error::HttpStatus(status)),
        spec_is_success(status) ==> r == match length {
            None => Err::<Metadata, Error>(Error::BadLength),
            Some(l) => match spec_parse_length(l@) {
                Some(n) => Ok(Metadata { len: n }),
                None => Err(Error::BadLength),
            },
        },
{
    if !is_success(status) {
        return Err(Error::HttpStatus(status));
    }
    match length {
        None => Err(Error::BadLength),
        Some(l) => match parse_length(l) {
            Some(n) => Ok(Metadata::new(n)),
            None => Err(Error::BadLength),
        },
    }
}

/// Whether a HEAD request shows the resource present: it got a response, and
/// its status is a success. A transport failure counts as absent.
pub fn exists_from_head(response: Result<u16, Error>) -> (r: bool)
    ensures
        r == (response matches Ok(status) && spec_is_success(status)),
{
    match response {
        Ok(status) => is_success(status),
        Err(_) => false,
    }
}

/// Seeking to the start, then 100 bytes forward, then 100 bytes back leaves
/// the cursor at zero, whatever it was before.
pub proof fn lemma_seek_forward_and_back(cursor: u64)
    ensures
        spec_seek(cursor, SeekFrom::Start(0)) == Ok::<u64, Error>(0),
        spec_seek(0, SeekFrom::Current(100)) == Ok::<u64, Error>(100),
        spec_seek(100, SeekFrom::Current(-100i64)) == Ok::<u64, Error>(0),
{
}

/// A relative seek that succeeds is undone by the opposite relative seek.
pub proof fn lemma_seek_current_undone(cursor: u64, delta: i64)
    requires
        delta != i64::MIN,
        spec_seek(cursor, SeekFrom::Current(delta)) is Ok,
    ensures
        spec_seek(
            spec_seek(cursor, SeekFrom::Current(delta))->Ok_0,
            SeekFrom::Current(-delta as i64),
        ) == Ok::<u64, Error>(cursor),
{
}

/// A read of `size` bytes returns the first bytes of the body: the whole body
/// where it is at most `size` bytes long, else exactly `size` bytes. So it
/// never returns more than `size` bytes, and fewer only where the body ended
/// first.
pub proof fn lemma_read_is_prefix_of_body(size: nat, chunks: Seq<Seq<u8>>)
    ensures
        accumulate(size, chunks) == chunks.flatten().take(
            if chunks.flatten().len() <= size {
                chunks.flatten().len() as int
            } else {
                size as int
            },
        ),
        accumulate(size, chunks).len() <= size,
        chunks.flatten().len() >= size ==> accumulate(size, chunks).len() == size,
    decreases chunks.len(),
{
    chunks.lemma_flatten_and_flatten_alt_are_equivalent();
    if chunks.len() == 0 {
        assert(chunks.flatten_alt() =~= Seq::<u8>::empty());
        assert(accumulate(size, chunks) =~= chunks.flatten().take(0));
    } else {
        let init = chunks.drop_last();
        lemma_read_is_prefix_of_body(size, init);
        init.lemma_flatten_and_flatten_alt_are_equivalent();
        let f = init.flatten();
        let last = chunks.last();
        let acc = accumulate(size, init);
        assert(chunks.flatten() == f + last);
        let whole = f + last;
        if f.len() >= size {
            assert(acc =~= f.take(size as int));
            assert(absorb(size, acc, last) =~= whole.take(size as int));
        } else if f.len() + last.len() <= size {
            assert(acc =~= f);
            assert(absorb(size, acc, last) =~= whole.take(whole.len() as int));
        } else {
            assert(acc =~= f);
            assert(absorb(size, acc, last) =~= whole.take(size as int));
        }
    }
}

/// Reading as many bytes as a metadata request reported never returns more
/// than that length, and returns exactly that length where the body holds it.
pub proof fn lemma_read_of_reported_length(m: Metadata, chunks: Seq<Seq<u8>>)
    ensures
        accumulate(m.len as nat, chunks).len() <= m.len,
        chunks.flatten().len() >= m.len ==> accumulate(m.len as nat, chunks).len() == m.len,
{
    lemma_read_is_prefix_of_body(m.len as nat, chunks);
}

} // verus!
