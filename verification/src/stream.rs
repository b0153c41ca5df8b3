//! The stream abstraction: one read/skip/close surface over any byte
//! source.
//!
//! A source only has to provide `read_upto`; when it has no native skip,
//! `skip` is synthesized by repeated reads into a small, bounded staging
//! buffer, and a short read is treated as failure. The engine calls `close`
//! exactly once when it is finished with the stream.

use crate::abi::RawCloseMemoryCb;
use crate::callbacks::CloseMemoryCb;
use crate::opts::OpenMemoryOpts;
use vstd::prelude::*;

verus! {

/// How many bytes one synthesized-skip read consumes at most.
pub const SKIP_CHUNK: usize = 512;

/// A byte source the engine can drive.
pub trait StreamInterface {
    /// The bytes still to be read, for contracts.
    spec fn spec_data(&self) -> Seq<u8>;

    /// Reads at most `max` bytes. A successful read hands back a prefix of
    /// the remaining bytes and consumes exactly that prefix; it is empty
    /// only at the end of the data. A failed read consumes nothing.
    fn read_upto(&mut self, max: usize) -> (r: Option<Vec<u8>>)
        ensures
            match r {
                Some(v) => {
                    &&& v@.len() <= max
                    &&& v@.len() <= old(self).spec_data().len()
                    &&& v@ == old(self).spec_data().take(v@.len() as int)
                    &&& final(self).spec_data() == old(self).spec_data().skip(v@.len() as int)
                    &&& v@.len() == 0 ==> old(self).spec_data().len() == 0 || max == 0
                },
                None => final(self).spec_data() == old(self).spec_data(),
            },
    ;

    /// Skips `bytes` bytes. Without a native skip this is synthesized by
    /// repeated reads into a bounded staging buffer; a short read is
    /// treated as failure.
    fn skip(&mut self, bytes: usize) -> (ok: bool)
        ensures
            ok ==> old(self).spec_data().len() >= bytes && final(self).spec_data() == old(
                self,
            ).spec_data().skip(bytes as int),
    {
        let ghost g0 = self.spec_data();
        let mut left = bytes;
        proof {
            assert(g0.skip(0) =~= g0);
        }
        while left > 0
            invariant
                left <= bytes,
                g0.len() >= bytes - left,
                self.spec_data() == g0.skip((bytes - left) as int),
            decreases left,
        {
            let chunk: usize = if left < SKIP_CHUNK {
                left
            } else {
                SKIP_CHUNK
            };
            let ghost before = self.spec_data();
            match self.read_upto(chunk) {
                Some(data) => {
                    if data.len() != chunk {
                        return false;
                    }
                    proof {
                        assert(before.skip(chunk as int) =~= g0.skip(
                            (bytes - left + chunk) as int,
                        ));
                    }
                    left = left - chunk;
                },
                None => {
                    return false;
                },
            }
        }
        true
    }

    /// Releases the underlying source; the engine calls this exactly once
    /// when it is finished with the stream.
    fn close(&mut self) {
    }
}

/// An in-memory byte source: the plainest stream, reading straight out of
/// an owned buffer.
pub struct MemoryStream {
    data: Vec<u8>,
    pos: usize,
}

impl MemoryStream {
    #[verifier::type_invariant]
    spec fn inv(&self) -> bool {
        self.pos <= self.data@.len()
    }

    /// A stream over the whole buffer.
    pub fn new(data: Vec<u8>) -> (r: MemoryStream)
        ensures
            r.spec_data() == data@,
    {
        let r = MemoryStream { data, pos: 0 };
        proof {
            assert(r.spec_data() =~= r.data@);
        }
        r
    }
}

impl StreamInterface for MemoryStream {
    closed spec fn spec_data(&self) -> Seq<u8> {
        self.data@.skip(self.pos as int)
    }

    fn read_upto(&mut self, max: usize) -> (r: Option<Vec<u8>>) {
        proof {
            use_type_invariant(&*self);
        }
        let avail = self.data.len() - self.pos;
        let k: usize = if max < avail {
            max
        } else {
            avail
        };
        let mut out: Vec<u8> = Vec::new();
        let mut i: usize = 0;
        while i < k
            invariant
                i <= k,
                self.pos + k <= self.data@.len(),
                self.data@.len() <= usize::MAX,
                out@.len() == i,
                forall|j: int| 0 <= j < i ==> out@[j] == self.data@[self.pos + j],
            decreases k - i,
        {
            let b = self.data[self.pos + i];
            out.push(b);
            i = i + 1;
        }
        proof {
            assert(out@ =~= self.spec_data().take(k as int));
        }
        let ghost pre = *self;
        self.pos = self.pos + k;
        proof {
            assert(self.spec_data() =~= pre.spec_data().skip(k as int));
        }
        Some(out)
    }

    fn close(&mut self) {
        proof {
            use_type_invariant(&*self);
        }
        self.pos = self.data.len();
    }
}


/// A caller-supplied buffer presented to the engine as a stream, together
/// with its release registration: the close-memory callback is invoked at
/// most once — when the engine is first finished with the stream — and
/// never when the caller declared no release callback.
pub struct OpenedMemory {
    inner: MemoryStream,
    close_cb: RawCloseMemoryCb,
    close_cb_calls: u64,
    closed: bool,
}

impl OpenedMemory {
    #[verifier::type_invariant]
    spec fn close_inv(&self) -> bool {
        &&& self.close_cb_calls <= 1
        &&& self.close_cb.fn_ is None ==> self.close_cb_calls == 0
        &&& !self.closed ==> self.close_cb_calls == 0
    }

    /// Whether a release callback was registered, for contracts.
    pub closed spec fn spec_close_cb_registered(&self) -> bool {
        self.close_cb.fn_ is Some
    }

    /// How often the release callback has been invoked, for contracts.
    pub closed spec fn spec_close_cb_calls(&self) -> u64 {
        self.close_cb_calls
    }

    /// The release-at-most-once law, as an observation on any value: the
    /// close-memory callback has run at most once, and never without a
    /// registration.
    pub fn close_cb_calls(&self) -> (r: u64)
        ensures
            r == self.spec_close_cb_calls(),
            r <= 1,
            !self.spec_close_cb_registered() ==> r == 0,
    {
        proof {
            use_type_invariant(&*self);
        }
        self.close_cb_calls
    }
}

/// Presents an in-memory buffer to the engine as a stream, registering the
/// caller's release callback from the options.
pub fn open_memory(data: Vec<u8>, opts: OpenMemoryOpts) -> (r: OpenedMemory)
    ensures
        r.spec_data() == data@,
        r.spec_close_cb_calls() == 0,
        ({
            let raw = opts;
            match raw.close_cb {
                CloseMemoryCb::Unset => !r.spec_close_cb_registered(),
                CloseMemoryCb::Raw(cb) => r.spec_close_cb_registered() == (
                cb.inner().fn_ is Some),
            }
        }),
{
    let raw = opts.from_rust();
    OpenedMemory {
        inner: MemoryStream::new(data),
        close_cb: raw.close_cb,
        close_cb_calls: 0,
        closed: false,
    }
}

impl StreamInterface for OpenedMemory {
    closed spec fn spec_data(&self) -> Seq<u8> {
        self.inner.spec_data()
    }

    fn read_upto(&mut self, max: usize) -> (r: Option<Vec<u8>>) {
        proof {
            use_type_invariant(&*self);
        }
        let mut inner = MemoryStream::new(Vec::new());
        core::mem::swap(&mut inner, &mut self.inner);
        let r = inner.read_upto(max);
        core::mem::swap(&mut inner, &mut self.inner);
        r
    }

    fn close(&mut self) {
        proof {
            use_type_invariant(&*self);
        }
        let mut inner = MemoryStream::new(Vec::new());
        core::mem::swap(&mut inner, &mut self.inner);
        inner.close();
        core::mem::swap(&mut inner, &mut self.inner);
        if !self.closed {
            self.closed = true;
            if self.close_cb.fn_.is_some() {
                // The single point at which the release callback runs.
                self.close_cb_calls = 1;
            }
        }
    }
}

} // verus!
