//! The typed buffer handle.
//!
//! A [`Buffer`] wraps an opaque host reference known to be buffer-kind. It is
//! a capability-narrowed view of a generic handle: copyable, never an owner
//! of the backing bytes. Indexed access and string views delegate to the
//! host's raw-view query and perform their checks locally. A `Buffer` is
//! obtained either from a fresh allocation or through the checked downcast of
//! [`crate::value`]; every operation demands well-formedness against the host
//! it is used with, which only those two paths establish.

use vstd::prelude::*;
use vstd::utf8::decode_utf8;
use vstd::utf8::encode_utf8;
use vstd::utf8::valid_utf8;
use crate::encoding::utf8_str_view;
use crate::error::Throw;
use crate::error::Utf8Error;
use crate::host::Host;
use crate::host::Local;
use crate::value::Any;
use crate::value::SomeObject;

verus! {

/// A handle to a host value known to be buffer-kind.
#[derive(Clone, Copy)]
pub struct Buffer(Local);

impl Buffer {
    /// Well-formed against `host`: the host's type tag for the wrapped
    /// reference marks a buffer-kind value. Allocation and the checked
    /// downcast are the only paths that establish this.
    pub open spec fn wf(self, host: Host) -> bool {
        host.is_buffer_kind(self.raw())
    }

    /// The buffer's backing bytes, as the host holds them.
    pub open spec fn bytes(self, host: Host) -> Seq<u8>
        recommends
            self.wf(host),
    {
        host.bytes(self.raw())
    }

    /// Request a fresh buffer of exactly `size` bytes from the host. On
    /// success the new value is buffer-kind, zero-initialized, of length
    /// exactly `size`, and every value already live is untouched; the handle
    /// comes back in its generic form, to be narrowed by the caller if a
    /// typed handle is needed. The model host never reports an allocation
    /// failure, so the throwable channel is never taken here.
    pub fn new(host: &mut Host, size: u32) -> (r: Result<SomeObject, Throw>)
        ensures
            r is Ok,
            ({
                let g = r->Ok_0;
                &&& final(host).is_buffer_kind(g.raw())
                &&& final(host).bytes(g.raw()) == Seq::new(size as nat, |i: int| 0u8)
                &&& final(host).bytes(g.raw()).len() == size
                &&& final(host).slots@.len() == old(host).slots@.len() + 1
                &&& forall|j: int|
                    0 <= j < old(host).slots@.len() ==> final(host).slots@[j] == old(
                        host,
                    ).slots@[j]
            }),
    {
        let h = host.allocate(size);
        Ok(SomeObject::from_raw(h))
    }

    /// The raw view: ask the host for the buffer's live extent and expose it
    /// as a byte-slice view, valid while the host borrow lasts. Always
    /// succeeds for a well-formed handle; nothing is cached across calls.
    pub fn data<'a>(&self, host: &'a Host) -> (r: &'a [u8])
        requires
            self.wf(*host),
        ensures
            r@ == self.bytes(*host),
    {
        host.buffer_data(self.0)
    }

    /// The raw view in its mutable access mode: the same address range as
    /// [`Buffer::data`], writable. Whatever is written through it becomes
    /// this buffer's backing bytes; every other host value stays untouched.
    pub fn data_mut<'a>(&self, host: &'a mut Host) -> (r: &'a mut [u8])
        requires
            self.wf(*old(host)),
        ensures
            r@ == self.bytes(*old(host)),
            self.wf(*final(host)),
            self.bytes(*final(host)) == final(r)@,
            final(host).slots@.len() == old(host).slots@.len(),
            forall|j: int|
                0 <= j < old(host).slots@.len() && j != self.raw().id ==> final(host).slots@[j]
                    == old(host).slots@[j],
    {
        host.buffer_data_mut(self.0)
    }

    /// Read the byte at index `i`. An index at or past the buffer's length is
    /// a caller contract violation, not an environmental condition: it is
    /// excluded by precondition, so no value is ever returned for it.
    pub fn index(&self, host: &Host, i: usize) -> (b: u8)
        requires
            self.wf(*host),
            i < self.bytes(*host).len(),
        ensures
            b == self.bytes(*host)[i as int],
    {
        let d = self.data(host);
        d[i]
    }

    /// Borrow the byte at index `i` mutably. Writing through the borrow
    /// changes exactly that byte of this buffer: the length, every other
    /// byte, and every other host value stay as they were. Out-of-range
    /// indices are excluded exactly as in [`Buffer::index`].
    pub fn index_mut<'a>(&self, host: &'a mut Host, i: usize) -> (r: &'a mut u8)
        requires
            self.wf(*old(host)),
            i < self.bytes(*old(host)).len(),
        ensures
            *r == self.bytes(*old(host))[i as int],
            self.wf(*final(host)),
            self.bytes(*final(host)) == self.bytes(*old(host)).update(i as int, *final(r)),
            final(host).slots@.len() == old(host).slots@.len(),
            forall|j: int|
                0 <= j < old(host).slots@.len() && j != self.raw().id ==> final(host).slots@[j]
                    == old(host).slots@[j],
    {
        host.buffer_byte_mut(self.0, i)
    }

    /// A validated string view: UTF-8-validate the full raw view and return a
    /// borrowed string view over it — the reference decoding of the bytes —
    /// or the recoverable encoding failure exactly when some subsequence is
    /// invalid. Partial or lossy views are never produced.
    pub fn as_str<'a>(&self, host: &'a Host) -> (r: Result<&'a str, Utf8Error>)
        requires
            self.wf(*host),
        ensures
            match r {
                Ok(s) => valid_utf8(self.bytes(*host)) && s@ == decode_utf8(self.bytes(*host))
                    && encode_utf8(s@) == self.bytes(*host),
                Err(e) => !valid_utf8(self.bytes(*host)),
            },
    {
        match utf8_str_view(self.data(host)) {
            Some(s) => Ok(s),
            None => Err(Utf8Error),
        }
    }

    /// The same validating view with the encoding failure escalated to the
    /// throwable channel, carrying a fixed human-readable message, for
    /// contexts where only that channel exists.
    pub fn check_str<'a>(&self, host: &'a Host) -> (r: Result<&'a str, Throw>)
        requires
            self.wf(*host),
        ensures
            match r {
                Ok(s) => valid_utf8(self.bytes(*host)) && s@ == decode_utf8(self.bytes(*host))
                    && encode_utf8(s@) == self.bytes(*host),
                Err(t) => !valid_utf8(self.bytes(*host)) && t.msg@
                    == "buffer contents are invalid UTF-8"@,
            },
    {
        match self.as_str(host) {
            Ok(s) => Ok(s),
            Err(_) => Err(Throw { msg: "buffer contents are invalid UTF-8".to_owned() }),
        }
    }
}

impl Any for Buffer {
    closed spec fn raw(self) -> Local {
        self.0
    }

    /// A buffer handle is a proof of buffer-kind: the tag must say so.
    open spec fn kind_matches(host: Host, h: Local) -> bool {
        host.is_buffer_kind(h)
    }

    fn to_raw(self) -> Local {
        self.0
    }

    fn from_raw(h: Local) -> Self {
        Buffer(h)
    }

    fn is_typeof(host: &Host, other: Local) -> bool {
        host.type_tag_is_buffer(other)
    }
}

/// Law: downcast preserves handle identity. A buffer handle carrying the same
/// opaque reference as a buffer-kind generic handle is well-formed and reads
/// the very same backing bytes the host reports for the generic handle.
pub proof fn lemma_downcast_preserves_raw_view(host: Host, g: SomeObject, b: Buffer)
    requires
        Buffer::kind_matches(host, g.raw()),
        b.raw() == g.raw(),
    ensures
        b.wf(host),
        b.bytes(host) == host.bytes(g.raw()),
{
}

/// Law: the write/read round trip. When a buffer's bytes change exactly by
/// writing `v` at index `i` — which is what `index_mut` ensures of a write
/// through its borrow — reading index `i` afterwards yields `v`, the length
/// is unchanged, and every other index reads as it did before.
pub proof fn lemma_write_read_round_trip(pre: Host, post: Host, b: Buffer, i: int, v: u8)
    requires
        b.wf(pre),
        0 <= i < b.bytes(pre).len(),
        b.bytes(post) == b.bytes(pre).update(i, v),
    ensures
        b.bytes(post)[i] == v,
        b.bytes(post).len() == b.bytes(pre).len(),
        forall|j: int| 0 <= j < b.bytes(pre).len() && j != i ==> b.bytes(post)[j] == b.bytes(pre)[j],
{
}

} // verus!
