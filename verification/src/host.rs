//! A model of the host runtime that owns every buffer's backing storage.
//!
//! The host keeps a table of live values. Each value carries a type tag:
//! either it is a byte buffer, together with its backing bytes, or it is a
//! value of some other kind. Callers refer to values only through opaque
//! [`Local`] handles; the host answers allocation requests, type-tag queries,
//! and requests for a buffer's live extent.

use vstd::prelude::*;

verus! {

/// An opaque reference to a host-runtime value. The identifier inside is
/// meaningful only to the host; holding a handle grants no access by itself.
#[derive(Clone, Copy, PartialEq, Eq, Structural, Debug)]
pub struct Local {
    pub id: usize,
}

/// One live host-runtime value: a byte buffer with its backing storage, or a
/// value of some other kind (the other kinds carry nothing this crate reads).
pub enum HostValue {
    Bytes(Vec<u8>),
    Other,
}

/// The host runtime's value table. All backing storage lives here; handles
/// index into the table and never own the bytes they refer to.
pub struct Host {
    pub slots: Vec<HostValue>,
}

impl Host {
    /// A handle is live when the host holds a value for it.
    pub open spec fn live(self, h: Local) -> bool {
        h.id < self.slots@.len()
    }

    /// The host's type tag for `h` marks a buffer-kind value.
    pub open spec fn is_buffer_kind(self, h: Local) -> bool {
        self.live(h) && self.slots@[h.id as int] is Bytes
    }

    /// The backing bytes of the buffer-kind value behind `h`.
    pub open spec fn bytes(self, h: Local) -> Seq<u8>
        recommends
            self.is_buffer_kind(h),
    {
        self.slots@[h.id as int]->0@
    }

    /// A host with no live values.
    pub fn empty() -> (host: Host)
        ensures
            host.slots@.len() == 0,
    {
        Host { slots: Vec::new() }
    }

    /// Allocate a fresh buffer-kind value of exactly `size` zero-initialized
    /// bytes and hand back its handle. Values already live keep their handles
    /// and contents; the model host never refuses an allocation request.
    pub fn allocate(&mut self, size: u32) -> (h: Local)
        ensures
            final(self).slots@.len() == old(self).slots@.len() + 1,
            h.id == old(self).slots@.len(),
            final(self).is_buffer_kind(h),
            final(self).bytes(h) =~= Seq::new(size as nat, |i: int| 0u8),
            forall|j: int|
                0 <= j < old(self).slots@.len() ==> final(self).slots@[j] == old(self).slots@[j],
    {
        let n = size as usize;
        let mut backing: Vec<u8> = Vec::new();
        while backing.len() < n
            invariant
                backing@.len() <= n,
                forall|i: int| 0 <= i < backing@.len() ==> backing@[i] == 0u8,
            decreases n - backing@.len(),
        {
            backing.push(0u8);
        }
        let h = Local { id: self.slots.len() };
        self.slots.push(HostValue::Bytes(backing));
        h
    }

    /// Allocate a fresh value that is not buffer-kind and hand back its
    /// handle. Values already live keep their handles and contents.
    pub fn allocate_other(&mut self) -> (h: Local)
        ensures
            final(self).slots@.len() == old(self).slots@.len() + 1,
            h.id == old(self).slots@.len(),
            final(self).live(h),
            !final(self).is_buffer_kind(h),
            forall|j: int|
                0 <= j < old(self).slots@.len() ==> final(self).slots@[j] == old(self).slots@[j],
    {
        let h = Local { id: self.slots.len() };
        self.slots.push(HostValue::Other);
        h
    }

    /// Type-tag query: is the value behind `h` tagged as a buffer?
    pub fn type_tag_is_buffer(&self, h: Local) -> (b: bool)
        requires
            self.live(h),
        ensures
            b == self.is_buffer_kind(h),
    {
        match &self.slots[h.id] {
            HostValue::Bytes(_) => true,
            HostValue::Other => false,
        }
    }

    /// Query the live extent of the buffer behind `h`: a byte-slice view of
    /// its backing storage, valid while the host is borrowed.
    pub fn buffer_data<'a>(&'a self, h: Local) -> (r: &'a [u8])
        requires
            self.is_buffer_kind(h),
        ensures
            r@ == self.bytes(h),
    {
        match &self.slots[h.id] {
            HostValue::Bytes(v) => v.as_slice(),
            HostValue::Other => vstd::pervasive::unreached(),
        }
    }

    /// Query the live extent of the buffer behind `h` and expose it as a
    /// mutable byte-slice view. Writes through the view land in exactly this
    /// buffer's backing bytes; its length and every other value are untouched.
    pub fn buffer_data_mut<'a>(&'a mut self, h: Local) -> (r: &'a mut [u8])
        requires
            old(self).is_buffer_kind(h),
        ensures
            r@ == old(self).bytes(h),
            final(self).slots@.len() == old(self).slots@.len(),
            final(self).is_buffer_kind(h),
            final(self).bytes(h) == final(r)@,
            forall|j: int|
                0 <= j < old(self).slots@.len() && j != h.id ==> final(self).slots@[j] == old(
                    self,
                ).slots@[j],
    {
        let slot = &mut self.slots[h.id];
        match slot {
            HostValue::Bytes(v) => v.as_mut_slice(),
            HostValue::Other => vstd::pervasive::unreached(),
        }
    }

    /// Borrow one byte of the buffer behind `h` mutably. Writing through the
    /// borrow updates exactly that byte of that buffer and nothing else.
    pub fn buffer_byte_mut<'a>(&'a mut self, h: Local, i: usize) -> (r: &'a mut u8)
        requires
            old(self).is_buffer_kind(h),
            i < old(self).bytes(h).len(),
        ensures
            *r == old(self).bytes(h)[i as int],
            final(self).slots@.len() == old(self).slots@.len(),
            final(self).is_buffer_kind(h),
            final(self).bytes(h) =~= old(self).bytes(h).update(i as int, *final(r)),
            forall|j: int|
                0 <= j < old(self).slots@.len() && j != h.id ==> final(self).slots@[j] == old(
                    self,
                ).slots@[j],
    {
        let slot = &mut self.slots[h.id];
        match slot {
            HostValue::Bytes(v) => &mut v[i],
            HostValue::Other => vstd::pervasive::unreached(),
        }
    }
}

} // verus!
