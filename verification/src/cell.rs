//! The typed cell: a link word paired with the shared handle it publishes.
//!
//! The cell always holds exactly one handle, so the published address is
//! never null. `read` pins the address, clones the handle behind it, and
//! releases the pin; `write` publishes a replacement and hands the prior
//! handle to the caller; `update` does the same under the writer critical
//! section, deriving the replacement from the prior value.
//!
//! Addresses here are logical: the cell mints a fresh aligned word for each
//! handle it publishes, and the link tracks the protocol state over those
//! words, while the handle itself travels beside the link as a field.

use std::sync::Arc;
use vstd::prelude::*;

use crate::link::Link;
use crate::link::valid_addr;

verus! {

/// A cell that never holds null: it behaves like a lock over an `Arc<T>`,
/// except that readers take a snapshot instead of holding a guard.
pub struct RcuCellNonNull<T> {
    link: Link,
    current: Arc<T>,
    next_addr: u64,
}

/// Relies on `Arc::clone`: the clone shares the allocation of `a`, hence
/// refers to the same value, and leaves the shared count one higher.
#[verifier::external_body]
fn clone_handle<T>(a: &Arc<T>) -> (r: Arc<T>)
    ensures
        r == *a,
{
    Arc::clone(a)
}

/// Relies on `Arc::ptr_eq`: the result is true only when both handles share
/// one allocation, in which case they refer to the same value.
#[verifier::external_body]
fn same_allocation<T>(a: &Arc<T>, b: &Arc<T>) -> (r: bool)
    ensures
        r ==> *a == *b,
{
    Arc::ptr_eq(a, b)
}

impl<T> From<Arc<T>> for RcuCellNonNull<T> {
    /// Create a cell around a caller-provided handle; the cell takes over
    /// the one reference the handle carried.
    fn from(data: Arc<T>) -> (c: Self)
        ensures
            c.wf(),
            c.value() == data,
    {
        proof {
            assert(0x100u64 != 0 && (0x100u64 & 0xFF) == 0) by (bit_vector);
            assert(0x200u64 != 0 && (0x200u64 & 0xFF) == 0) by (bit_vector);
        }
        RcuCellNonNull { link: Link::new(0x100), current: data, next_addr: 0x200 }
    }
}

impl<T> vstd::std_specs::convert::FromSpecImpl<Arc<T>> for RcuCellNonNull<T> {
    open spec fn obeys_from_spec() -> bool {
        true
    }

    closed spec fn from_spec(data: Arc<T>) -> Self {
        RcuCellNonNull { link: Link::spec_new(0x100), current: data, next_addr: 0x200 }
    }
}

impl<T: Default> Default for RcuCellNonNull<T> {
    /// A cell around the default value of `T`.
    fn default() -> (c: Self)
        ensures
            c.wf(),
            exists|v: T| #[trigger] call_ensures(T::default, (), v) && c.value() == v,
    {
        RcuCellNonNull::new(Default::default())
    }
}

impl<T> RcuCellNonNull<T> {
    /// The handle currently published in the cell.
    pub closed spec fn value(&self) -> Arc<T> {
        self.current
    }

    /// The address the link currently publishes.
    pub closed spec fn addr(&self) -> u64 {
        self.link@.addr
    }

    /// Well-formed: the link is quiescent (no pinned readers, no writer in
    /// its critical section) and publishes a valid address, and the mint
    /// for fresh addresses is itself valid.
    pub closed spec fn wf(&self) -> bool {
        &&& self.link@.readers == 0
        &&& !self.link@.busy
        &&& valid_addr(self.link@.addr)
        &&& valid_addr(self.next_addr)
    }

    /// What a completed publish (`write`, or `update` with `data` for the
    /// closure's result) says: the caller got the handle the cell held
    /// before, and the cell now holds `data`.
    pub open spec fn write_post(pre: Self, post: Self, data: Arc<T>, prior: Arc<T>) -> bool {
        prior == pre.value() && post.value() == data
    }

    /// What a completed `read` says: the snapshot is the published handle,
    /// and the cell is exactly as it was.
    pub open spec fn read_post(pre: Self, post: Self, snapshot: Arc<T>) -> bool {
        post == pre && snapshot == pre.value()
    }

    /// A well-formed cell never publishes the null address.
    pub proof fn lemma_nonnull(&self)
        requires
            self.wf(),
        ensures
            self.addr() != 0,
    {
    }

    /// Mint an address no other field of this cell is using; only the mint
    /// itself changes.
    fn fresh_addr(&mut self) -> (a: u64)
        requires
            valid_addr(old(self).next_addr),
        ensures
            valid_addr(a),
            valid_addr(final(self).next_addr),
            final(self).link == old(self).link,
            final(self).current == old(self).current,
    {
        let a = self.next_addr;
        proof {
            assert(a & 0xFF == 0 && a < 0xFFFF_FFFF_FFFF_FF00 ==> (a + 256) as u64 != 0
                && ((a + 256) as u64 & 0xFF) == 0 && a + 256 <= u64::MAX) by (bit_vector);
            assert(0x100u64 != 0 && (0x100u64 & 0xFF) == 0) by (bit_vector);
        }
        if a >= 0xFFFF_FFFF_FFFF_FF00 {
            self.next_addr = 0x100;
        } else {
            self.next_addr = a + 256;
        }
        a
    }

    /// Create a cell from a value: the value moves into a fresh handle and
    /// the cell becomes the handle's sole owner.
    pub fn new(data: T) -> (c: Self)
        ensures
            c.wf(),
            c.value() == data,
    {
        RcuCellNonNull::from(Arc::new(data))
    }

    /// Consume the cell and hand out the handle it held; the cell's own
    /// reference passes through to the caller.
    pub fn into_arc(self) -> (r: Arc<T>)
        ensures
            r == self.value(),
    {
        self.current
    }

    /// Take a snapshot of the current handle. The pin taken on the address
    /// while cloning is released before returning, so the cell reads back
    /// exactly as it was, and the snapshot outlives the cell.
    pub fn read(&mut self) -> (r: Arc<T>)
        requires
            old(self).wf(),
        ensures
            *final(self) == *old(self),
            r == old(self).value(),
            Self::read_post(*old(self), *final(self), r),
    {
        let _addr = self.link.inc_ref();
        let snapshot = clone_handle(&self.current);
        self.link.dec_ref();
        proof {
            Link::lemma_state_determines_link(self.link, old(self).link);
        }
        snapshot
    }

    /// Publish `data` and return the handle published before it.
    pub fn write(&mut self, data: Arc<T>) -> (prior: Arc<T>)
        requires
            old(self).wf(),
        ensures
            final(self).wf(),
            Self::write_post(*old(self), *final(self), data, prior),
    {
        let new_addr = self.fresh_addr();
        let _old_addr = self.link.update(new_addr);
        let mut data = data;
        std::mem::swap(&mut self.current, &mut data);
        data
    }

    /// Publish the handle `f` derives from the current value, under the
    /// writer critical section, and return the prior handle. `f` gets its
    /// own clone of the prior handle and may keep or drop it freely.
    ///
    /// `f` must not operate on this same cell; the critical section is not
    /// reentrant.
    pub fn update<F: FnOnce(Arc<T>) -> Arc<T>>(&mut self, f: F) -> (prior: Arc<T>)
        requires
            old(self).wf(),
            call_requires(f, (old(self).value(),)),
        ensures
            final(self).wf(),
            prior == old(self).value(),
            exists|r: Arc<T>|
                #[trigger] call_ensures(f, (old(self).value(),), r) && Self::write_post(
                    *old(self),
                    *final(self),
                    r,
                    prior,
                ),
    {
        let _locked_addr = self.link.lock_read();
        let prior = clone_handle(&self.current);
        let arg = clone_handle(&prior);
        let fresh = f(arg);
        let new_addr = self.fresh_addr();
        self.link.unlock_update(new_addr);
        self.current = fresh;
        prior
    }

    /// Whether `data` is the very handle the cell currently publishes
    /// (identity of allocation, not equality of content).
    pub fn arc_eq(&self, data: &Arc<T>) -> (r: bool)
        ensures
            r ==> self.value() == *data,
    {
        same_allocation(&self.current, data)
    }

    /// Whether the two cells currently publish the very same handle.
    pub fn ptr_eq(this: &Self, other: &Self) -> (r: bool)
        ensures
            r ==> this.value() == other.value(),
    {
        same_allocation(&this.current, &other.current)
    }

    /// Snapshots taken in sequence observe the same value, and neither
    /// changes the cell: reads are stable while no publish intervenes.
    pub proof fn lemma_reads_agree(c0: Self, c1: Self, h1: Arc<T>, c2: Self, h2: Arc<T>)
        requires
            Self::read_post(c0, c1, h1),
            Self::read_post(c1, c2, h2),
        ensures
            h1 == h2,
            c2 == c0,
    {
    }

    /// Write linearization: in a chain of two writes, the handle the second
    /// returns is exactly the handle the first published, so the (prior,
    /// data) pairs of consecutive writes form a chain with no gap.
    pub proof fn lemma_write_chain(
        c0: Self,
        c1: Self,
        c2: Self,
        d1: Arc<T>,
        d2: Arc<T>,
        r1: Arc<T>,
        r2: Arc<T>,
    )
        requires
            Self::write_post(c0, c1, d1, r1),
            Self::write_post(c1, c2, d2, r2),
        ensures
            r2 == d1,
            r1 == c0.value(),
            c2.value() == d2,
    {
    }

    /// A snapshot taken between two publishes observes exactly the value
    /// the first one installed: reads see a link of the publish chain,
    /// never a value outside it.
    pub proof fn lemma_read_in_chain(
        c0: Self,
        c1: Self,
        c2: Self,
        c3: Self,
        d1: Arc<T>,
        r1: Arc<T>,
        h: Arc<T>,
        d2: Arc<T>,
        r2: Arc<T>,
    )
        requires
            Self::write_post(c0, c1, d1, r1),
            Self::read_post(c1, c2, h),
            Self::write_post(c2, c3, d2, r2),
        ensures
            h == d1,
            r2 == d1,
    {
    }
}

} // verus!
