//! The link word: one word fusing the published address, the count of
//! in-flight readers, and the writer-busy flag.
//!
//! The partition of the word: bit 0 is the busy flag, bits 1 through 7 hold
//! the reader count, and the remaining high bits hold the address. Published
//! addresses therefore keep their eight low bits clear, which is what
//! [`valid_addr`] demands.

use vstd::prelude::*;

verus! {

/// Greatest reader count the word can hold; one more reader would spill
/// into the address bits.
pub const MAX_READERS: u64 = 127;

/// An address may be published only if it is non-null and leaves the low
/// bits of the word free for the reader count and the busy flag.
pub open spec fn valid_addr(a: u64) -> bool {
    a != 0 && a & 0xFF == 0
}

/// The three logical fields encoded in a link word.
pub struct LinkState {
    /// Address of the currently published value.
    pub addr: u64,
    /// Count of in-flight readers pinning `addr`.
    pub readers: u64,
    /// Whether a writer is in its critical section.
    pub busy: bool,
}

/// The fused word. All transitions preserve the encoding: the address can
/// always be recovered by masking the low bits off.
pub struct Link {
    word: u64,
}

impl View for Link {
    type V = LinkState;

    closed spec fn view(&self) -> LinkState {
        LinkState {
            addr: self.word & 0xFFFF_FFFF_FFFF_FF00,
            readers: (self.word >> 1) & 0x7F,
            busy: self.word & 1 == 1,
        }
    }
}

impl Link {
    /// The link freshly made from `addr`, as a spec-level value.
    pub closed spec fn spec_new(addr: u64) -> Link {
        Link { word: addr }
    }

    /// Install an initial address; no readers, no writer.
    pub fn new(addr: u64) -> (link: Link)
        requires
            valid_addr(addr),
        ensures
            link == Link::spec_new(addr),
            link@.addr == addr,
            link@.readers == 0,
            !link@.busy,
    {
        proof {
            assert(addr & 0xFF == 0 ==> (addr & 0xFFFF_FFFF_FFFF_FF00) == addr
                && ((addr >> 1) & 0x7F) == 0 && (addr & 1) == 0) by (bit_vector);
        }
        Link { word: addr }
    }

    /// Load the current address. The caller must have some other reason to
    /// know the value behind it stays live; the load pins nothing.
    pub fn get_ref(&self) -> (addr: u64)
        ensures
            addr == self@.addr,
    {
        self.word & 0xFFFF_FFFF_FFFF_FF00
    }

    /// One more reader pins the published address; returns the address
    /// observed in the same step, so the pin counts against exactly that
    /// address.
    pub fn inc_ref(&mut self) -> (addr: u64)
        requires
            old(self)@.readers < MAX_READERS,
        ensures
            final(self)@.addr == old(self)@.addr,
            final(self)@.readers == old(self)@.readers + 1,
            final(self)@.busy == old(self)@.busy,
            addr == old(self)@.addr,
    {
        let w = self.word;
        proof {
            assert(w + 2 <= u64::MAX
                && ((w + 2) as u64 & 0xFFFF_FFFF_FFFF_FF00) == (w & 0xFFFF_FFFF_FFFF_FF00)
                && (((w + 2) as u64 >> 1) & 0x7F) == ((w >> 1) & 0x7F) + 1
                && ((w + 2) as u64 & 1) == (w & 1)) by (bit_vector)
                requires
                    ((w >> 1) & 0x7F) < 127,
            ;
        }
        let addr = self.word & 0xFFFF_FFFF_FFFF_FF00;
        self.word = self.word + 2;
        addr
    }

    /// One reader releases its pin.
    pub fn dec_ref(&mut self)
        requires
            old(self)@.readers > 0,
        ensures
            final(self)@.addr == old(self)@.addr,
            final(self)@.readers == old(self)@.readers - 1,
            final(self)@.busy == old(self)@.busy,
    {
        let w = self.word;
        proof {
            assert(w >= 2
                && ((w - 2) as u64 & 0xFFFF_FFFF_FFFF_FF00) == (w & 0xFFFF_FFFF_FFFF_FF00)
                && (((w - 2) as u64 >> 1) & 0x7F) == ((w >> 1) & 0x7F) - 1
                && ((w - 2) as u64 & 1) == (w & 1)) by (bit_vector)
                requires
                    ((w >> 1) & 0x7F) > 0,
            ;
        }
        self.word = self.word - 2;
    }

    /// Unconditional publish: replace the address while no reader pins it
    /// and no writer is busy. The returned old address becomes the
    /// caller's to own.
    pub fn update(&mut self, new_addr: u64) -> (old_addr: u64)
        requires
            old(self)@.readers == 0,
            !old(self)@.busy,
            valid_addr(new_addr),
        ensures
            final(self)@.addr == new_addr,
            final(self)@.readers == 0,
            !final(self)@.busy,
            old_addr == old(self)@.addr,
    {
        proof {
            assert(new_addr & 0xFF == 0 ==> (new_addr & 0xFFFF_FFFF_FFFF_FF00) == new_addr
                && ((new_addr >> 1) & 0x7F) == 0 && (new_addr & 1) == 0) by (bit_vector);
        }
        let old_addr = self.word & 0xFFFF_FFFF_FFFF_FF00;
        self.word = new_addr;
        old_addr
    }

    /// Enter the writer critical section: set the busy flag while no reader
    /// pins the address, and return the address observed, which stays
    /// published until `unlock_update`.
    pub fn lock_read(&mut self) -> (addr: u64)
        requires
            old(self)@.readers == 0,
            !old(self)@.busy,
        ensures
            final(self)@.addr == old(self)@.addr,
            final(self)@.readers == 0,
            final(self)@.busy,
            addr == old(self)@.addr,
    {
        let w = self.word;
        proof {
            assert(((w | 1) & 0xFFFF_FFFF_FFFF_FF00) == (w & 0xFFFF_FFFF_FFFF_FF00)
                && (((w | 1) >> 1) & 0x7F) == ((w >> 1) & 0x7F)
                && ((w | 1) & 1) == 1) by (bit_vector);
        }
        let addr = self.word & 0xFFFF_FFFF_FFFF_FF00;
        self.word = self.word | 1;
        addr
    }

    /// Leave the writer critical section, publishing the new address and
    /// clearing the busy flag in one step. Readers that arrived meanwhile
    /// keep their pins: the reader bits carry over unchanged.
    pub fn unlock_update(&mut self, new_addr: u64)
        requires
            old(self)@.busy,
            valid_addr(new_addr),
        ensures
            final(self)@.addr == new_addr,
            final(self)@.readers == old(self)@.readers,
            !final(self)@.busy,
    {
        let w = self.word;
        proof {
            assert(new_addr & 0xFF == 0 ==> (((w & 0xFE) | new_addr) & 0xFFFF_FFFF_FFFF_FF00)
                    == (new_addr & 0xFFFF_FFFF_FFFF_FF00)
                && (new_addr & 0xFFFF_FFFF_FFFF_FF00) == new_addr
                && ((((w & 0xFE) | new_addr) >> 1) & 0x7F) == ((w >> 1) & 0x7F)
                && (((w & 0xFE) | new_addr) & 1) == 0) by (bit_vector);
        }
        self.word = (self.word & 0xFE) | new_addr;
    }

    /// The encoding keeps every bit of the word, so equal states mean equal
    /// links.
    pub proof fn lemma_state_determines_link(a: Link, b: Link)
        requires
            a@ == b@,
        ensures
            a == b,
    {
        let wa = a.word;
        let wb = b.word;
        assert((wa & 0xFFFF_FFFF_FFFF_FF00) == (wb & 0xFFFF_FFFF_FFFF_FF00)
            && ((wa >> 1) & 0x7F) == ((wb >> 1) & 0x7F)
            && ((wa & 1) == 1) == ((wb & 1) == 1) ==> wa == wb) by (bit_vector);
    }
}

} // verus!
