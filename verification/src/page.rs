//! Fixed-capacity bump-allocation pages.
//!
//! A `Page<T>` owns up to [`PAGE_LEN`] values of one element type. Values are
//! only ever appended: the number of initialized slots (the watermark) grows
//! monotonically and slots are never freed or reused while the page lives.

use vstd::prelude::*;

verus! {

/// Number of bits of a handle taken up by the in-page slot index.
pub const PAGE_LEN_BITS: usize = 10;

/// Capacity of one page: `1 << PAGE_LEN_BITS` slots.
pub const PAGE_LEN: usize = 1024;

/// Mask selecting the slot bits of a raw handle: `PAGE_LEN - 1`.
pub const PAGE_LEN_MASK: usize = 1023;

/// Greatest number of pages a table can hold: `1 << (32 - PAGE_LEN_BITS)`,
/// so that every (page, slot) pair fits in a 32-bit handle.
pub const MAX_PAGES: usize = 0x400000;

/// A bump-allocation block for exactly one element type, with capacity
/// [`PAGE_LEN`]. Its view is the sequence of values stored so far, in
/// allocation order; the watermark is that sequence's length.
pub struct Page<T> {
    data: Vec<T>,
}

impl<T> View for Page<T> {
    type V = Seq<T>;

    closed spec fn view(&self) -> Seq<T> {
        self.data@
    }
}

impl<T> Page<T> {
    /// The page never holds more than [`PAGE_LEN`] values.
    pub open spec fn wf(&self) -> bool {
        self@.len() <= PAGE_LEN
    }

    /// An empty page.
    pub fn new() -> (r: Self)
        ensures
            r@ == Seq::<T>::empty(),
            r.wf(),
    {
        Page { data: Vec::new() }
    }

    /// Number of initialized slots (the watermark).
    pub fn len(&self) -> (r: usize)
        ensures
            r == self@.len(),
    {
        self.data.len()
    }

    /// Bump-allocates `value` into the next free slot, returning that slot.
    /// When the page is full the value is handed back unconsumed.
    pub fn allocate(&mut self, value: T) -> (r: Result<Slot, T>)
        requires
            old(self).wf(),
        ensures
            final(self).wf(),
            old(self)@.len() < PAGE_LEN ==> (r matches Ok(slot)
                && slot.wf()
                && slot@ == old(self)@.len()
                && final(self)@ == old(self)@.push(value)),
            old(self)@.len() == PAGE_LEN ==> (r matches Err(v)
                && v == value
                && final(self)@ == old(self)@),
    {
        let slot = self.data.len();
        if slot == PAGE_LEN {
            return Err(value);
        }
        self.data.push(value);
        Ok(Slot::new(slot))
    }

    /// Reads the value at an initialized slot. Reading at or beyond the
    /// watermark is a contract violation, never a recoverable error.
    pub fn get(&self, slot: Slot) -> (r: &T)
        requires
            slot@ < self@.len(),
        ensures
            *r == self@[slot@],
    {
        &self.data[slot.as_usize()]
    }
}

impl<T> Default for Page<T> {
    fn default() -> (r: Self)
        ensures
            r@ == Seq::<T>::empty(),
            r.wf(),
    {
        Page::new()
    }
}

/// An in-page slot index, always below [`PAGE_LEN`].
#[derive(Clone, Copy)]
pub struct Slot(u32);

impl View for Slot {
    type V = int;

    closed spec fn view(&self) -> int {
        self.0 as int
    }
}

impl Slot {
    /// A slot index is valid only below the page capacity.
    pub open spec fn wf(&self) -> bool {
        0 <= self@ < PAGE_LEN
    }

    pub fn new(raw: usize) -> (r: Self)
        requires
            raw < PAGE_LEN,
        ensures
            r@ == raw,
            r.wf(),
    {
        Slot(raw as u32)
    }

    pub fn as_u32(self) -> (r: u32)
        ensures
            r == self@,
    {
        self.0
    }

    pub fn as_usize(self) -> (r: usize)
        ensures
            r == self@,
    {
        self.0 as usize
    }
}

} // verus!
