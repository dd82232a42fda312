//! The typed arena facade.
//!
//! An [`Arena`] owns a [`Table`] of type-erased pages together with, for each
//! storable kind, the index of the page currently accepting allocations of
//! that kind. Allocation bumps into that open page, appending a fresh page
//! exactly when none is cached or the cached one is full; resolution decodes
//! a handle and reads the slot it names. Handles stay valid for the arena's
//! whole lifetime: pages are never removed, reordered or compacted.

use core::marker::PhantomData;

use vstd::prelude::*;

use crate::model::{
    PageModel, TypeKind, bits_at, bits_entries, bits_handle_ok, empty_model, encode, int_at,
    int_entries, int_handle_ok, kind_of, lemma_handle_round_trip, page_len, page_of, slot_of,
    text_at, text_entries, text_handle_ok,
};
use crate::page::{MAX_PAGES, PAGE_LEN, PAGE_LEN_BITS, PAGE_LEN_MASK, Slot};
use crate::table::{PageIndex, Table};

verus! {

/// A compact, copyable handle to one value stored in an [`Arena`]: a 32-bit
/// word packing the slot index in the low [`PAGE_LEN_BITS`] bits and the page
/// index above it. The type parameter marks the element type the handle was
/// minted for; it only routes calls to the matching typed accessor and holds
/// no data.
pub struct Idx<T> {
    raw: u32,
    marker: PhantomData<T>,
}

impl<T> View for Idx<T> {
    type V = u32;

    closed spec fn view(&self) -> u32 {
        self.raw
    }
}

impl<T> Clone for Idx<T> {
    fn clone(&self) -> (r: Self)
        ensures
            r == *self,
    {
        Idx { raw: self.raw, marker: PhantomData }
    }
}

impl<T> Copy for Idx<T> {}

impl<T> PartialEq for Idx<T> {
    /// Two handles are equal exactly when their packed 32-bit values are
    /// equal, independent of the type marker.
    fn eq(&self, other: &Self) -> (r: bool)
    {
        self.raw == other.raw
    }
}

impl<T> vstd::std_specs::cmp::PartialEqSpecImpl for Idx<T> {
    open spec fn obeys_eq_spec() -> bool {
        true
    }

    open spec fn eq_spec(&self, other: &Idx<T>) -> bool {
        self@ == other@
    }
}

impl<T> Eq for Idx<T> {}

impl<T> Idx<T> {
    /// Packs a page index and a slot index into a handle.
    pub fn new(page: PageIndex, slot: Slot) -> (r: Self)
        requires
            page.wf(),
            slot.wf(),
        ensures
            r@ == encode(page@, slot@),
            page_of(r@) == page@,
            slot_of(r@) == slot@,
    {
        let p: u32 = page.as_u32();
        let s: u32 = slot.as_u32();
        let raw: u32 = (p << PAGE_LEN_BITS) | s;
        proof {
            assert(raw == p * 1024 + s) by (bit_vector)
                requires
                    raw == (p << 10usize) | s,
                    p < 0x400000u32,
                    s < 0x400u32,
            ;
            lemma_handle_round_trip(page@, slot@);
        }
        Idx { raw, marker: PhantomData }
    }

    /// Splits a handle back into its (page, slot) pair; the exact inverse of
    /// [`Idx::new`] for every in-range pair.
    pub fn split(self) -> (r: (PageIndex, Slot))
        ensures
            r.0.wf(),
            r.1.wf(),
            r.0@ == page_of(self@),
            r.1@ == slot_of(self@),
    {
        let raw = self.raw;
        let s: u32 = raw & (PAGE_LEN_MASK as u32);
        let p: u32 = raw >> PAGE_LEN_BITS;
        proof {
            assert(s == raw % 1024 && p == raw / 1024 && p < 0x400000u32) by (bit_vector)
                requires
                    s == raw & 1023u32,
                    p == raw >> 10usize,
            ;
        }
        (PageIndex::new(p as usize), Slot::new(s as usize))
    }
}

/// The open page of a kind has room for one more value.
pub open spec fn has_room(m: Seq<PageModel>, c: Option<PageIndex>) -> bool {
    c matches Some(i) && 0 <= i@ < m.len() && page_len(m[i@]) < PAGE_LEN
}

/// What one allocation of an integer value did to the table model: bumped
/// into the open page when it had room, else appended a fresh one-value
/// page; the returned raw handle names the written slot.
pub open spec fn alloc_int_post(
    pre: Seq<PageModel>,
    c: Option<PageIndex>,
    post: Seq<PageModel>,
    raw: u32,
    value: i64,
) -> bool {
    if has_room(pre, c) {
        let i = (c->0)@;
        &&& post == pre.update(i, PageModel::Int(int_entries(pre[i]).push(value)))
        &&& page_of(raw) == i
        &&& slot_of(raw) == int_entries(pre[i]).len()
    } else {
        &&& post == pre.push(PageModel::Int(seq![value]))
        &&& page_of(raw) == pre.len()
        &&& slot_of(raw) == 0
    }
}

/// What one allocation of a text value did to the table model.
pub open spec fn alloc_text_post(
    pre: Seq<PageModel>,
    c: Option<PageIndex>,
    post: Seq<PageModel>,
    raw: u32,
    value: String,
) -> bool {
    if has_room(pre, c) {
        let i = (c->0)@;
        &&& post == pre.update(i, PageModel::Text(text_entries(pre[i]).push(value)))
        &&& page_of(raw) == i
        &&& slot_of(raw) == text_entries(pre[i]).len()
    } else {
        &&& post == pre.push(PageModel::Text(seq![value]))
        &&& page_of(raw) == pre.len()
        &&& slot_of(raw) == 0
    }
}

/// What one allocation of a bits value did to the table model.
pub open spec fn alloc_bits_post(
    pre: Seq<PageModel>,
    c: Option<PageIndex>,
    post: Seq<PageModel>,
    raw: u32,
    value: u64,
) -> bool {
    if has_room(pre, c) {
        let i = (c->0)@;
        &&& post == pre.update(i, PageModel::Bits(bits_entries(pre[i]).push(value)))
        &&& page_of(raw) == i
        &&& slot_of(raw) == bits_entries(pre[i]).len()
    } else {
        &&& post == pre.push(PageModel::Bits(seq![value]))
        &&& page_of(raw) == pre.len()
        &&& slot_of(raw) == 0
    }
}

/// The owner of all typed storage: a page table plus, per kind, the index of
/// the page currently accepting allocations of that kind.
pub struct Arena {
    table: Table,
    int_page: Option<PageIndex>,
    text_page: Option<PageIndex>,
    bits_page: Option<PageIndex>,
}

impl Arena {
    /// The arena's abstract state: its table's model.
    pub closed spec fn model(self) -> Seq<PageModel> {
        self.table.model()
    }

    /// The cached open-page index for a kind, if one is cached.
    pub closed spec fn cache(self, k: TypeKind) -> Option<PageIndex> {
        match k {
            TypeKind::Int => self.int_page,
            TypeKind::Text => self.text_page,
            TypeKind::Bits => self.bits_page,
        }
    }

    /// A cached index, when present, names an existing page of exactly its
    /// kind.
    pub open spec fn cache_ok(m: Seq<PageModel>, c: Option<PageIndex>, k: TypeKind) -> bool {
        c matches Some(i) ==> i.wf() && 0 <= i@ < m.len() && kind_of(m[i@]) == k
    }

    /// Table well-formedness plus coherence of all three caches.
    pub closed spec fn wf(self) -> bool {
        &&& self.table.wf()
        &&& Self::cache_ok(self.model(), self.int_page, TypeKind::Int)
        &&& Self::cache_ok(self.model(), self.text_page, TypeKind::Text)
        &&& Self::cache_ok(self.model(), self.bits_page, TypeKind::Bits)
    }

    /// An allocation of the given kind cannot run out of pages: either the
    /// open page has room, or a page can still be appended.
    pub open spec fn can_allocate(self, k: TypeKind) -> bool {
        has_room(self.model(), self.cache(k)) || self.model().len() < MAX_PAGES
    }

    /// A well-formed arena has coherent caches: the cached index of each
    /// kind, when present, names an existing page of that kind.
    pub proof fn lemma_wf_cache_ok(self, k: TypeKind)
        requires
            self.wf(),
        ensures
            Self::cache_ok(self.model(), self.cache(k), k),
    {
    }

    /// A well-formed arena's model is within capacity: no page over
    /// [`PAGE_LEN`] values, no more than [`MAX_PAGES`] pages.
    pub proof fn lemma_wf_model_ok(self)
        requires
            self.wf(),
        ensures
            crate::model::model_ok(self.model()),
    {
        self.table.lemma_wf_model_ok();
    }

    /// An empty arena: no pages, no cached open page of any kind.
    pub fn new() -> (r: Arena)
        ensures
            r.wf(),
            r.model() == Seq::<PageModel>::empty(),
            r.cache(TypeKind::Int) is None,
            r.cache(TypeKind::Text) is None,
            r.cache(TypeKind::Bits) is None,
    {
        Arena { table: Table::new(), int_page: None, text_page: None, bits_page: None }
    }

    /// Allocates an integer value, returning a handle that resolves to it
    /// for the arena's whole lifetime. Bumps into the open integer page;
    /// exactly when none is cached or it is full, appends a fresh page and
    /// retries there, which always succeeds.
    pub fn allocate_int(&mut self, value: i64) -> (r: Idx<i64>)
        requires
            old(self).wf(),
            old(self).can_allocate(TypeKind::Int),
        ensures
            final(self).wf(),
            alloc_int_post(
                old(self).model(),
                old(self).cache(TypeKind::Int),
                final(self).model(),
                r@,
                value,
            ),
            crate::model::extends(old(self).model(), final(self).model()),
            int_handle_ok(final(self).model(), r@),
            int_at(final(self).model(), r@) == value,
            final(self).cache(TypeKind::Text) == old(self).cache(TypeKind::Text),
            final(self).cache(TypeKind::Bits) == old(self).cache(TypeKind::Bits),
            has_room(old(self).model(), old(self).cache(TypeKind::Int)) ==> final(self).cache(
                TypeKind::Int,
            ) == old(self).cache(TypeKind::Int),
            !has_room(old(self).model(), old(self).cache(TypeKind::Int)) ==> (final(self).cache(
                TypeKind::Int,
            ) matches Some(i) && i@ == old(self).model().len()),
    {
        let ghost pre = self.model();
        let ghost pre_c = self.int_page;
        let index: PageIndex = match self.int_page {
            Some(i) => i,
            None => {
                let i = self.table.append_page(TypeKind::Int);
                self.int_page = Some(i);
                i
            },
        };
        let ghost mid = self.model();
        let page = self.table.page_int_mut(index);
        let outcome = page.allocate(value);
        match outcome {
            Ok(slot) => {
                proof {
                    if pre_c is Some {
                        assert(self.model() =~= pre.update(
                            index@,
                            PageModel::Int(int_entries(pre[index@]).push(value)),
                        ));
                        lemma_handle_round_trip(index@, slot@);
                    } else {
                        assert(mid == pre.push(empty_model(TypeKind::Int)));
                        assert(self.model() =~= pre.push(PageModel::Int(seq![value])));
                        lemma_handle_round_trip(index@, 0);
                    }
                }
                Idx::new(index, slot)
            },
            Err(v) => {
                proof {
                    assert(self.model() =~= pre);
                }
                let index2 = self.table.append_page(TypeKind::Int);
                self.int_page = Some(index2);
                let ghost mid2 = self.model();
                let page2 = self.table.page_int_mut(index2);
                let outcome2 = page2.allocate(v);
                match outcome2 {
                    Ok(slot) => {
                        proof {
                            assert(mid2 == pre.push(empty_model(TypeKind::Int)));
                            assert(self.model() =~= pre.push(PageModel::Int(seq![value])));
                            lemma_handle_round_trip(index2@, 0);
                        }
                        Idx::new(index2, slot)
                    },
                    Err(v2) => {
                        proof {
                            assert(false);
                        }
                        Idx::new(index2, Slot::new(0))
                    },
                }
            },
        }
    }

    /// Resolves an integer handle to the stored value. The handle must name
    /// an initialized slot of an integer page of this arena: resolving a
    /// forged, corrupted or cross-arena handle is a contract violation,
    /// never a recoverable error.
    pub fn resolve_int(&self, index: Idx<i64>) -> (r: &i64)
        requires
            self.wf(),
            int_handle_ok(self.model(), index@),
        ensures
            *r == int_at(self.model(), index@),
    {
        let (page, slot) = index.split();
        let p = self.table.page_int(page);
        p.get(slot)
    }

    /// Resolves an integer handle, detecting at run time a handle that is
    /// out of range, of the wrong kind for its page, or at or beyond the
    /// page's watermark; such a handle yields `None`, never stale data.
    pub fn try_resolve_int(&self, index: Idx<i64>) -> (r: Option<&i64>)
        requires
            self.wf(),
        ensures
            int_handle_ok(self.model(), index@) ==> (r matches Some(v) && *v == int_at(
                self.model(),
                index@,
            )),
            !int_handle_ok(self.model(), index@) ==> r is None,
    {
        let (page, slot) = index.split();
        if page.as_usize() >= self.table.len() {
            return None;
        }
        match self.table.try_page_int(page) {
            None => None,
            Some(p) => {
                if slot.as_usize() < p.len() {
                    Some(p.get(slot))
                } else {
                    None
                }
            },
        }
    }

    /// Allocates a text value, returning a handle that resolves to it
    /// for the arena's whole lifetime. Bumps into the open text page;
    /// exactly when none is cached or it is full, appends a fresh page and
    /// retries there, which always succeeds.
    pub fn allocate_text(&mut self, value: String) -> (r: Idx<String>)
        requires
            old(self).wf(),
            old(self).can_allocate(TypeKind::Text),
        ensures
            final(self).wf(),
            alloc_text_post(
                old(self).model(),
                old(self).cache(TypeKind::Text),
                final(self).model(),
                r@,
                value,
            ),
            crate::model::extends(old(self).model(), final(self).model()),
            text_handle_ok(final(self).model(), r@),
            text_at(final(self).model(), r@) == value,
            final(self).cache(TypeKind::Int) == old(self).cache(TypeKind::Int),
            final(self).cache(TypeKind::Bits) == old(self).cache(TypeKind::Bits),
            has_room(old(self).model(), old(self).cache(TypeKind::Text)) ==> final(self).cache(
                TypeKind::Text,
            ) == old(self).cache(TypeKind::Text),
            !has_room(old(self).model(), old(self).cache(TypeKind::Text)) ==> (final(self).cache(
                TypeKind::Text,
            ) matches Some(i) && i@ == old(self).model().len()),
    {
        let ghost pre = self.model();
        let ghost pre_c = self.text_page;
        let index: PageIndex = match self.text_page {
            Some(i) => i,
            None => {
                let i = self.table.append_page(TypeKind::Text);
                self.text_page = Some(i);
                i
            },
        };
        let ghost mid = self.model();
        let page = self.table.page_text_mut(index);
        let outcome = page.allocate(value);
        match outcome {
            Ok(slot) => {
                proof {
                    if pre_c is Some {
                        assert(self.model() =~= pre.update(
                            index@,
                            PageModel::Text(text_entries(pre[index@]).push(value)),
                        ));
                        lemma_handle_round_trip(index@, slot@);
                    } else {
                        assert(mid == pre.push(empty_model(TypeKind::Text)));
                        assert(self.model() =~= pre.push(PageModel::Text(seq![value])));
                        lemma_handle_round_trip(index@, 0);
                    }
                }
                Idx::new(index, slot)
            },
            Err(v) => {
                proof {
                    assert(self.model() =~= pre);
                }
                let index2 = self.table.append_page(TypeKind::Text);
                self.text_page = Some(index2);
                let ghost mid2 = self.model();
                let page2 = self.table.page_text_mut(index2);
                let outcome2 = page2.allocate(v);
                match outcome2 {
                    Ok(slot) => {
                        proof {
                            assert(mid2 == pre.push(empty_model(TypeKind::Text)));
                            assert(self.model() =~= pre.push(PageModel::Text(seq![value])));
                            lemma_handle_round_trip(index2@, 0);
                        }
                        Idx::new(index2, slot)
                    },
                    Err(v2) => {
                        proof {
                            assert(false);
                        }
                        Idx::new(index2, Slot::new(0))
                    },
                }
            },
        }
    }

    /// Resolves a text handle to the stored value. The handle must name
    /// an initialized slot of an text page of this arena: resolving a
    /// forged, corrupted or cross-arena handle is a contract violation,
    /// never a recoverable error.
    pub fn resolve_text(&self, index: Idx<String>) -> (r: &String)
        requires
            self.wf(),
            text_handle_ok(self.model(), index@),
        ensures
            *r == text_at(self.model(), index@),
    {
        let (page, slot) = index.split();
        let p = self.table.page_text(page);
        p.get(slot)
    }

    /// Resolves a text handle, detecting at run time a handle that is
    /// out of range, of the wrong kind for its page, or at or beyond the
    /// page's watermark; such a handle yields `None`, never stale data.
    pub fn try_resolve_text(&self, index: Idx<String>) -> (r: Option<&String>)
        requires
            self.wf(),
        ensures
            text_handle_ok(self.model(), index@) ==> (r matches Some(v) && *v == text_at(
                self.model(),
                index@,
            )),
            !text_handle_ok(self.model(), index@) ==> r is None,
    {
        let (page, slot) = index.split();
        if page.as_usize() >= self.table.len() {
            return None;
        }
        match self.table.try_page_text(page) {
            None => None,
            Some(p) => {
                if slot.as_usize() < p.len() {
                    Some(p.get(slot))
                } else {
                    None
                }
            },
        }
    }

    /// Allocates a bits value, returning a handle that resolves to it
    /// for the arena's whole lifetime. Bumps into the open bits page;
    /// exactly when none is cached or it is full, appends a fresh page and
    /// retries there, which always succeeds.
    pub fn allocate_bits(&mut self, value: u64) -> (r: Idx<u64>)
        requires
            old(self).wf(),
            old(self).can_allocate(TypeKind::Bits),
        ensures
            final(self).wf(),
            alloc_bits_post(
                old(self).model(),
                old(self).cache(TypeKind::Bits),
                final(self).model(),
                r@,
                value,
            ),
            crate::model::extends(old(self).model(), final(self).model()),
            bits_handle_ok(final(self).model(), r@),
            bits_at(final(self).model(), r@) == value,
            final(self).cache(TypeKind::Int) == old(self).cache(TypeKind::Int),
            final(self).cache(TypeKind::Text) == old(self).cache(TypeKind::Text),
            has_room(old(self).model(), old(self).cache(TypeKind::Bits)) ==> final(self).cache(
                TypeKind::Bits,
            ) == old(self).cache(TypeKind::Bits),
            !has_room(old(self).model(), old(self).cache(TypeKind::Bits)) ==> (final(self).cache(
                TypeKind::Bits,
            ) matches Some(i) && i@ == old(self).model().len()),
    {
        let ghost pre = self.model();
        let ghost pre_c = self.bits_page;
        let index: PageIndex = match self.bits_page {
            Some(i) => i,
            None => {
                let i = self.table.append_page(TypeKind::Bits);
                self.bits_page = Some(i);
                i
            },
        };
        let ghost mid = self.model();
        let page = self.table.page_bits_mut(index);
        let outcome = page.allocate(value);
        match outcome {
            Ok(slot) => {
                proof {
                    if pre_c is Some {
                        assert(self.model() =~= pre.update(
                            index@,
                            PageModel::Bits(bits_entries(pre[index@]).push(value)),
                        ));
                        lemma_handle_round_trip(index@, slot@);
                    } else {
                        assert(mid == pre.push(empty_model(TypeKind::Bits)));
                        assert(self.model() =~= pre.push(PageModel::Bits(seq![value])));
                        lemma_handle_round_trip(index@, 0);
                    }
                }
                Idx::new(index, slot)
            },
            Err(v) => {
                proof {
                    assert(self.model() =~= pre);
                }
                let index2 = self.table.append_page(TypeKind::Bits);
                self.bits_page = Some(index2);
                let ghost mid2 = self.model();
                let page2 = self.table.page_bits_mut(index2);
                let outcome2 = page2.allocate(v);
                match outcome2 {
                    Ok(slot) => {
                        proof {
                            assert(mid2 == pre.push(empty_model(TypeKind::Bits)));
                            assert(self.model() =~= pre.push(PageModel::Bits(seq![value])));
                            lemma_handle_round_trip(index2@, 0);
                        }
                        Idx::new(index2, slot)
                    },
                    Err(v2) => {
                        proof {
                            assert(false);
                        }
                        Idx::new(index2, Slot::new(0))
                    },
                }
            },
        }
    }

    /// Resolves a bits handle to the stored value. The handle must name
    /// an initialized slot of an bits page of this arena: resolving a
    /// forged, corrupted or cross-arena handle is a contract violation,
    /// never a recoverable error.
    pub fn resolve_bits(&self, index: Idx<u64>) -> (r: &u64)
        requires
            self.wf(),
            bits_handle_ok(self.model(), index@),
        ensures
            *r == bits_at(self.model(), index@),
    {
        let (page, slot) = index.split();
        let p = self.table.page_bits(page);
        p.get(slot)
    }

    /// Resolves a bits handle, detecting at run time a handle that is
    /// out of range, of the wrong kind for its page, or at or beyond the
    /// page's watermark; such a handle yields `None`, never stale data.
    pub fn try_resolve_bits(&self, index: Idx<u64>) -> (r: Option<&u64>)
        requires
            self.wf(),
        ensures
            bits_handle_ok(self.model(), index@) ==> (r matches Some(v) && *v == bits_at(
                self.model(),
                index@,
            )),
            !bits_handle_ok(self.model(), index@) ==> r is None,
    {
        let (page, slot) = index.split();
        if page.as_usize() >= self.table.len() {
            return None;
        }
        match self.table.try_page_bits(page) {
            None => None,
            Some(p) => {
                if slot.as_usize() < p.len() {
                    Some(p.get(slot))
                } else {
                    None
                }
            },
        }
    }

    /// The underlying page table.
    pub fn table(&self) -> (r: &Table)
        ensures
            r.model() == self.model(),
            self.wf() ==> r.wf(),
    {
        &self.table
    }
}

impl Default for Arena {
    fn default() -> (r: Arena)
        ensures
            r.wf(),
            r.model() == Seq::<PageModel>::empty(),
            r.cache(TypeKind::Int) is None,
            r.cache(TypeKind::Text) is None,
            r.cache(TypeKind::Bits) is None,
    {
        Arena::new()
    }
}

} // verus!
