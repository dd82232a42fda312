//! The append-only, type-erased page table.
//!
//! A [`Table`] owns an ordered sequence of type-erased pages. Pages are only
//! ever appended: position `i` denotes the same page for the table's whole
//! lifetime, and a page's element kind is fixed at creation. Any caller who
//! knows a page's kind can recover a typed view of it.

use vstd::prelude::*;

use crate::erased::{
    bits_cell, erase_bits_page, erase_int_page, erase_text_page, int_cell, open_bits_page,
    open_bits_page_mut, open_int_page, open_int_page_mut, open_text_page, open_text_page_mut,
    text_cell,
};
use crate::model::{
    PageModel, TypeKind, empty_model, int_entries, text_entries, bits_entries, kind_of, page_len,
};
use crate::page::{MAX_PAGES, PAGE_LEN, Page};

verus! {

/// A table position, always below [`MAX_PAGES`].
#[derive(Clone, Copy)]
pub struct PageIndex(u32);

impl View for PageIndex {
    type V = int;

    closed spec fn view(&self) -> int {
        self.0 as int
    }
}

impl PageIndex {
    /// A page index is valid only below the greatest page count.
    pub open spec fn wf(&self) -> bool {
        0 <= self@ < MAX_PAGES
    }

    pub fn new(raw: usize) -> (r: Self)
        requires
            raw < MAX_PAGES,
        ensures
            r@ == raw,
            r.wf(),
    {
        PageIndex(raw as u32)
    }

    pub fn as_u32(self) -> (r: u32)
        ensures
            r == self@,
    {
        self.0
    }

    pub fn as_usize(self) -> (r: usize)
        ensures
            r == self@,
    {
        self.0 as usize
    }
}

/// The state of one type-erased table cell: it holds a page of exactly one
/// of the storable kinds.
spec fn cell_ok(a: tany::LTAny) -> bool {
    &&& (int_cell(a) is Some || text_cell(a) is Some || bits_cell(a) is Some)
    &&& !(int_cell(a) is Some && text_cell(a) is Some)
    &&& !(int_cell(a) is Some && bits_cell(a) is Some)
    &&& !(text_cell(a) is Some && bits_cell(a) is Some)
}

/// The abstract page stored in one type-erased cell.
spec fn cell_model(a: tany::LTAny) -> PageModel {
    match int_cell(a) {
        Some(s) => PageModel::Int(s),
        None => match text_cell(a) {
            Some(s) => PageModel::Text(s),
            None => match bits_cell(a) {
                Some(s) => PageModel::Bits(s),
                None => PageModel::Int(Seq::empty()),
            },
        },
    }
}

/// An append-only ordered collection of type-erased pages.
pub struct Table {
    pages: Vec<tany::LTAny>,
}

impl Table {
    /// The table's abstract state: one [`PageModel`] per page, in order.
    pub closed spec fn model(self) -> Seq<PageModel> {
        self.pages@.map(|i: int, a: tany::LTAny| cell_model(a))
    }

    /// Every cell holds a page of exactly one kind, no page is over
    /// capacity, and the page count stays addressable by a handle.
    pub closed spec fn wf(self) -> bool {
        &&& self.pages@.len() <= MAX_PAGES
        &&& forall|i: int|
            0 <= i < self.pages@.len() ==> cell_ok(#[trigger] self.pages@[i]) && page_len(
                cell_model(self.pages@[i]),
            ) <= PAGE_LEN
    }

    /// A well-formed table's model is within capacity: no page over
    /// [`PAGE_LEN`] values, no more than [`MAX_PAGES`] pages.
    pub proof fn lemma_wf_model_ok(self)
        requires
            self.wf(),
        ensures
            crate::model::model_ok(self.model()),
    {
    }

    /// An empty table.
    pub fn new() -> (r: Table)
        ensures
            r.wf(),
            r.model() == Seq::<PageModel>::empty(),
    {
        let r = Table { pages: Vec::new() };
        proof {
            assert(r.model() =~= Seq::<PageModel>::empty());
        }
        r
    }

    pub fn is_empty(&self) -> (r: bool)
        ensures
            r <==> self.model().len() == 0,
    {
        self.pages.is_empty()
    }

    /// The page count.
    pub fn len(&self) -> (r: usize)
        ensures
            r == self.model().len(),
    {
        self.pages.len()
    }

    /// Appends a fresh empty page of the given kind and returns its
    /// permanent index.
    pub fn append_page(&mut self, kind: TypeKind) -> (r: PageIndex)
        requires
            old(self).wf(),
            old(self).model().len() < MAX_PAGES,
        ensures
            final(self).wf(),
            r.wf(),
            r@ == old(self).model().len(),
            final(self).model() == old(self).model().push(empty_model(kind)),
    {
        let index = self.pages.len();
        match kind {
            TypeKind::Int => {
                let p = Page::<i64>::new();
                self.pages.push(erase_int_page(p));
            },
            TypeKind::Text => {
                let p = Page::<String>::new();
                self.pages.push(erase_text_page(p));
            },
            TypeKind::Bits => {
                let p = Page::<u64>::new();
                self.pages.push(erase_bits_page(p));
            },
        }
        proof {
            assert(final(self).model() =~= old(self).model().push(empty_model(kind)));
        }
        PageIndex::new(index)
    }

    /// Recovers the typed view of the integer page at `index`; the page
    /// there must be of that kind.
    pub fn page_int(&self, index: PageIndex) -> (r: &Page<i64>)
        requires
            self.wf(),
            0 <= index@ < self.model().len(),
            kind_of(self.model()[index@]) == TypeKind::Int,
        ensures
            r@ == int_entries(self.model()[index@]),
            r.wf(),
    {
        let r = open_int_page(&self.pages[index.as_usize()]);
        r.unwrap()
    }

    /// Recovers the typed view of the text page at `index`; the page
    /// there must be of that kind.
    pub fn page_text(&self, index: PageIndex) -> (r: &Page<String>)
        requires
            self.wf(),
            0 <= index@ < self.model().len(),
            kind_of(self.model()[index@]) == TypeKind::Text,
        ensures
            r@ == text_entries(self.model()[index@]),
            r.wf(),
    {
        let r = open_text_page(&self.pages[index.as_usize()]);
        r.unwrap()
    }

    /// Recovers the typed view of the bits page at `index`; the page
    /// there must be of that kind.
    pub fn page_bits(&self, index: PageIndex) -> (r: &Page<u64>)
        requires
            self.wf(),
            0 <= index@ < self.model().len(),
            kind_of(self.model()[index@]) == TypeKind::Bits,
        ensures
            r@ == bits_entries(self.model()[index@]),
            r.wf(),
    {
        let r = open_bits_page(&self.pages[index.as_usize()]);
        r.unwrap()
    }

    /// Attempts to recover a typed view of the page at `index` as an integer
    /// page; detects, at run time, a page of another kind.
    pub fn try_page_int(&self, index: PageIndex) -> (r: Option<&Page<i64>>)
        requires
            self.wf(),
            0 <= index@ < self.model().len(),
        ensures
            match r {
                Some(p) => kind_of(self.model()[index@]) == TypeKind::Int && p@ == int_entries(
                    self.model()[index@],
                ) && p.wf(),
                None => kind_of(self.model()[index@]) != TypeKind::Int,
            },
    {
        open_int_page(&self.pages[index.as_usize()])
    }

    /// Attempts to recover a typed view of the page at `index` as a text
    /// page; detects, at run time, a page of another kind.
    pub fn try_page_text(&self, index: PageIndex) -> (r: Option<&Page<String>>)
        requires
            self.wf(),
            0 <= index@ < self.model().len(),
        ensures
            match r {
                Some(p) => kind_of(self.model()[index@]) == TypeKind::Text && p@ == text_entries(
                    self.model()[index@],
                ) && p.wf(),
                None => kind_of(self.model()[index@]) != TypeKind::Text,
            },
    {
        open_text_page(&self.pages[index.as_usize()])
    }

    /// Attempts to recover a typed view of the page at `index` as a bits
    /// page; detects, at run time, a page of another kind.
    pub fn try_page_bits(&self, index: PageIndex) -> (r: Option<&Page<u64>>)
        requires
            self.wf(),
            0 <= index@ < self.model().len(),
        ensures
            match r {
                Some(p) => kind_of(self.model()[index@]) == TypeKind::Bits && p@ == bits_entries(
                    self.model()[index@],
                ) && p.wf(),
                None => kind_of(self.model()[index@]) != TypeKind::Bits,
            },
    {
        open_bits_page(&self.pages[index.as_usize()])
    }

    /// Recovers a mutable typed view of the integer page at `index`. The
    /// table afterwards holds, at `index`, whatever page the reference was
    /// left pointing at; every other page is untouched.
    pub fn page_int_mut(&mut self, index: PageIndex) -> (r: &mut Page<i64>)
        requires
            old(self).wf(),
            0 <= index@ < old(self).model().len(),
            kind_of(old(self).model()[index@]) == TypeKind::Int,
        ensures
            (*r)@ == int_entries(old(self).model()[index@]),
            (*r).wf(),
            final(self).model() =~= old(self).model().update(
                index@,
                PageModel::Int((*final(r))@),
            ),
            (*final(r))@.len() <= PAGE_LEN ==> final(self).wf(),
    {
        let cell = &mut self.pages[index.as_usize()];
        open_int_page_mut(cell)
    }

    /// Recovers a mutable typed view of the text page at `index`. The
    /// table afterwards holds, at `index`, whatever page the reference was
    /// left pointing at; every other page is untouched.
    pub fn page_text_mut(&mut self, index: PageIndex) -> (r: &mut Page<String>)
        requires
            old(self).wf(),
            0 <= index@ < old(self).model().len(),
            kind_of(old(self).model()[index@]) == TypeKind::Text,
        ensures
            (*r)@ == text_entries(old(self).model()[index@]),
            (*r).wf(),
            final(self).model() =~= old(self).model().update(
                index@,
                PageModel::Text((*final(r))@),
            ),
            (*final(r))@.len() <= PAGE_LEN ==> final(self).wf(),
    {
        let cell = &mut self.pages[index.as_usize()];
        open_text_page_mut(cell)
    }

    /// Recovers a mutable typed view of the bits page at `index`. The
    /// table afterwards holds, at `index`, whatever page the reference was
    /// left pointing at; every other page is untouched.
    pub fn page_bits_mut(&mut self, index: PageIndex) -> (r: &mut Page<u64>)
        requires
            old(self).wf(),
            0 <= index@ < old(self).model().len(),
            kind_of(old(self).model()[index@]) == TypeKind::Bits,
        ensures
            (*r)@ == bits_entries(old(self).model()[index@]),
            (*r).wf(),
            final(self).model() =~= old(self).model().update(
                index@,
                PageModel::Bits((*final(r))@),
            ),
            (*final(r))@.len() <= PAGE_LEN ==> final(self).wf(),
    {
        let cell = &mut self.pages[index.as_usize()];
        open_bits_page_mut(cell)
    }
}

impl Default for Table {
    fn default() -> (r: Table)
        ensures
            r.wf(),
            r.model() == Seq::<PageModel>::empty(),
    {
        Table::new()
    }
}

} // verus!
