//! Mathematical model of the arena's storage.
//!
//! The contracts of [`crate::Table`] and [`crate::Arena`] speak of a sequence
//! of [`PageModel`]s: one entry per page, in table order, each holding the
//! values stored in that page so far, in allocation order. A page holds
//! values of exactly one kind, so a model entry is a sequence of one kind of
//! value; the handle encoding is modelled by [`encode`], [`page_of`] and
//! [`slot_of`].

use vstd::prelude::*;

use crate::page::{MAX_PAGES, PAGE_LEN};

verus! {

/// The kind of value a page stores: one of the storable concrete types.
/// An integer, a text value, and a value kept as raw 64 bits (the form in
/// which a host program stores a floating-point value).
#[derive(Clone, Copy, PartialEq, Eq, Structural, Debug)]
pub enum TypeKind {
    Int,
    Text,
    Bits,
}

/// Abstract state of one page: the values it stores so far, in allocation
/// order. The variant is the page's fixed element kind.
pub enum PageModel {
    Int(Seq<i64>),
    Text(Seq<String>),
    Bits(Seq<u64>),
}

/// The element kind of a page.
pub open spec fn kind_of(m: PageModel) -> TypeKind {
    match m {
        PageModel::Int(_) => TypeKind::Int,
        PageModel::Text(_) => TypeKind::Text,
        PageModel::Bits(_) => TypeKind::Bits,
    }
}

/// The page's watermark: how many values it stores.
pub open spec fn page_len(m: PageModel) -> nat {
    match m {
        PageModel::Int(s) => s.len(),
        PageModel::Text(s) => s.len(),
        PageModel::Bits(s) => s.len(),
    }
}

/// The integer values of a page, or the empty sequence for a page of
/// another kind.
pub open spec fn int_entries(m: PageModel) -> Seq<i64> {
    match m {
        PageModel::Int(s) => s,
        _ => Seq::empty(),
    }
}

/// The text values of a page, or the empty sequence for a page of
/// another kind.
pub open spec fn text_entries(m: PageModel) -> Seq<String> {
    match m {
        PageModel::Text(s) => s,
        _ => Seq::empty(),
    }
}

/// The bit values of a page, or the empty sequence for a page of
/// another kind.
pub open spec fn bits_entries(m: PageModel) -> Seq<u64> {
    match m {
        PageModel::Bits(s) => s,
        _ => Seq::empty(),
    }
}

/// An empty page of the given kind.
pub open spec fn empty_model(k: TypeKind) -> PageModel {
    match k {
        TypeKind::Int => PageModel::Int(Seq::empty()),
        TypeKind::Text => PageModel::Text(Seq::empty()),
        TypeKind::Bits => PageModel::Bits(Seq::empty()),
    }
}

/// Packs a (page, slot) pair into a raw 32-bit handle value: the slot in the
/// low [`PAGE_LEN_BITS`] bits, the page index above it.
///
/// [`PAGE_LEN_BITS`]: crate::page::PAGE_LEN_BITS
pub open spec fn encode(page: int, slot: int) -> int {
    page * PAGE_LEN + slot
}

/// The page index encoded in a raw handle value.
pub open spec fn page_of(raw: u32) -> int {
    raw as int / PAGE_LEN as int
}

/// The slot index encoded in a raw handle value.
pub open spec fn slot_of(raw: u32) -> int {
    raw as int % PAGE_LEN as int
}

/// A raw handle is in bounds for a table model when its page exists and its
/// slot is below that page's watermark.
pub open spec fn handle_ok(m: Seq<PageModel>, raw: u32) -> bool {
    &&& page_of(raw) < m.len()
    &&& slot_of(raw) < page_len(m[page_of(raw)])
}

/// A raw handle points at a stored integer value.
pub open spec fn int_handle_ok(m: Seq<PageModel>, raw: u32) -> bool {
    handle_ok(m, raw) && kind_of(m[page_of(raw)]) == TypeKind::Int
}

/// A raw handle points at a stored text value.
pub open spec fn text_handle_ok(m: Seq<PageModel>, raw: u32) -> bool {
    handle_ok(m, raw) && kind_of(m[page_of(raw)]) == TypeKind::Text
}

/// A raw handle points at a stored bit value.
pub open spec fn bits_handle_ok(m: Seq<PageModel>, raw: u32) -> bool {
    handle_ok(m, raw) && kind_of(m[page_of(raw)]) == TypeKind::Bits
}

/// The integer value a raw handle points at.
pub open spec fn int_at(m: Seq<PageModel>, raw: u32) -> i64 {
    int_entries(m[page_of(raw)])[slot_of(raw)]
}

/// The text value a raw handle points at.
pub open spec fn text_at(m: Seq<PageModel>, raw: u32) -> String {
    text_entries(m[page_of(raw)])[slot_of(raw)]
}

/// The bit value a raw handle points at.
pub open spec fn bits_at(m: Seq<PageModel>, raw: u32) -> u64 {
    bits_entries(m[page_of(raw)])[slot_of(raw)]
}

/// Sequence `x` is an initial segment of sequence `y`.
pub open spec fn seq_prefix<A>(x: Seq<A>, y: Seq<A>) -> bool {
    &&& x.len() <= y.len()
    &&& forall|k: int| 0 <= k < x.len() ==> x[k] == y[k]
}

/// Page `b` stores every value page `a` stores, at the same slots and of the
/// same kind, possibly followed by further ones.
pub open spec fn entry_extends(a: PageModel, b: PageModel) -> bool {
    match (a, b) {
        (PageModel::Int(x), PageModel::Int(y)) => seq_prefix(x, y),
        (PageModel::Text(x), PageModel::Text(y)) => seq_prefix(x, y),
        (PageModel::Bits(x), PageModel::Bits(y)) => seq_prefix(x, y),
        _ => false,
    }
}

/// Table model `m2` keeps every page of `m1`, with its kind and all its
/// stored values in place; pages and values are only ever added.
pub open spec fn extends(m1: Seq<PageModel>, m2: Seq<PageModel>) -> bool {
    &&& m1.len() <= m2.len()
    &&& forall|i: int| 0 <= i < m1.len() ==> entry_extends(#[trigger] m1[i], m2[i])
}

/// Number of pages of the given kind.
pub open spec fn count_kind(m: Seq<PageModel>, k: TypeKind) -> nat
    decreases m.len(),
{
    if m.len() == 0 {
        0
    } else {
        count_kind(m.drop_last(), k) + if kind_of(m.last()) == k {
            1nat
        } else {
            0nat
        }
    }
}

/// One allocation step grew the open page at index `i` in place by one value:
/// the only change from `m1` to `m2`, and it kept the page's kind.
pub open spec fn step_grows(m1: Seq<PageModel>, m2: Seq<PageModel>, i: int) -> bool {
    &&& 0 <= i < m1.len()
    &&& m2 == m1.update(i, m2[i])
    &&& entry_extends(m1[i], m2[i])
    &&& page_len(m2[i]) == page_len(m1[i]) + 1
}

/// One allocation step appended a fresh page holding a single value:
/// the only change from `m1` to `m2`.
pub open spec fn step_appends(m1: Seq<PageModel>, m2: Seq<PageModel>) -> bool {
    &&& m2.len() == m1.len() + 1
    &&& m2 == m1.push(m2.last())
    &&& page_len(m2.last()) == 1
}

/// A model reachable by allocation alone: every page within capacity and the
/// page count within what a handle can address.
pub open spec fn model_ok(m: Seq<PageModel>) -> bool {
    &&& m.len() <= MAX_PAGES
    &&& forall|i: int| 0 <= i < m.len() ==> page_len(#[trigger] m[i]) <= PAGE_LEN
}

/// Round-trip of the handle encoding: for every page index below
/// [`MAX_PAGES`] and slot index below [`PAGE_LEN`], decoding the packed raw
/// value gives back exactly the pair that was encoded.
pub proof fn lemma_handle_round_trip(page: int, slot: int)
    requires
        0 <= page < MAX_PAGES,
        0 <= slot < PAGE_LEN,
    ensures
        encode(page, slot) / (PAGE_LEN as int) == page,
        encode(page, slot) % (PAGE_LEN as int) == slot,
        0 <= encode(page, slot) < 0x1_0000_0000,
{
    assert((page * (PAGE_LEN as int) + slot) / (PAGE_LEN as int) == page && (page * (
    PAGE_LEN as int) + slot) % (PAGE_LEN as int) == slot) by (nonlinear_arith)
        requires
            0 <= page,
            0 <= slot < PAGE_LEN as int,
    ;
    assert(page * (PAGE_LEN as int) <= (MAX_PAGES - 1) * (PAGE_LEN as int)) by (nonlinear_arith)
        requires
            page <= MAX_PAGES - 1,
    ;
}

} // verus!
