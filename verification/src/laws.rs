//! Laws of the arena, stated over the abstract model and proved once and
//! for all: handles are stable, allocation only ever extends the stored
//! state, and an allocation of one kind never disturbs the pages of another.
//!
//! The round-trip law of the handle encoding is
//! [`crate::model::lemma_handle_round_trip`].

use vstd::prelude::*;

use crate::arena::{Arena, alloc_bits_post, alloc_int_post, alloc_text_post, has_room};
use crate::model::{
    PageModel, TypeKind, bits_at, bits_handle_ok, count_kind, entry_extends, extends, handle_ok,
    int_at, int_handle_ok, kind_of, page_of, text_at, text_handle_ok,
};
use crate::table::PageIndex;

verus! {

/// Handle stability: once a table model extends another, every handle that
/// was in bounds stays in bounds, keeps its page's kind, and reads back the
/// very same value — no relocation or compaction ever occurs.
pub proof fn lemma_handle_stability(m1: Seq<PageModel>, m2: Seq<PageModel>, raw: u32)
    requires
        extends(m1, m2),
        handle_ok(m1, raw),
    ensures
        handle_ok(m2, raw),
        kind_of(m2[page_of(raw)]) == kind_of(m1[page_of(raw)]),
        int_at(m2, raw) == int_at(m1, raw),
        text_at(m2, raw) == text_at(m1, raw),
        bits_at(m2, raw) == bits_at(m1, raw),
{
    let p = page_of(raw);
    assert(entry_extends(m1[p], m2[p]));
}

/// Extension is transitive, so handle stability holds across arbitrarily
/// many further allocations, not just one.
pub proof fn lemma_extends_transitive(m1: Seq<PageModel>, m2: Seq<PageModel>, m3: Seq<PageModel>)
    requires
        extends(m1, m2),
        extends(m2, m3),
    ensures
        extends(m1, m3),
{
    assert forall|i: int| 0 <= i < m1.len() implies entry_extends(#[trigger] m1[i], m3[i]) by {
        assert(entry_extends(m1[i], m2[i]));
        assert(entry_extends(m2[i], m3[i]));
    }
}

/// A model extends itself.
pub proof fn lemma_extends_reflexive(m: Seq<PageModel>)
    ensures
        extends(m, m),
{
}

/// Appending one page adds one to its kind's page count and leaves every
/// other kind's count alone.
proof fn lemma_count_push(m: Seq<PageModel>, e: PageModel, k: TypeKind)
    ensures
        count_kind(m.push(e), k) == count_kind(m, k) + if kind_of(e) == k {
            1nat
        } else {
            0nat
        },
{
    assert(m.push(e).drop_last() =~= m);
    assert(m.push(e).last() == e);
}

/// Replacing one page by a page of the same kind changes no kind's count.
proof fn lemma_count_update_same_kind(m1: Seq<PageModel>, m2: Seq<PageModel>, i: int, k: TypeKind)
    requires
        m1.len() == m2.len(),
        0 <= i < m1.len(),
        kind_of(m1[i]) == kind_of(m2[i]),
        forall|j: int| 0 <= j < m1.len() && j != i ==> m1[j] == #[trigger] m2[j],
    ensures
        count_kind(m1, k) == count_kind(m2, k),
    decreases m1.len(),
{
    if i == m1.len() - 1 {
        assert(m1.drop_last() =~= m2.drop_last());
    } else {
        assert(m1.drop_last().len() == m2.drop_last().len());
        lemma_count_update_same_kind(m1.drop_last(), m2.drop_last(), i, k);
        assert(m1.last() == m2.last());
    }
}

/// Allocate-then-resolve for integer values: after the allocation step the
/// returned handle is in bounds and reads back the allocated value, and the
/// new model extends the old one, so by [`lemma_handle_stability`] every
/// older handle still reads its original value.
pub proof fn lemma_alloc_int_extends(
    pre: Seq<PageModel>,
    c: Option<PageIndex>,
    post: Seq<PageModel>,
    raw: u32,
    value: i64,
)
    requires
        Arena::cache_ok(pre, c, TypeKind::Int),
        alloc_int_post(pre, c, post, raw, value),
    ensures
        extends(pre, post),
        int_handle_ok(post, raw),
        int_at(post, raw) == value,
{
}

/// Allocate-then-resolve for text values; see [`lemma_alloc_int_extends`].
pub proof fn lemma_alloc_text_extends(
    pre: Seq<PageModel>,
    c: Option<PageIndex>,
    post: Seq<PageModel>,
    raw: u32,
    value: String,
)
    requires
        Arena::cache_ok(pre, c, TypeKind::Text),
        alloc_text_post(pre, c, post, raw, value),
    ensures
        extends(pre, post),
        text_handle_ok(post, raw),
        text_at(post, raw) == value,
{
}

/// Allocate-then-resolve for bits values; see [`lemma_alloc_int_extends`].
pub proof fn lemma_alloc_bits_extends(
    pre: Seq<PageModel>,
    c: Option<PageIndex>,
    post: Seq<PageModel>,
    raw: u32,
    value: u64,
)
    requires
        Arena::cache_ok(pre, c, TypeKind::Bits),
        alloc_bits_post(pre, c, post, raw, value),
    ensures
        extends(pre, post),
        bits_handle_ok(post, raw),
        bits_at(post, raw) == value,
{
}

/// Page growth boundary and type isolation for one integer allocation: the
/// page count grows by one exactly when the open integer page was absent or
/// full; the integer page count alone can change; and every page of another
/// kind is left untouched.
pub proof fn lemma_alloc_int_growth(
    pre: Seq<PageModel>,
    c: Option<PageIndex>,
    post: Seq<PageModel>,
    raw: u32,
    value: i64,
)
    requires
        Arena::cache_ok(pre, c, TypeKind::Int),
        alloc_int_post(pre, c, post, raw, value),
    ensures
        post.len() == pre.len() + if has_room(pre, c) {
            0int
        } else {
            1int
        },
        count_kind(post, TypeKind::Int) == count_kind(pre, TypeKind::Int) + if has_room(pre, c) {
            0nat
        } else {
            1nat
        },
        count_kind(post, TypeKind::Text) == count_kind(pre, TypeKind::Text),
        count_kind(post, TypeKind::Bits) == count_kind(pre, TypeKind::Bits),
        forall|j: int|
            0 <= j < pre.len() && kind_of(#[trigger] pre[j]) != TypeKind::Int ==> post[j] == pre[j],
{
    if has_room(pre, c) {
        let i = (c->0)@;
        lemma_count_update_same_kind(pre, post, i, TypeKind::Int);
        lemma_count_update_same_kind(pre, post, i, TypeKind::Text);
        lemma_count_update_same_kind(pre, post, i, TypeKind::Bits);
    } else {
        lemma_count_push(pre, PageModel::Int(seq![value]), TypeKind::Int);
        lemma_count_push(pre, PageModel::Int(seq![value]), TypeKind::Text);
        lemma_count_push(pre, PageModel::Int(seq![value]), TypeKind::Bits);
    }
}

/// Page growth boundary and type isolation for one text allocation; see
/// [`lemma_alloc_int_growth`].
pub proof fn lemma_alloc_text_growth(
    pre: Seq<PageModel>,
    c: Option<PageIndex>,
    post: Seq<PageModel>,
    raw: u32,
    value: String,
)
    requires
        Arena::cache_ok(pre, c, TypeKind::Text),
        alloc_text_post(pre, c, post, raw, value),
    ensures
        post.len() == pre.len() + if has_room(pre, c) {
            0int
        } else {
            1int
        },
        count_kind(post, TypeKind::Text) == count_kind(pre, TypeKind::Text) + if has_room(pre, c) {
            0nat
        } else {
            1nat
        },
        count_kind(post, TypeKind::Int) == count_kind(pre, TypeKind::Int),
        count_kind(post, TypeKind::Bits) == count_kind(pre, TypeKind::Bits),
        forall|j: int|
            0 <= j < pre.len() && kind_of(#[trigger] pre[j]) != TypeKind::Text ==> post[j]
                == pre[j],
{
    if has_room(pre, c) {
        let i = (c->0)@;
        lemma_count_update_same_kind(pre, post, i, TypeKind::Int);
        lemma_count_update_same_kind(pre, post, i, TypeKind::Text);
        lemma_count_update_same_kind(pre, post, i, TypeKind::Bits);
    } else {
        lemma_count_push(pre, PageModel::Text(seq![value]), TypeKind::Int);
        lemma_count_push(pre, PageModel::Text(seq![value]), TypeKind::Text);
        lemma_count_push(pre, PageModel::Text(seq![value]), TypeKind::Bits);
    }
}

/// Page growth boundary and type isolation for one bits allocation; see
/// [`lemma_alloc_int_growth`].
pub proof fn lemma_alloc_bits_growth(
    pre: Seq<PageModel>,
    c: Option<PageIndex>,
    post: Seq<PageModel>,
    raw: u32,
    value: u64,
)
    requires
        Arena::cache_ok(pre, c, TypeKind::Bits),
        alloc_bits_post(pre, c, post, raw, value),
    ensures
        post.len() == pre.len() + if has_room(pre, c) {
            0int
        } else {
            1int
        },
        count_kind(post, TypeKind::Bits) == count_kind(pre, TypeKind::Bits) + if has_room(pre, c) {
            0nat
        } else {
            1nat
        },
        count_kind(post, TypeKind::Int) == count_kind(pre, TypeKind::Int),
        count_kind(post, TypeKind::Text) == count_kind(pre, TypeKind::Text),
        forall|j: int|
            0 <= j < pre.len() && kind_of(#[trigger] pre[j]) != TypeKind::Bits ==> post[j]
                == pre[j],
{
    if has_room(pre, c) {
        let i = (c->0)@;
        lemma_count_update_same_kind(pre, post, i, TypeKind::Int);
        lemma_count_update_same_kind(pre, post, i, TypeKind::Text);
        lemma_count_update_same_kind(pre, post, i, TypeKind::Bits);
    } else {
        lemma_count_push(pre, PageModel::Bits(seq![value]), TypeKind::Int);
        lemma_count_push(pre, PageModel::Bits(seq![value]), TypeKind::Text);
        lemma_count_push(pre, PageModel::Bits(seq![value]), TypeKind::Bits);
    }
}

} // verus!
