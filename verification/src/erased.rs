//! Trusted boundary around the type-erased page container.
//!
//! A table entry is a `tany::LTAny`: a type-erased box that remembers the
//! concrete type it was created with and hands the value back only to a
//! downcast requesting that exact type. Verus sees the box as opaque; the
//! uninterpreted functions below name what a box of each storable page type
//! holds, and the wrappers state, over those names, what `tany`'s source
//! shows of `LTAny::new`, `LTAny::downcast_ref` and `LTAny::downcast_mut`.

use vstd::prelude::*;

use crate::page::Page;

verus! {

#[verifier::external_type_specification]
#[verifier::external_body]
pub struct ExLTAny(tany::LTAny);

/// The values of the integer page stored in this box, if the box was created
/// from a `Page<i64>`; `None` if it stores any other type.
pub uninterp spec fn int_cell(a: tany::LTAny) -> Option<Seq<i64>>;

/// The values of the text page stored in this box, if the box was created
/// from a `Page<String>`; `None` if it stores any other type.
pub uninterp spec fn text_cell(a: tany::LTAny) -> Option<Seq<String>>;

/// The values of the bits page stored in this box, if the box was created
/// from a `Page<u64>`; `None` if it stores any other type.
pub uninterp spec fn bits_cell(a: tany::LTAny) -> Option<Seq<u64>>;

/// Relies on `tany::LTAny::new`: the box stores the given value under its
/// concrete type, and downcasts to any other type return `None`.
#[verifier::external_body]
pub(crate) fn erase_int_page(p: Page<i64>) -> (r: tany::LTAny)
    ensures
        int_cell(r) == Some(p@),
        text_cell(r) == None::<Seq<String>>,
        bits_cell(r) == None::<Seq<u64>>,
{
    tany::LTAny::new(p)
}

/// Relies on `tany::LTAny::new`: the box stores the given value under its
/// concrete type, and downcasts to any other type return `None`.
#[verifier::external_body]
pub(crate) fn erase_text_page(p: Page<String>) -> (r: tany::LTAny)
    ensures
        text_cell(r) == Some(p@),
        int_cell(r) == None::<Seq<i64>>,
        bits_cell(r) == None::<Seq<u64>>,
{
    tany::LTAny::new(p)
}

/// Relies on `tany::LTAny::new`: the box stores the given value under its
/// concrete type, and downcasts to any other type return `None`.
#[verifier::external_body]
pub(crate) fn erase_bits_page(p: Page<u64>) -> (r: tany::LTAny)
    ensures
        bits_cell(r) == Some(p@),
        int_cell(r) == None::<Seq<i64>>,
        text_cell(r) == None::<Seq<String>>,
{
    tany::LTAny::new(p)
}

/// Relies on `tany::LTAny::downcast_ref`: `Some` referencing the stored value
/// exactly when the stored type is the requested one, `None` otherwise.
#[verifier::external_body]
pub(crate) fn open_int_page(a: &tany::LTAny) -> (r: Option<&Page<i64>>)
    ensures
        match r {
            Some(p) => int_cell(*a) == Some(p@),
            None => int_cell(*a) is None,
        },
{
    a.downcast_ref::<Page<i64>>()
}

/// Relies on `tany::LTAny::downcast_ref`: `Some` referencing the stored value
/// exactly when the stored type is the requested one, `None` otherwise.
#[verifier::external_body]
pub(crate) fn open_text_page(a: &tany::LTAny) -> (r: Option<&Page<String>>)
    ensures
        match r {
            Some(p) => text_cell(*a) == Some(p@),
            None => text_cell(*a) is None,
        },
{
    a.downcast_ref::<Page<String>>()
}

/// Relies on `tany::LTAny::downcast_ref`: `Some` referencing the stored value
/// exactly when the stored type is the requested one, `None` otherwise.
#[verifier::external_body]
pub(crate) fn open_bits_page(a: &tany::LTAny) -> (r: Option<&Page<u64>>)
    ensures
        match r {
            Some(p) => bits_cell(*a) == Some(p@),
            None => bits_cell(*a) is None,
        },
{
    a.downcast_ref::<Page<u64>>()
}

/// Relies on `tany::LTAny::downcast_mut`: when the stored type is the
/// requested one it returns a mutable reference to the stored value, and the
/// box then holds whatever that reference was left pointing at, still under
/// the same type.
#[verifier::external_body]
pub(crate) fn open_int_page_mut(a: &mut tany::LTAny) -> (r: &mut Page<i64>)
    requires
        int_cell(*old(a)) is Some,
    ensures
        int_cell(*old(a)) == Some((*r)@),
        int_cell(*final(a)) == Some((*final(r))@),
        text_cell(*final(a)) == text_cell(*old(a)),
        bits_cell(*final(a)) == bits_cell(*old(a)),
{
    a.downcast_mut::<Page<i64>>().unwrap()
}

/// Relies on `tany::LTAny::downcast_mut`: when the stored type is the
/// requested one it returns a mutable reference to the stored value, and the
/// box then holds whatever that reference was left pointing at, still under
/// the same type.
#[verifier::external_body]
pub(crate) fn open_text_page_mut(a: &mut tany::LTAny) -> (r: &mut Page<String>)
    requires
        text_cell(*old(a)) is Some,
    ensures
        text_cell(*old(a)) == Some((*r)@),
        text_cell(*final(a)) == Some((*final(r))@),
        int_cell(*final(a)) == int_cell(*old(a)),
        bits_cell(*final(a)) == bits_cell(*old(a)),
{
    a.downcast_mut::<Page<String>>().unwrap()
}

/// Relies on `tany::LTAny::downcast_mut`: when the stored type is the
/// requested one it returns a mutable reference to the stored value, and the
/// box then holds whatever that reference was left pointing at, still under
/// the same type.
#[verifier::external_body]
pub(crate) fn open_bits_page_mut(a: &mut tany::LTAny) -> (r: &mut Page<u64>)
    requires
        bits_cell(*old(a)) is Some,
    ensures
        bits_cell(*old(a)) == Some((*r)@),
        bits_cell(*final(a)) == Some((*final(r))@),
        int_cell(*final(a)) == int_cell(*old(a)),
        text_cell(*final(a)) == text_cell(*old(a)),
{
    a.downcast_mut::<Page<u64>>().unwrap()
}

} // verus!
