//! The small vectors of the `minivec` crate that hold expressions and tables.
//!
//! `MiniVec` is opaque to the verifier; what a list holds is given a name, and
//! each method that the parsers call has a wrapper that states, over that name,
//! what the method does to the contents.

use vstd::prelude::*;

use minivec::MiniVec;

use crate::common::expr::Expr;
use crate::common::from::{SpecTable, Table};

verus! {

#[verifier::external_type_specification]
#[verifier::external_body]
#[verifier::reject_recursive_types(T)]
pub struct ExMiniVec<T>(MiniVec<T>);

/// The expressions that a list holds, in order.
pub uninterp spec fn expr_list_items(v: MiniVec<Expr<'_>>) -> Seq<Expr<'_>>;

/// The tables that a list holds, in order, each taken by its view.
pub uninterp spec fn table_list_items(v: MiniVec<Table<'_>>) -> Seq<SpecTable<'_>>;

/// `MiniVec::new` for expressions: an empty list. (It panics only for
/// zero-sized element types, which `Expr` is not.)
#[verifier::external_body]
pub(crate) fn expr_list_new<'a>() -> (r: MiniVec<Expr<'a>>)
    ensures
        expr_list_items(r) == Seq::<Expr<'a>>::empty(),
{
    MiniVec::new()
}

/// `MiniVec::with_capacity` for expressions: an empty list with room for
/// `capacity` items.
#[verifier::external_body]
pub(crate) fn expr_list_with_capacity<'a>(capacity: usize) -> (r: MiniVec<Expr<'a>>)
    ensures
        expr_list_items(r) == Seq::<Expr<'a>>::empty(),
{
    MiniVec::with_capacity(capacity)
}

/// `MiniVec::push` for expressions: appends `e` at the end of the list.
#[verifier::external_body]
pub(crate) fn expr_list_push<'a>(v: &mut MiniVec<Expr<'a>>, e: Expr<'a>)
    ensures
        expr_list_items(*final(v)) == expr_list_items(*old(v)).push(e),
{
    v.push(e);
}

/// `MiniVec::new` for tables: an empty list.
#[verifier::external_body]
pub(crate) fn table_list_new<'a>() -> (r: MiniVec<Table<'a>>)
    ensures
        table_list_items(r) == Seq::<SpecTable<'a>>::empty(),
{
    MiniVec::new()
}

/// `MiniVec::push` for tables: appends `x` at the end of the list.
#[verifier::external_body]
pub(crate) fn table_list_push<'a>(v: &mut MiniVec<Table<'a>>, x: Table<'a>)
    ensures
        table_list_items(*final(v)) == table_list_items(*old(v)).push(x@),
{
    v.push(x);
}

/// `MiniVec::is_empty` for tables: whether the list holds no table.
#[verifier::external_body]
pub(crate) fn table_list_is_empty<'a>(v: &MiniVec<Table<'a>>) -> (r: bool)
    ensures
        r == (table_list_items(*v).len() == 0),
{
    v.is_empty()
}

} // verus!
