//! Building FFmpeg argument lists.

use vstd::prelude::*;
use crate::codec::{lemma_views_push, views};

verus! {

/// Appends `items` to `args`.
pub fn push_all(args: &mut Vec<String>, items: Vec<String>)
    ensures
        views(final(args)@) == views(old(args)@) + views(items@),
{
    let mut items = items;
    let ghost a = args@;
    let ghost b = items@;
    args.append(&mut items);
    assert(views(args@) =~= views(a) + views(b));
}

/// Appends one argument to `args`.
pub fn push_arg(args: &mut Vec<String>, item: String)
    ensures
        views(final(args)@) == views(old(args)@).push(item@),
{
    let ghost a = args@;
    args.push(item);
    proof {
        lemma_views_push(a, args@.last());
    }
}

} // verus!
