use vstd::prelude::*;
use vstd::string::*;

use crate::context::Context;
use crate::to_display::Displayer;
use crate::to_display::ToDisplay;

verus! {

/// The texts of `items`, in order, separated by `, `.
pub open spec fn joined<T: ToDisplay>(items: Seq<T>, context: Context) -> Seq<char>
    decreases items.len(),
{
    if items.len() == 0 {
        Seq::empty()
    } else if items.len() == 1 {
        items[0].shown(context)
    } else {
        joined(items.drop_last(), context) + ", "@ + items.last().shown(context)
    }
}

/// How many of `len` items are shown under `context`: all of them, or the cap if there are
/// more.
pub open spec fn shown_count(len: nat, context: Context) -> nat {
    if len <= context.item_cap() {
        len
    } else {
        context.item_cap()
    }
}

/// The text of a sequence: `[`, the first items up to the cap separated by `, `, then `, ...`
/// if items were left out, then `]`.
pub open spec fn slice_text<T: ToDisplay>(items: Seq<T>, context: Context) -> Seq<char> {
    "["@ + joined(items.take(shown_count(items.len(), context) as int), context) + (if items.len()
        > context.item_cap() {
        ", ..."@
    } else {
        Seq::empty()
    }) + "]"@
}

/// Displays a slice `[T]` or a `Vec<T>`; what `display()` on either returns.
pub type DisplaySlice<'a, T> = Displayer<'a, [T]>;

/// Whether every item is faithful.
pub open spec fn all_faithful<T: ToDisplay>(items: Seq<T>) -> bool {
    forall|i: int| 0 <= i < items.len() ==> #[trigger] items[i].faithful()
}

/// Appends the text of a sequence of items under `context`.
fn write_items<T: ToDisplay>(items: &[T], context: Context, out: &mut String)
    requires
        all_faithful(items@),
    ensures
        final(out)@ == old(out)@ + slice_text(items@, context),
{
    let max_items = context.max_items();
    let len = items.len();
    let k = if len <= max_items {
        len
    } else {
        max_items
    };
    out.append("[");
    let ghost start = old(out)@ + "["@;
    let mut i: usize = 0;
    while i < k
        invariant
            k as nat == shown_count(items@.len(), context),
            k <= items@.len(),
            i <= k,
            all_faithful(items@),
            out@ == start + joined(items@.take(i as int), context),
        decreases k - i,
    {
        if i > 0 {
            out.append(", ");
        }
        assert(items@[i as int].faithful());
        items[i].write_shown(context, out);
        proof {
            let next = items@.take(i + 1);
            assert(next.drop_last() =~= items@.take(i as int));
            if i == 0 {
                assert(items@.take(0) =~= Seq::<T>::empty());
            }
            assert(out@ =~= start + joined(next, context));
        }
        i = i + 1;
    }
    if len > max_items {
        out.append(", ...");
    }
    out.append("]");
    proof {
        assert(final(out)@ =~= old(out)@ + slice_text(items@, context));
    }
}

impl<T: ToDisplay> ToDisplay for [T] {
    open spec fn shown(&self, context: Context) -> Seq<char> {
        slice_text(self@, context)
    }

    open spec fn faithful(&self) -> bool {
        all_faithful(self@)
    }

    fn write_shown(&self, context: Context, out: &mut String) {
        write_items(self, context, out);
    }
}

impl<T: ToDisplay> ToDisplay for Vec<T> {
    open spec fn shown(&self, context: Context) -> Seq<char> {
        slice_text(self@, context)
    }

    open spec fn faithful(&self) -> bool {
        all_faithful(self@)
    }

    fn write_shown(&self, context: Context, out: &mut String) {
        write_items(self.as_slice(), context, out);
    }
}

} // verus!

verus! {

/// A sequence of `L` items under a cap `C` shows exactly `min(L, C)` items, in order; it ends
/// in `, ...]` when `L > C` and in the last shown item and `]` otherwise.
pub proof fn sequence_cap<T: ToDisplay>(items: Seq<T>, context: Context)
    ensures
        shown_count(items.len(), context) == if items.len() <= context.item_cap() {
            items.len()
        } else {
            context.item_cap()
        },
        items.len() <= context.item_cap() ==> slice_text(items, context) == "["@ + joined(
            items,
            context,
        ) + "]"@,
        items.len() > context.item_cap() ==> slice_text(items, context) == "["@ + joined(
            items.take(context.item_cap() as int),
            context,
        ) + ", ...]"@,
{
    reveal_strlit(", ...");
    reveal_strlit("]");
    reveal_strlit(", ...]");
    if items.len() <= context.item_cap() {
        assert(items.take(items.len() as int) =~= items);
        assert(slice_text(items, context) =~= "["@ + joined(items, context) + "]"@);
    } else {
        assert(slice_text(items, context) =~= "["@ + joined(
            items.take(context.item_cap() as int),
            context,
        ) + ", ...]"@);
    }
}

} // verus!
