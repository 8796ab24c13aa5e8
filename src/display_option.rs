use vstd::prelude::*;
use vstd::string::*;

use crate::context::Context;
use crate::to_display::Displayer;
use crate::to_display::ToDisplay;

verus! {

/// The text of an optional value: with verbose on, `Some(x)` / `None`; otherwise the text of
/// the inner value itself / `-`. The inner value is shown under the same context.
pub open spec fn option_text<T: ToDisplay>(o: Option<T>, context: Context) -> Seq<char> {
    match o {
        Some(t) => if context.is_verbose() {
            "Some("@ + t.shown(context) + ")"@
        } else {
            t.shown(context)
        },
        None => if context.is_verbose() {
            "None"@
        } else {
            "-"@
        },
    }
}

/// Displays an `Option<T>`; what `Option<T>::display()` returns.
pub type DisplayOption<'a, T> = Displayer<'a, Option<T>>;

impl<T: ToDisplay> ToDisplay for Option<T> {
    open spec fn shown(&self, context: Context) -> Seq<char> {
        option_text(*self, context)
    }

    open spec fn faithful(&self) -> bool {
        match self {
            Some(t) => t.faithful(),
            None => true,
        }
    }

    fn write_shown(&self, context: Context, out: &mut String) {
        match self {
            Some(t) => {
                if context.verbose() {
                    out.append("Some(");
                    t.write_shown(context, out);
                    out.append(")");
                } else {
                    t.write_shown(context, out);
                }
            },
            None => {
                if context.verbose() {
                    out.append("None");
                } else {
                    out.append("-");
                }
            },
        }
        proof {
            assert(final(out)@ =~= old(out)@ + option_text(*self, context));
        }
    }

}

} // verus!

verus! {

/// An absent value shows as `-`, or as `None` when verbose; a present one shows as the text of
/// the inner value, wrapped in `Some(...)` when verbose.
pub proof fn option_rendering<T: ToDisplay>(o: Option<T>, context: Context)
    ensures
        o is None && !context.is_verbose() ==> o.shown(context) == "-"@,
        o is None && context.is_verbose() ==> o.shown(context) == "None"@,
        forall|x: T|
            o == Some(x) && !context.is_verbose() ==> o.shown(context) == x.shown(context),
        forall|x: T|
            o == Some(x) && context.is_verbose() ==> o.shown(context) == "Some("@ + x.shown(
                context,
            ) + ")"@,
{
}

} // verus!
