use vstd::prelude::*;
use vstd::string::*;

use crate::context::Context;
use crate::to_display::Displayer;
use crate::to_display::ToDisplay;

verus! {

/// The text of a result: `Ok(` text of the value `)` under the given context, or `Err(`
/// plain text of the error `)`. The error is shown under the default context, so no setting
/// of the caller reaches it.
pub open spec fn result_text<T: ToDisplay, E: ToDisplay>(r: Result<T, E>, context: Context) -> Seq<
    char,
> {
    match r {
        Ok(t) => "Ok("@ + t.shown(context) + ")"@,
        Err(e) => "Err("@ + e.shown(Context::spec_default()) + ")"@,
    }
}

/// Displays a `Result<T, E>` as `Ok(...)` or `Err(...)`; what `Result<T, E>::display()`
/// returns.
pub type DisplayResult<'a, T, E> = Displayer<'a, Result<T, E>>;

impl<T: ToDisplay, E: ToDisplay> ToDisplay for Result<T, E> {
    open spec fn shown(&self, context: Context) -> Seq<char> {
        result_text(*self, context)
    }

    open spec fn faithful(&self) -> bool {
        match self {
            Ok(t) => t.faithful(),
            Err(e) => e.faithful(),
        }
    }

    fn write_shown(&self, context: Context, out: &mut String) {
        match self {
            Ok(t) => {
                out.append("Ok(");
                t.write_shown(context, out);
                out.append(")");
            },
            Err(e) => {
                out.append("Err(");
                e.write_shown(Context::default(), out);
                out.append(")");
            },
        }
        proof {
            assert(final(out)@ =~= old(out)@ + result_text(*self, context));
        }
    }
}

} // verus!

verus! {

/// A success shows as `Ok(` text of the value `)`; a failure as `Err(` plain text of the
/// error `)`, which no setting of the context changes.
pub proof fn result_rendering<T: ToDisplay, E: ToDisplay>(r: Result<T, E>, context: Context)
    ensures
        forall|x: T| r == Ok::<T, E>(x) ==> r.shown(context) == "Ok("@ + x.shown(context) + ")"@,
        forall|e: E|
            r == Err::<T, E>(e) ==> r.shown(context) == "Err("@ + e.shown(Context::spec_default())
                + ")"@,
        forall|other: Context| r is Err ==> r.shown(context) == r.shown(other),
{
}

} // verus!
