use vstd::prelude::*;

use crate::context::Context;
use crate::display_config::DisplayConfig;

verus! {

/// A value that can be rendered as text under a [`Context`].
///
/// `shown` is the text of a value under a context; `write_shown` appends exactly that text.
/// Every implementation in this library states its `shown` and when it is `faithful`; an
/// implementation that keeps the defaults is not described by them.
pub trait ToDisplay {
    /// The text of this value under `context`.
    open spec fn shown(&self, context: Context) -> Seq<char> {
        Seq::empty()
    }

    /// Whether `write_shown` is bound to produce `shown`. Every implementation in this library
    /// states when: always, except for ordered maps whose key type does not obey the laws of
    /// its ordering and values that hold such a map. An implementation that keeps this default
    /// promises nothing.
    open spec fn faithful(&self) -> bool {
        false
    }

    /// Appends the text of this value under `context` to `out`.
    fn write_shown(&self, context: Context, out: &mut String)
        requires
            self.faithful(),
        ensures
            final(out)@ == old(out)@ + self.shown(context),
    ;

    /// Returns a displayer for this value that carries `context`.
    fn display_with_context(&self, context: Context) -> (r: Displayer<'_, Self>)
        ensures
            r.value == self,
            r.context == context,
    {
        Displayer { value: self, context }
    }

    /// Returns a displayer for this value with the default context.
    fn display(&self) -> (r: Displayer<'_, Self>)
        ensures
            r.value == self,
            r.context == Context::spec_default(),
    {
        self.display_with_context(Context::default())
    }
}

/// A value paired with the context it is to be rendered under.
///
/// This is what `display` and `display_with_context` return; the context can be adjusted
/// through [`DisplayConfig`] before the displayer is turned into text.
pub struct Displayer<'a, T: ?Sized> {
    pub value: &'a T,
    pub context: Context,
}

impl<'a, T: ToDisplay + ?Sized> Displayer<'a, T> {
    /// Renders the value under the carried context.
    pub fn to_string(&self) -> (r: String)
        requires
            self.value.faithful(),
        ensures
            r@ == self.value.shown(self.context),
    {
        let mut out = String::new();
        self.value.write_shown(self.context, &mut out);
        proof {
            assert(out@ =~= self.value.shown(self.context));
        }
        out
    }
}

impl<'a, T: ?Sized> DisplayConfig for Displayer<'a, T> {
    open spec fn context_of(&self) -> Context {
        self.context
    }

    open spec fn with_context(&self, context: Context) -> Self {
        Displayer { context, ..*self }
    }

    fn context(&self) -> (r: Context) {
        self.context
    }

    fn set_context(&mut self, context: Context) {
        self.context = context;
    }
}

} // verus!

verus! {

/// Rendering is a function of the value and the context alone: two renderings of one value
/// under one context give the same text, and neither changes the value.
pub proof fn render_is_deterministic<T: ToDisplay + ?Sized>(
    value: &T,
    context: Context,
    first: Seq<char>,
    second: Seq<char>,
)
    requires
        first == value.shown(context),
        second == value.shown(context),
    ensures
        first == second,
{
}

} // verus!
