use vstd::prelude::*;
use vstd::string::*;

use crate::context::Context;
use crate::text::signed_decimal;
use crate::text::write_signed;
use crate::text::write_unsigned;
use crate::text::decimal;
use crate::to_display::ToDisplay;

verus! {

/// A `i8` shows as its decimal form; the context does not matter.
impl ToDisplay for i8 {
    open spec fn shown(&self, context: Context) -> Seq<char> {
        signed_decimal(*self as int)
    }

    open spec fn faithful(&self) -> bool {
        true
    }

    fn write_shown(&self, context: Context, out: &mut String) {
        write_signed(*self as i128, out);
    }
}

/// A `i16` shows as its decimal form; the context does not matter.
impl ToDisplay for i16 {
    open spec fn shown(&self, context: Context) -> Seq<char> {
        signed_decimal(*self as int)
    }

    open spec fn faithful(&self) -> bool {
        true
    }

    fn write_shown(&self, context: Context, out: &mut String) {
        write_signed(*self as i128, out);
    }
}

/// A `i32` shows as its decimal form; the context does not matter.
impl ToDisplay for i32 {
    open spec fn shown(&self, context: Context) -> Seq<char> {
        signed_decimal(*self as int)
    }

    open spec fn faithful(&self) -> bool {
        true
    }

    fn write_shown(&self, context: Context, out: &mut String) {
        write_signed(*self as i128, out);
    }
}

/// A `i64` shows as its decimal form; the context does not matter.
impl ToDisplay for i64 {
    open spec fn shown(&self, context: Context) -> Seq<char> {
        signed_decimal(*self as int)
    }

    open spec fn faithful(&self) -> bool {
        true
    }

    fn write_shown(&self, context: Context, out: &mut String) {
        write_signed(*self as i128, out);
    }
}

/// A `i128` shows as its decimal form; the context does not matter.
impl ToDisplay for i128 {
    open spec fn shown(&self, context: Context) -> Seq<char> {
        signed_decimal(*self as int)
    }

    open spec fn faithful(&self) -> bool {
        true
    }

    fn write_shown(&self, context: Context, out: &mut String) {
        write_signed(*self as i128, out);
    }
}

/// A `isize` shows as its decimal form; the context does not matter.
impl ToDisplay for isize {
    open spec fn shown(&self, context: Context) -> Seq<char> {
        signed_decimal(*self as int)
    }

    open spec fn faithful(&self) -> bool {
        true
    }

    fn write_shown(&self, context: Context, out: &mut String) {
        write_signed(*self as i128, out);
    }
}

/// A `u8` shows as its decimal digits; the context does not matter.
impl ToDisplay for u8 {
    open spec fn shown(&self, context: Context) -> Seq<char> {
        decimal(*self as nat)
    }

    open spec fn faithful(&self) -> bool {
        true
    }

    fn write_shown(&self, context: Context, out: &mut String) {
        write_unsigned(*self as u128, out);
    }
}

/// A `u16` shows as its decimal digits; the context does not matter.
impl ToDisplay for u16 {
    open spec fn shown(&self, context: Context) -> Seq<char> {
        decimal(*self as nat)
    }

    open spec fn faithful(&self) -> bool {
        true
    }

    fn write_shown(&self, context: Context, out: &mut String) {
        write_unsigned(*self as u128, out);
    }
}

/// A `u32` shows as its decimal digits; the context does not matter.
impl ToDisplay for u32 {
    open spec fn shown(&self, context: Context) -> Seq<char> {
        decimal(*self as nat)
    }

    open spec fn faithful(&self) -> bool {
        true
    }

    fn write_shown(&self, context: Context, out: &mut String) {
        write_unsigned(*self as u128, out);
    }
}

/// A `u64` shows as its decimal digits; the context does not matter.
impl ToDisplay for u64 {
    open spec fn shown(&self, context: Context) -> Seq<char> {
        decimal(*self as nat)
    }

    open spec fn faithful(&self) -> bool {
        true
    }

    fn write_shown(&self, context: Context, out: &mut String) {
        write_unsigned(*self as u128, out);
    }
}

/// A `u128` shows as its decimal digits; the context does not matter.
impl ToDisplay for u128 {
    open spec fn shown(&self, context: Context) -> Seq<char> {
        decimal(*self as nat)
    }

    open spec fn faithful(&self) -> bool {
        true
    }

    fn write_shown(&self, context: Context, out: &mut String) {
        write_unsigned(*self as u128, out);
    }
}

/// A `usize` shows as its decimal digits; the context does not matter.
impl ToDisplay for usize {
    open spec fn shown(&self, context: Context) -> Seq<char> {
        decimal(*self as nat)
    }

    open spec fn faithful(&self) -> bool {
        true
    }

    fn write_shown(&self, context: Context, out: &mut String) {
        write_unsigned(*self as u128, out);
    }
}

/// A `bool` shows as `true` or `false`.
impl ToDisplay for bool {
    open spec fn shown(&self, context: Context) -> Seq<char> {
        if *self {
            "true"@
        } else {
            "false"@
        }
    }

    open spec fn faithful(&self) -> bool {
        true
    }

    fn write_shown(&self, context: Context, out: &mut String) {
        if *self {
            out.append("true");
        } else {
            out.append("false");
        }
    }
}

/// A `char` shows as itself.
impl ToDisplay for char {
    open spec fn shown(&self, context: Context) -> Seq<char> {
        seq![*self]
    }

    open spec fn faithful(&self) -> bool {
        true
    }

    fn write_shown(&self, context: Context, out: &mut String) {
        out.push(*self);
    }
}

/// A `String` shows as its characters.
impl ToDisplay for String {
    open spec fn shown(&self, context: Context) -> Seq<char> {
        self@
    }

    open spec fn faithful(&self) -> bool {
        true
    }

    fn write_shown(&self, context: Context, out: &mut String) {
        out.append(self.as_str());
    }
}

/// A string slice shows as its characters.
impl<'b> ToDisplay for &'b str {
    open spec fn shown(&self, context: Context) -> Seq<char> {
        (*self)@
    }

    open spec fn faithful(&self) -> bool {
        true
    }

    fn write_shown(&self, context: Context, out: &mut String) {
        out.append(*self);
    }
}

} // verus!
