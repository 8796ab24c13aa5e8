use to_display::Context;
use to_display::ToDisplay;

struct Foo(u64);

/// Customize the display of `Foo`.
impl ToDisplay for Foo {
    fn write_shown(&self, _context: Context, out: &mut String) {
        out.push_str(&format!("Foo({})", self.0));
    }
}

#[test]
fn test_impl_to_display() {
    assert_eq!(Foo(42).display().to_string(), "Foo(42)");
}
