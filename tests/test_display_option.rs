use to_display::Context;
use to_display::DisplayConfig;
use to_display::ToDisplay;

struct Foo;

impl ToDisplay for Foo {
    fn write_shown(&self, _context: Context, out: &mut String) {
        out.push_str("Foo");
    }
}

#[test]
fn test_display_option() {
    let foo = None::<Foo>;

    assert_eq!(foo.display().to_string(), "-");
    assert_eq!(foo.display().verbose().to_string(), "None");

    let foo = Some(Foo);

    assert_eq!(foo.display().to_string(), "Foo");
    assert_eq!(foo.display().verbose().to_string(), "Some(Foo)");

    let foo = Some(Some(Foo));

    assert_eq!(foo.display().to_string(), "Foo");
    assert_eq!(foo.display().verbose().to_string(), "Some(Some(Foo))");
}
