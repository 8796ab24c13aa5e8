use std::collections::BTreeMap;

use to_display::write_map;
use to_display::Context;
use to_display::DisplayConfig;
use to_display::LocalOrUTC;
use to_display::ToDisplay;

#[test]
fn nested_cap_reaches_inner_sequence() {
    let v = Some(vec![1, 2, 3, 4]);
    assert_eq!(v.display().limit_items(2).to_string(), "[1, 2, ...]");
}

#[test]
fn sequence_at_exact_cap_has_no_ellipsis() {
    let v = vec![1u8, 2, 3];
    assert_eq!(v.display().limit_items(3).to_string(), "[1, 2, 3]");
    assert_eq!(v.display().limit_items(0).to_string(), "[, ...]");
}

#[test]
fn empty_collections() {
    let v: Vec<u32> = Vec::new();
    assert_eq!(v.display().to_string(), "[]");
    let m: BTreeMap<u32, u32> = BTreeMap::new();
    assert_eq!(m.display().to_string(), "{}");
}

#[test]
fn map_keys_ascend_whatever_the_insertion_order() {
    let mut m = BTreeMap::new();
    m.insert(30u16, "c");
    m.insert(10, "a");
    m.insert(20, "b");
    assert_eq!(m.display().to_string(), "{10: a, 20: b, 30: c}");
    let mut out = String::from("map=");
    write_map(&m, Context::default(), &mut out);
    assert_eq!(out, "map={10: a, 20: b, 30: c}");
}

#[test]
fn option_cases() {
    assert_eq!(None::<i32>.display().to_string(), "-");
    assert_eq!(None::<i32>.display().verbose().to_string(), "None");
    assert_eq!(Some(7i32).display().to_string(), "7");
    assert_eq!(Some(7i32).display().verbose().to_string(), "Some(7)");
}

#[test]
fn result_error_ignores_the_context() {
    let r: Result<u8, Option<u8>> = Err(None);
    assert_eq!(r.display().verbose().to_string(), "Err(-)");
    let r: Result<Option<u8>, String> = Err(String::from("bad"));
    assert_eq!(r.display().verbose().to_string(), "Err(bad)");
}

#[test]
fn integers_in_decimal() {
    assert_eq!(0u32.display().to_string(), "0");
    assert_eq!(Some(-45i16).display().to_string(), "-45");
    assert_eq!(Some(i128::MIN).display().to_string(), "-170141183460469231731687303715884105728");
    assert_eq!(Some(u128::MAX).display().to_string(), "340282366920938463463374607431768211455");
    assert_eq!(Some(i8::MIN).display().to_string(), "-128");
    assert_eq!(Some(usize::MAX).display().to_string(), usize::MAX.to_string());
}

#[test]
fn other_primitives() {
    assert_eq!(vec![true, false].display().to_string(), "[true, false]");
    assert_eq!(vec!['x', 'y'].display().to_string(), "[x, y]");
    assert_eq!(Some(String::from("hi")).display().verbose().to_string(), "Some(hi)");
}

#[test]
fn context_defaults() {
    let c = Context::default();
    assert!(!c.verbose());
    assert_eq!(c.max_items(), 32);
    assert!(c.is_local_time());
    assert!(!c.is_utc_time());
    assert_eq!(c.time_format(), "%H:%M:%S%.6f");
    assert_eq!(LocalOrUTC::default(), LocalOrUTC::Local);
}

#[test]
fn builders_set_one_field_each() {
    let v = Some(1u8);
    let d = v.display().use_utc_time().with_time_format("%Y");
    let c = d.context();
    assert!(c.is_utc_time());
    assert!(!c.is_local_time());
    assert_eq!(c.local_or_utc, Some(LocalOrUTC::Utc));
    assert_eq!(c.time_format(), "%Y");
    assert_eq!(c.max_items(), 32);
    let c = d.use_local_time().use_full_time().context();
    assert!(c.is_local_time());
    assert_eq!(c.time_format(), "%Y-%m-%dT%H:%M:%S%.6fZ%z");
    let c = v.display().use_full_time().use_short_time().context();
    assert_eq!(c.time_format(), "%H:%M:%S%.6f");
    let c = v.display().with_time_format("FULL").limit_items(4).verbose().context();
    assert_eq!(c.time_format(), "%Y-%m-%dT%H:%M:%S%.6fZ%z");
    assert_eq!(c.max_items(), 4);
    assert!(c.verbose());
}

#[test]
fn rendering_twice_gives_the_same_text() {
    let v = vec![Some(1i64), None, Some(-3)];
    let d = v.display().verbose();
    assert_eq!(d.to_string(), d.to_string());
    assert_eq!(d.to_string(), "[Some(1), None, Some(-3)]");
    assert_eq!(v, vec![Some(1i64), None, Some(-3)]);
}

#[test]
fn maps_with_same_contents_render_alike() {
    let mut a = BTreeMap::new();
    a.insert(2i32, Some(20u8));
    a.insert(-1, None);
    a.insert(7, Some(70));
    let mut b = BTreeMap::new();
    b.insert(7i32, Some(70u8));
    b.insert(2, Some(20));
    b.insert(-1, None);
    assert_eq!(a.display().verbose().to_string(), b.display().verbose().to_string());
    assert_eq!(a.display().verbose().to_string(), "{-1: None, 2: Some(20), 7: Some(70)}");
}
