use lua_bind::vm::Lua;

#[test]
fn stack_balance_across_calls() {
    let mut lua = Lua::new();
    let depth_before = lua.stack_depth();

    lua.set("a", 7).unwrap();
    let _: Option<isize> = lua.get("a");
    let _: Option<bool> = lua.get("a");
    lua.set("b", "aaa").unwrap();
    let _: Option<isize> = lua.get("b");
    let _: Option<isize> = lua.get("never_bound");
    lua.set("c", ()).unwrap();
    let _: Option<String> = lua.get("c");

    assert_eq!(lua.stack_depth(), depth_before);
    assert_eq!(lua.stack_depth(), 0);
}

#[test]
fn unit_roundtrip() {
    let mut lua = Lua::new();

    lua.set("u", ()).unwrap();
    let x: Option<()> = lua.get("u");
    assert_eq!(x, Some(()));

    lua.set("n", 5).unwrap();
    let y: Option<()> = lua.get("n");
    assert!(y.is_none());
}

#[test]
fn unbound_global_reads_as_absence() {
    let mut lua = Lua::new();

    let x: Option<isize> = lua.get("missing");
    assert!(x.is_none());

    let u: Option<()> = lua.get("missing");
    assert_eq!(u, Some(()));
}

#[test]
fn strict_booleans_not_coerced() {
    let mut lua = Lua::new();

    lua.set("n", 1).unwrap();
    let x: Option<bool> = lua.get("n");
    assert!(x.is_none());

    lua.set("s", "true").unwrap();
    let y: Option<bool> = lua.get("s");
    assert!(y.is_none());

    lua.set("b", true).unwrap();
    let z: Option<String> = lua.get("b");
    assert!(z.is_none());
}

#[test]
fn negative_numbers() {
    let mut lua = Lua::new();

    lua.set("m", -5).unwrap();
    let x: isize = lua.get("m").unwrap();
    assert_eq!(x, -5);

    let s: String = lua.get("m").unwrap();
    assert_eq!(s.as_str(), "-5");

    lua.set("t", "-17").unwrap();
    let y: isize = lua.get("t").unwrap();
    assert_eq!(y, -17);
}

#[test]
fn narrowing_reads_truncate() {
    let mut lua = Lua::new();

    lua.set("big", 300).unwrap();
    let x: u8 = lua.get("big").unwrap();
    assert_eq!(x, 44);

    let y: i8 = lua.get("big").unwrap();
    assert_eq!(y, 44);
}

#[test]
fn native_width_roundtrip() {
    let mut lua = Lua::new();

    lua.set("w", usize::MAX).unwrap();
    let x: usize = lua.get("w").unwrap();
    assert_eq!(x, usize::MAX);

    lua.set("v", isize::MIN).unwrap();
    let y: isize = lua.get("v").unwrap();
    assert_eq!(y, isize::MIN);

    let s: String = lua.get("v").unwrap();
    assert_eq!(s.as_str(), "-9223372036854775808");
}

#[test]
fn negative_read_as_unsigned_wraps() {
    let mut lua = Lua::new();

    lua.set("m", -1).unwrap();
    let x: u8 = lua.get("m").unwrap();
    assert_eq!(x, 255);

    let y: u32 = lua.get("m").unwrap();
    assert_eq!(y, u32::MAX);
}

#[test]
fn overwriting_a_global() {
    let mut lua = Lua::new();

    lua.set("a", 1).unwrap();
    lua.set("a", "two").unwrap();
    let x: Option<isize> = lua.get("a");
    assert!(x.is_none());

    let s: String = lua.get("a").unwrap();
    assert_eq!(s.as_str(), "two");
}

#[test]
fn numeric_text_grammar() {
    let mut lua = Lua::new();

    lua.set("e", "").unwrap();
    let x: Option<isize> = lua.get("e");
    assert!(x.is_none());

    lua.set("s", " 2").unwrap();
    let y: Option<isize> = lua.get("s");
    assert!(y.is_none());

    lua.set("d", "007").unwrap();
    let z: isize = lua.get("d").unwrap();
    assert_eq!(z, 7);

    lua.set("j", "-").unwrap();
    let w: Option<isize> = lua.get("j");
    assert!(w.is_none());
}

#[test]
fn out_of_range_numeric_text() {
    let mut lua = Lua::new();

    lua.set("o", "99999999999999999999").unwrap();
    let x: Option<isize> = lua.get("o");
    assert!(x.is_none());

    lua.set("p", "-99999999999999999999").unwrap();
    let y: Option<isize> = lua.get("p");
    assert!(y.is_none());

    lua.set("q", "9223372036854775807").unwrap();
    let z: isize = lua.get("q").unwrap();
    assert_eq!(z, isize::MAX);

    lua.set("r", "-9223372036854775808").unwrap();
    let w: isize = lua.get("r").unwrap();
    assert_eq!(w, isize::MIN);
}

#[test]
fn set_never_fails() {
    let mut lua = Lua::new();

    assert!(lua.set("a", 3).is_ok());
    assert!(lua.set("b", "text").is_ok());
    assert!(lua.set("c", false).is_ok());
    assert!(lua.set("d", ()).is_ok());
}
