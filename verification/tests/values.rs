use lua_bind::vm::Lua;

#[test]
fn read_ints() {
    let mut lua = Lua::new();

    lua.set("a", 2).unwrap();

    let x: isize = lua.get("a").unwrap();
    assert_eq!(x, 2);

    let y: i8 = lua.get("a").unwrap();
    assert_eq!(y, 2);

    let z: i16 = lua.get("a").unwrap();
    assert_eq!(z, 2);

    let w: i32 = lua.get("a").unwrap();
    assert_eq!(w, 2);

    let a: usize = lua.get("a").unwrap();
    assert_eq!(a, 2);

    let b: u8 = lua.get("a").unwrap();
    assert_eq!(b, 2);

    let c: u16 = lua.get("a").unwrap();
    assert_eq!(c, 2);

    let d: u32 = lua.get("a").unwrap();
    assert_eq!(d, 2);
}

#[test]
fn write_ints() {
    let mut lua = Lua::new();

    lua.set("a", 2).unwrap();
    let x: isize = lua.get("a").unwrap();
    assert_eq!(x, 2);
}

#[test]
fn readwrite_bools() {
    let mut lua = Lua::new();

    lua.set("a", true).unwrap();
    lua.set("b", false).unwrap();

    let x: bool = lua.get("a").unwrap();
    assert_eq!(x, true);

    let y: bool = lua.get("b").unwrap();
    assert_eq!(y, false);
}

#[test]
fn readwrite_strings() {
    let mut lua = Lua::new();

    lua.set("a", "hello").unwrap();
    lua.set("b", "hello".to_string()).unwrap();

    let x: String = lua.get("a").unwrap();
    assert_eq!(x.as_str(), "hello");

    let y: String = lua.get("b").unwrap();
    assert_eq!(y.as_str(), "hello");
}

#[test]
fn int_to_string() {
    let mut lua = Lua::new();

    lua.set("a", 2).unwrap();

    let x: String = lua.get("a").unwrap();
    assert_eq!(x.as_str(), "2");
}

#[test]
fn string_to_int() {
    let mut lua = Lua::new();

    lua.set("a", "2").unwrap();
    lua.set("b", "aaa").unwrap();

    let x: isize = lua.get("a").unwrap();
    assert_eq!(x, 2);

    let y: Option<isize> = lua.get("b");
    assert!(y.is_none());
}
