//! The laws the adapters obey.
//!
//! Each law relates an adapter's encoding ([`Pushable::lua_value`]) to its
//! decoding outcome ([`Readable::decoded`]). Together with the contracts of
//! [`crate::vm::Lua::set`] and [`crate::vm::Lua::get`] — `set` binds exactly
//! `value.lua_value()` to the name and `get` decodes exactly the bound
//! value, both leaving the stack exactly as found (stack balance is stated
//! there directly) — they pin down what any `set`/`get` round trip yields.
//!
//! No adapter of this crate exposes floating-point values, so no law
//! speaks of them.

use vstd::prelude::*;

use crate::text::int_text;
use crate::text::numeric_text_val;
use crate::values::Pushable;
use crate::values::Readable;
use crate::vm::Value;

verus! {

/// Law: a signed 8-bit value encodes to a VM number that decodes back to
/// exactly itself, and to nothing else.
pub proof fn lemma_roundtrip_i8(v: i8, r: Option<i8>)
    ensures
        <i8 as Readable>::decoded(v.lua_value(), r) <==> r == Some(v),
{
    assert((v as i64) as i8 == v);
}

/// Law: a signed 16-bit value round-trips exactly.
pub proof fn lemma_roundtrip_i16(v: i16, r: Option<i16>)
    ensures
        <i16 as Readable>::decoded(v.lua_value(), r) <==> r == Some(v),
{
    assert((v as i64) as i16 == v);
}

/// Law: a signed 32-bit value round-trips exactly.
pub proof fn lemma_roundtrip_i32(v: i32, r: Option<i32>)
    ensures
        <i32 as Readable>::decoded(v.lua_value(), r) <==> r == Some(v),
{
    assert((v as i64) as i32 == v);
}

/// Law: a native-width signed value round-trips exactly; the VM's native
/// numeric width (64 bits) covers `isize` on every platform.
pub proof fn lemma_roundtrip_isize(v: isize, r: Option<isize>)
    ensures
        <isize as Readable>::decoded(v.lua_value(), r) <==> r == Some(v),
{
    assert((v as i64) as isize == v);
}

/// Law: an unsigned 8-bit value round-trips exactly.
pub proof fn lemma_roundtrip_u8(v: u8, r: Option<u8>)
    ensures
        <u8 as Readable>::decoded(v.lua_value(), r) <==> r == Some(v),
{
    assert(((((v as u64) as i64) as u64) as u8) == v);
}

/// Law: an unsigned 16-bit value round-trips exactly.
pub proof fn lemma_roundtrip_u16(v: u16, r: Option<u16>)
    ensures
        <u16 as Readable>::decoded(v.lua_value(), r) <==> r == Some(v),
{
    assert(((((v as u64) as i64) as u64) as u16) == v);
}

/// Law: an unsigned 32-bit value round-trips exactly.
pub proof fn lemma_roundtrip_u32(v: u32, r: Option<u32>)
    ensures
        <u32 as Readable>::decoded(v.lua_value(), r) <==> r == Some(v),
{
    assert(((((v as u64) as i64) as u64) as u32) == v);
}

/// Law: a native-width unsigned value round-trips exactly. A value above
/// `i64::MAX` is stored as the wrapped native number, and the unsigned read
/// wraps it back.
pub proof fn lemma_roundtrip_usize(v: usize, r: Option<usize>)
    ensures
        <usize as Readable>::decoded(v.lua_value(), r) <==> r == Some(v),
{
    let n: u64 = v as u64;
    assert(((n as i64) as u64) == n) by (bit_vector);
    assert(((((v as u64) as i64) as u64) as usize) == v);
}

/// Law: a boolean bound to the stack decodes back to exactly itself.
pub proof fn lemma_roundtrip_bool(b: bool, r: Option<bool>)
    ensures
        <bool as Readable>::decoded(b.lua_value(), r) <==> r == Some(b),
{
}

/// Law: boolean typing is strict — a slot not tagged as a boolean decodes
/// as absence, never by coercion from a truthy number or text.
pub proof fn lemma_bool_strict(v: Value, r: Option<bool>)
    requires
        !(v matches Value::Bool(_)),
    ensures
        <bool as Readable>::decoded(v, r) <==> r is None,
{
}

/// Law: the unit value encodes to the absence marker and decodes back to
/// exactly itself.
pub proof fn lemma_roundtrip_unit(r: Option<()>)
    ensures
        <() as Readable>::decoded(<() as Pushable>::lua_value(&()), r) <==> r == Some(()),
{
}

/// Law: a slot not tagged as the absence marker decodes as absence of unit.
pub proof fn lemma_unit_strict(v: Value, r: Option<()>)
    requires
        v != Value::Nil,
    ensures
        <() as Readable>::decoded(v, r) <==> r is None,
{
}

/// Law: a VM number reads back as text in exactly its decimal form.
pub proof fn lemma_int_reads_as_text(n: i64, r: Option<String>)
    ensures
        <String as Readable>::decoded(Value::Num(n), r) <==> (r matches Some(s) && s@ == int_text(
            n as int,
        )),
{
}

/// Law: numeric-looking text whose value fits the VM's native integer width
/// reads back as exactly that integer.
pub proof fn lemma_numeric_text_reads_as_int(s: Seq<char>, m: int, r: Option<isize>)
    requires
        numeric_text_val(s) == Some(m),
        i64::MIN <= m <= i64::MAX,
    ensures
        <isize as Readable>::decoded(Value::Text(s), r) <==> r == Some((m as i64) as isize),
{
}

/// Law: non-numeric text reads back as absence of an integer.
pub proof fn lemma_non_numeric_text_reads_none(s: Seq<char>, r: Option<isize>)
    requires
        numeric_text_val(s) is None,
    ensures
        <isize as Readable>::decoded(Value::Text(s), r) <==> r is None,
{
}

} // verus!
