//! The conversion traits and the type adapters.
//!
//! [`Pushable`] encodes a native value onto the VM stack top; encoding is
//! total for every supported native type. [`Readable`] attempts to decode a
//! stack slot, yielding `None` on a type or range mismatch — a recoverable
//! outcome, never a failure. [`Index`] marks types occupying exactly one
//! stack slot.
//!
//! One adapter per native category: signed integers (widths 8/16/32 and
//! native), unsigned integers (same widths), boolean (strictly tagged, no
//! coercion), text (coerced from numbers), and unit (the VM's absence
//! marker). Narrowing numeric reads silently truncate, matching the VM's
//! permissive numeric coercion; 64-bit integers are deliberately not given
//! adapters, since the VM's numeric representation is not owed to
//! round-trip them on every build.

use vstd::prelude::*;

use crate::vm::Lua;
use crate::vm::Value;
use crate::vm::int_coercion;
use crate::vm::text_coercion;

verus! {

/// A native type that can encode itself onto the top of the VM stack.
pub trait Pushable {
    /// The VM value this native value encodes to.
    spec fn lua_value(&self) -> Value;

    /// The caller-side contract of the encoding, such as the text adapter's
    /// demand that text carry no embedded null byte.
    spec fn pushable(&self) -> bool;

    /// Encodes `self` onto the top of the VM stack: exactly one slot is
    /// pushed and the globals are untouched.
    fn push_to_lua(&self, lua: &mut Lua)
        requires
            self.pushable(),
        ensures
            final(lua)@.stack == old(lua)@.stack.push(self.lua_value()),
            final(lua)@.globals == old(lua)@.globals,
    ;
}

/// A native type that can attempt to decode itself from a VM stack slot.
pub trait Readable: Sized {
    /// `decoded(v, r)` holds when `r` is the decoding outcome this type
    /// yields for a slot holding `v`.
    spec fn decoded(v: Value, r: Option<Self>) -> bool;

    /// Attempts to decode the slot at `index` as `Self`, leaving the VM
    /// untouched; `None` reports a recoverable conversion mismatch, and is
    /// also read at an index that misses the stack.
    fn read_from_lua(lua: &mut Lua, index: i32) -> (r: Option<Self>)
        ensures
            final(lua)@.stack == old(lua)@.stack,
            final(lua)@.globals == old(lua)@.globals,
            match old(lua)@.slot(index as int) {
                Some(v) => Self::decoded(v, r),
                None => r is None,
            },
    ;
}

/// Marker: the type occupies exactly one VM stack slot, so a generic caller
/// pops exactly one slot after using it.
pub trait Index {

}

impl Pushable for i8 {
    open spec fn lua_value(&self) -> Value {
        Value::Num(*self as i64)
    }

    open spec fn pushable(&self) -> bool {
        true
    }

    fn push_to_lua(&self, lua: &mut Lua) {
        lua.push_integer(*self as i64);
    }
}

impl Readable for i8 {
    open spec fn decoded(v: Value, r: Option<i8>) -> bool {
        match int_coercion(v) {
            Some(n) => r == Some(n as i8),
            None => r is None,
        }
    }

    fn read_from_lua(lua: &mut Lua, index: i32) -> (r: Option<i8>) {
        match lua.to_integerx(index) {
            Some(n) => Some(#[verifier::truncate] (n as i8)),
            None => None,
        }
    }
}

impl Index for i8 {

}

impl Pushable for i16 {
    open spec fn lua_value(&self) -> Value {
        Value::Num(*self as i64)
    }

    open spec fn pushable(&self) -> bool {
        true
    }

    fn push_to_lua(&self, lua: &mut Lua) {
        lua.push_integer(*self as i64);
    }
}

impl Readable for i16 {
    open spec fn decoded(v: Value, r: Option<i16>) -> bool {
        match int_coercion(v) {
            Some(n) => r == Some(n as i16),
            None => r is None,
        }
    }

    fn read_from_lua(lua: &mut Lua, index: i32) -> (r: Option<i16>) {
        match lua.to_integerx(index) {
            Some(n) => Some(#[verifier::truncate] (n as i16)),
            None => None,
        }
    }
}

impl Index for i16 {

}

impl Pushable for i32 {
    open spec fn lua_value(&self) -> Value {
        Value::Num(*self as i64)
    }

    open spec fn pushable(&self) -> bool {
        true
    }

    fn push_to_lua(&self, lua: &mut Lua) {
        lua.push_integer(*self as i64);
    }
}

impl Readable for i32 {
    open spec fn decoded(v: Value, r: Option<i32>) -> bool {
        match int_coercion(v) {
            Some(n) => r == Some(n as i32),
            None => r is None,
        }
    }

    fn read_from_lua(lua: &mut Lua, index: i32) -> (r: Option<i32>) {
        match lua.to_integerx(index) {
            Some(n) => Some(#[verifier::truncate] (n as i32)),
            None => None,
        }
    }
}

impl Index for i32 {

}

impl Pushable for isize {
    open spec fn lua_value(&self) -> Value {
        Value::Num(*self as i64)
    }

    open spec fn pushable(&self) -> bool {
        true
    }

    fn push_to_lua(&self, lua: &mut Lua) {
        lua.push_integer(*self as i64);
    }
}

impl Readable for isize {
    open spec fn decoded(v: Value, r: Option<isize>) -> bool {
        match int_coercion(v) {
            Some(n) => r == Some(n as isize),
            None => r is None,
        }
    }

    fn read_from_lua(lua: &mut Lua, index: i32) -> (r: Option<isize>) {
        match lua.to_integerx(index) {
            Some(n) => Some(#[verifier::truncate] (n as isize)),
            None => None,
        }
    }
}

impl Index for isize {

}

impl Pushable for u8 {
    open spec fn lua_value(&self) -> Value {
        Value::Num((*self as u64) as i64)
    }

    open spec fn pushable(&self) -> bool {
        true
    }

    fn push_to_lua(&self, lua: &mut Lua) {
        lua.push_unsigned(*self as u64);
    }
}

impl Readable for u8 {
    open spec fn decoded(v: Value, r: Option<u8>) -> bool {
        match int_coercion(v) {
            Some(n) => r == Some((n as u64) as u8),
            None => r is None,
        }
    }

    fn read_from_lua(lua: &mut Lua, index: i32) -> (r: Option<u8>) {
        match lua.to_unsignedx(index) {
            Some(n) => Some(#[verifier::truncate] (n as u8)),
            None => None,
        }
    }
}

impl Index for u8 {

}

impl Pushable for u16 {
    open spec fn lua_value(&self) -> Value {
        Value::Num((*self as u64) as i64)
    }

    open spec fn pushable(&self) -> bool {
        true
    }

    fn push_to_lua(&self, lua: &mut Lua) {
        lua.push_unsigned(*self as u64);
    }
}

impl Readable for u16 {
    open spec fn decoded(v: Value, r: Option<u16>) -> bool {
        match int_coercion(v) {
            Some(n) => r == Some((n as u64) as u16),
            None => r is None,
        }
    }

    fn read_from_lua(lua: &mut Lua, index: i32) -> (r: Option<u16>) {
        match lua.to_unsignedx(index) {
            Some(n) => Some(#[verifier::truncate] (n as u16)),
            None => None,
        }
    }
}

impl Index for u16 {

}

impl Pushable for u32 {
    open spec fn lua_value(&self) -> Value {
        Value::Num((*self as u64) as i64)
    }

    open spec fn pushable(&self) -> bool {
        true
    }

    fn push_to_lua(&self, lua: &mut Lua) {
        lua.push_unsigned(*self as u64);
    }
}

impl Readable for u32 {
    open spec fn decoded(v: Value, r: Option<u32>) -> bool {
        match int_coercion(v) {
            Some(n) => r == Some((n as u64) as u32),
            None => r is None,
        }
    }

    fn read_from_lua(lua: &mut Lua, index: i32) -> (r: Option<u32>) {
        match lua.to_unsignedx(index) {
            Some(n) => Some(#[verifier::truncate] (n as u32)),
            None => None,
        }
    }
}

impl Index for u32 {

}

impl Pushable for usize {
    open spec fn lua_value(&self) -> Value {
        Value::Num((*self as u64) as i64)
    }

    open spec fn pushable(&self) -> bool {
        true
    }

    fn push_to_lua(&self, lua: &mut Lua) {
        lua.push_unsigned(*self as u64);
    }
}

impl Readable for usize {
    open spec fn decoded(v: Value, r: Option<usize>) -> bool {
        match int_coercion(v) {
            Some(n) => r == Some((n as u64) as usize),
            None => r is None,
        }
    }

    fn read_from_lua(lua: &mut Lua, index: i32) -> (r: Option<usize>) {
        match lua.to_unsignedx(index) {
            Some(n) => Some(#[verifier::truncate] (n as usize)),
            None => None,
        }
    }
}

impl Index for usize {

}

impl Pushable for bool {
    open spec fn lua_value(&self) -> Value {
        Value::Bool(*self)
    }

    open spec fn pushable(&self) -> bool {
        true
    }

    fn push_to_lua(&self, lua: &mut Lua) {
        lua.push_boolean(*self);
    }
}

impl Readable for bool {
    open spec fn decoded(v: Value, r: Option<bool>) -> bool {
        match v {
            Value::Bool(b) => r == Some(b),
            _ => r is None,
        }
    }

    fn read_from_lua(lua: &mut Lua, index: i32) -> (r: Option<bool>) {
        if !lua.is_boolean(index) {
            return None;
        }
        Some(lua.to_boolean(index))
    }
}

impl Index for bool {

}

impl Pushable for String {
    open spec fn lua_value(&self) -> Value {
        Value::Text(self@)
    }

    /// The VM's native string encoding is null-terminated: text carrying an
    /// embedded null byte would silently truncate, so the caller owes text
    /// without one.
    open spec fn pushable(&self) -> bool {
        forall|i: int| 0 <= i < self@.len() ==> self@[i] != '\0'
    }

    fn push_to_lua(&self, lua: &mut Lua) {
        lua.push_string(self.as_str());
    }
}

impl Readable for String {
    open spec fn decoded(v: Value, r: Option<String>) -> bool {
        match text_coercion(v) {
            Some(t) => r matches Some(x) && x@ == t,
            None => r is None,
        }
    }

    fn read_from_lua(lua: &mut Lua, index: i32) -> (r: Option<String>) {
        lua.to_lstring(index)
    }
}

impl Index for String {

}

impl Pushable for &str {
    open spec fn lua_value(&self) -> Value {
        Value::Text((*self)@)
    }

    /// As for owned text: no embedded null byte.
    open spec fn pushable(&self) -> bool {
        forall|i: int| 0 <= i < (*self)@.len() ==> (*self)@[i] != '\0'
    }

    fn push_to_lua(&self, lua: &mut Lua) {
        lua.push_string(self);
    }
}

impl Pushable for () {
    open spec fn lua_value(&self) -> Value {
        Value::Nil
    }

    open spec fn pushable(&self) -> bool {
        true
    }

    fn push_to_lua(&self, lua: &mut Lua) {
        lua.push_nil();
    }
}

impl Readable for () {
    open spec fn decoded(v: Value, r: Option<()>) -> bool {
        match v {
            Value::Nil => r == Some(()),
            _ => r is None,
        }
    }

    fn read_from_lua(lua: &mut Lua, index: i32) -> (r: Option<()>) {
        if lua.is_nil(index) {
            Some(())
        } else {
            None
        }
    }
}

impl Index for () {

}

} // verus!
