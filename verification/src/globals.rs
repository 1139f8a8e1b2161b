//! The global binding API: `set` and `get` compose an adapter with named
//! global access, and both are stack-depth-neutral — every transient push
//! is popped before returning, whether or not the conversion succeeded.

use vstd::prelude::*;

use crate::values::Index;
use crate::values::Pushable;
use crate::values::Readable;
use crate::vm::Lua;
use crate::vm::LuaError;

verus! {

impl Lua {
    /// Encodes `value` via its adapter, binds the resulting stack top to the
    /// global `name`, and restores the stack to its pre-call depth.
    ///
    /// Encoding is total for every supported native type, so the only
    /// failure this can report is a fatal one from the VM itself; the
    /// in-memory VM never raises one, and the result is always `Ok`.
    pub fn set<T: Pushable>(&mut self, name: &str, value: T) -> (r: Result<(), LuaError>)
        requires
            value.pushable(),
        ensures
            r is Ok,
            final(self)@.stack == old(self)@.stack,
            final(self)@.globals == old(self)@.globals.insert(name@, value.lua_value()),
    {
        value.push_to_lua(self);
        self.bind_global(name);
        proof {
            assert(self@.stack =~= old(self)@.stack);
        }
        Ok(())
    }

    /// Pushes the global `name`, decodes it through the `T` adapter at the
    /// resulting index, pops the pushed slot, and returns the adapter's
    /// outcome unchanged — `None` on a conversion mismatch. An unbound
    /// global decodes as the absence marker.
    pub fn get<T: Readable + Index>(&mut self, name: &str) -> (r: Option<T>)
        ensures
            final(self)@.stack == old(self)@.stack,
            final(self)@.globals == old(self)@.globals,
            T::decoded(old(self)@.global(name@), r),
    {
        self.push_global(name);
        let r: Option<T> = T::read_from_lua(self, -1);
        self.pop(1);
        proof {
            assert(self@.stack =~= old(self)@.stack);
        }
        r
    }
}

} // verus!
