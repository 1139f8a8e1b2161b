//! The VM value stack and global namespace.
//!
//! The embedded VM is consumed through a fixed set of primitive stack
//! operations: push one value, coerce the value at an index, bind the top
//! of the stack to a named global, push a global, pop. [`Lua`] owns one VM
//! instance and provides exactly those primitives, each with an exact
//! contract over the VM's mathematical model [`LuaState`].
//!
//! The VM's native numeric representation is a 64-bit integer; numbers and
//! numeric-looking text coerce into one another (see [`crate::text`]),
//! booleans and the `Nil` absence marker are strictly tagged.

use vstd::prelude::*;

use crate::text::int_text;
use crate::text::int_to_text;
use crate::text::text_int_value;
use crate::text::text_to_int;

verus! {

/// The mathematical model of one VM stack or global slot.
pub enum Value {
    /// A number; the VM's native numeric width is 64 bits.
    Num(i64),
    /// A boolean.
    Bool(bool),
    /// Text.
    Text(Seq<char>),
    /// The VM's marker for the absence of a value.
    Nil,
}

/// One native slot of the VM's value stack.
pub enum LuaValue {
    /// A number.
    Num(i64),
    /// A boolean.
    Bool(bool),
    /// Text.
    Text(String),
    /// The absence marker.
    Nil,
}

impl View for LuaValue {
    type V = Value;

    open spec fn view(&self) -> Value {
        match self {
            LuaValue::Num(n) => Value::Num(*n),
            LuaValue::Bool(b) => Value::Bool(*b),
            LuaValue::Text(s) => Value::Text(s@),
            LuaValue::Nil => Value::Nil,
        }
    }
}

/// The mathematical model of the whole VM: its value stack and the map of
/// named globals.
pub struct LuaState {
    /// The value stack, bottom first.
    pub stack: Seq<Value>,
    /// The global namespace.
    pub globals: Map<Seq<char>, Value>,
}

impl LuaState {
    /// Resolves a stack index: a positive index counts from the bottom
    /// (1 is the bottom slot), a negative one from the top (-1 is the top).
    pub open spec fn resolve(self, index: int) -> Option<int> {
        if 1 <= index <= self.stack.len() {
            Some(index - 1)
        } else if -(self.stack.len() as int) <= index <= -1 {
            Some(self.stack.len() + index)
        } else {
            None
        }
    }

    /// The value at a stack index, `None` when the index misses the stack.
    pub open spec fn slot(self, index: int) -> Option<Value> {
        match self.resolve(index) {
            Some(i) => Some(self.stack[i]),
            None => None,
        }
    }

    /// The value of the global `name`: an unbound global reads as `Nil`.
    pub open spec fn global(self, name: Seq<char>) -> Value {
        if self.globals.contains_key(name) {
            self.globals[name]
        } else {
            Value::Nil
        }
    }
}

/// The VM's numeric coercion: a number coerces to itself, numeric text to
/// its value when it fits the native width, everything else fails.
pub open spec fn int_coercion(v: Value) -> Option<i64> {
    match v {
        Value::Num(n) => Some(n),
        Value::Text(s) => text_to_int(s),
        _ => None,
    }
}

/// The VM's text coercion: text coerces to itself, a number to its decimal
/// text, everything else fails.
pub open spec fn text_coercion(v: Value) -> Option<Seq<char>> {
    match v {
        Value::Text(s) => Some(s),
        Value::Num(n) => Some(int_text(n as int)),
        _ => None,
    }
}

/// The VM's truth test: only `Nil` and `false` are not true.
pub open spec fn truthy(v: Value) -> bool {
    !(v == Value::Nil || v == Value::Bool(false))
}

/// The map denoted by a list of global bindings: a later binding for a name
/// shadows an earlier one.
pub open spec fn bindings_map(entries: Seq<(String, LuaValue)>) -> Map<Seq<char>, Value>
    decreases entries.len(),
{
    if entries.len() == 0 {
        Map::empty()
    } else {
        bindings_map(entries.drop_last()).insert(entries.last().0@, entries.last().1@)
    }
}

/// A fatal failure reported by the VM itself (allocation or execution
/// failure), as distinguished from a recoverable conversion mismatch.
/// The in-memory VM of this crate never raises it.
#[derive(Debug, PartialEq, Eq, Structural)]
pub enum LuaError {
    /// The VM could not allocate or execute.
    ExecutionFailure,
}

/// Owns one VM instance: its value stack and its table of named globals.
///
/// All operations borrow the handle exclusively while mutating the stack;
/// the VM is not shared across threads.
pub struct Lua {
    stack: Vec<LuaValue>,
    globals: Vec<(String, LuaValue)>,
}

/// Copies a slot value; the stack and the global table own their slots
/// separately.
fn dup_value(v: &LuaValue) -> (r: LuaValue)
    ensures
        r@ == v@,
{
    match v {
        LuaValue::Num(n) => LuaValue::Num(*n),
        LuaValue::Bool(b) => LuaValue::Bool(*b),
        LuaValue::Text(s) => LuaValue::Text(s.clone()),
        LuaValue::Nil => LuaValue::Nil,
    }
}

impl View for Lua {
    type V = LuaState;

    closed spec fn view(&self) -> LuaState {
        LuaState {
            stack: self.stack@.map_values(|v: LuaValue| v@),
            globals: bindings_map(self.globals@),
        }
    }
}

impl Lua {
    /// Creates a fresh VM with an empty stack and no globals.
    pub fn new() -> (r: Lua)
        ensures
            r@.stack == Seq::<Value>::empty(),
            r@.globals == Map::<Seq<char>, Value>::empty(),
    {
        let l = Lua { stack: Vec::new(), globals: Vec::new() };
        proof {
            assert(l@.stack =~= Seq::<Value>::empty());
            assert(l@.globals =~= Map::<Seq<char>, Value>::empty());
        }
        l
    }

    /// The depth of the value stack.
    pub fn stack_depth(&self) -> (r: usize)
        ensures
            r == self@.stack.len(),
    {
        self.stack.len()
    }

    /// Pushes an integer as a VM number.
    pub fn push_integer(&mut self, v: i64)
        ensures
            final(self)@.stack == old(self)@.stack.push(Value::Num(v)),
            final(self)@.globals == old(self)@.globals,
    {
        self.stack.push(LuaValue::Num(v));
        proof {
            assert(self@.stack =~= old(self)@.stack.push(Value::Num(v)));
        }
    }

    /// Pushes an unsigned integer as a VM number; the native numeric width
    /// is 64 bits, so values above `i64::MAX` wrap.
    pub fn push_unsigned(&mut self, v: u64)
        ensures
            final(self)@.stack == old(self)@.stack.push(Value::Num(v as i64)),
            final(self)@.globals == old(self)@.globals,
    {
        self.stack.push(LuaValue::Num(#[verifier::truncate] (v as i64)));
        proof {
            assert(self@.stack =~= old(self)@.stack.push(Value::Num(v as i64)));
        }
    }

    /// Pushes a VM boolean.
    pub fn push_boolean(&mut self, b: bool)
        ensures
            final(self)@.stack == old(self)@.stack.push(Value::Bool(b)),
            final(self)@.globals == old(self)@.globals,
    {
        self.stack.push(LuaValue::Bool(b));
        proof {
            assert(self@.stack =~= old(self)@.stack.push(Value::Bool(b)));
        }
    }

    /// Pushes text as a VM string.
    pub fn push_string(&mut self, s: &str)
        ensures
            final(self)@.stack == old(self)@.stack.push(Value::Text(s@)),
            final(self)@.globals == old(self)@.globals,
    {
        self.stack.push(LuaValue::Text(s.to_owned()));
        proof {
            assert(self@.stack =~= old(self)@.stack.push(Value::Text(s@)));
        }
    }

    /// Pushes the absence marker.
    pub fn push_nil(&mut self)
        ensures
            final(self)@.stack == old(self)@.stack.push(Value::Nil),
            final(self)@.globals == old(self)@.globals,
    {
        self.stack.push(LuaValue::Nil);
        proof {
            assert(self@.stack =~= old(self)@.stack.push(Value::Nil));
        }
    }

    /// Resolves an index into a position in the stack vector.
    fn abs_slot(&self, index: i32) -> (r: Option<usize>)
        ensures
            match self@.resolve(index as int) {
                Some(j) => r matches Some(i) && i == j && i < self@.stack.len(),
                None => r is None,
            },
    {
        let len: usize = self.stack.len();
        if index >= 1 {
            let pos: usize = (index as usize) - 1;
            if pos < len {
                Some(pos)
            } else {
                None
            }
        } else if index <= -1 {
            let neg: u64 = (-(index as i64)) as u64;
            if neg <= len as u64 {
                Some(len - (neg as usize))
            } else {
                None
            }
        } else {
            None
        }
    }

    /// Numeric coercion of the slot at `index`; `None` stands for the
    /// C-level failed success flag, for slots that are not numbers or
    /// numeric text, and for an index that misses the stack.
    pub fn to_integerx(&self, index: i32) -> (r: Option<i64>)
        ensures
            r == (match self@.slot(index as int) {
                Some(v) => int_coercion(v),
                None => None::<i64>,
            }),
    {
        match self.abs_slot(index) {
            None => None,
            Some(i) => match &self.stack[i] {
                LuaValue::Num(n) => Some(*n),
                LuaValue::Text(s) => text_int_value(s.as_str()),
                _ => None,
            },
        }
    }

    /// Unsigned numeric coercion of the slot at `index`: the numeric
    /// coercion reinterpreted at the native unsigned width.
    pub fn to_unsignedx(&self, index: i32) -> (r: Option<u64>)
        ensures
            r == (match self@.slot(index as int) {
                Some(v) => match int_coercion(v) {
                    Some(n) => Some(n as u64),
                    None => None::<u64>,
                },
                None => None::<u64>,
            }),
    {
        match self.to_integerx(index) {
            Some(n) => Some(#[verifier::truncate] (n as u64)),
            None => None,
        }
    }

    /// The truth value of the slot at `index`; an index that misses the
    /// stack reads as not true.
    pub fn to_boolean(&self, index: i32) -> (r: bool)
        ensures
            r == (match self@.slot(index as int) {
                Some(v) => truthy(v),
                None => false,
            }),
    {
        match self.abs_slot(index) {
            None => false,
            Some(i) => match &self.stack[i] {
                LuaValue::Bool(b) => *b,
                LuaValue::Nil => false,
                _ => true,
            },
        }
    }

    /// Whether the slot at `index` is tagged as a boolean.
    pub fn is_boolean(&self, index: i32) -> (r: bool)
        ensures
            r == (self@.slot(index as int) matches Some(Value::Bool(_))),
    {
        match self.abs_slot(index) {
            None => false,
            Some(i) => match &self.stack[i] {
                LuaValue::Bool(_) => true,
                _ => false,
            },
        }
    }

    /// Whether the slot at `index` is tagged as the absence marker.
    pub fn is_nil(&self, index: i32) -> (r: bool)
        ensures
            r == (self@.slot(index as int) == Some(Value::Nil)),
    {
        match self.abs_slot(index) {
            None => false,
            Some(i) => match &self.stack[i] {
                LuaValue::Nil => true,
                _ => false,
            },
        }
    }

    /// Text coercion of the slot at `index`, copied out into an owned
    /// native text value. `None` models the VM's null pointer, returned for
    /// slots that are not text-convertible and for an index that misses the
    /// stack; the VM keeps ownership of its own buffer.
    pub fn to_lstring(&self, index: i32) -> (r: Option<String>)
        ensures
            match self@.slot(index as int) {
                Some(v) => match text_coercion(v) {
                    Some(t) => r matches Some(x) && x@ == t,
                    None => r is None,
                },
                None => r is None,
            },
    {
        match self.abs_slot(index) {
            None => None,
            Some(i) => match &self.stack[i] {
                LuaValue::Text(s) => Some(s.clone()),
                LuaValue::Num(n) => Some(int_to_text(*n)),
                _ => None,
            },
        }
    }

    /// Pops the top slot off the stack and binds it to the global `name`.
    pub fn bind_global(&mut self, name: &str)
        requires
            old(self)@.stack.len() >= 1,
        ensures
            final(self)@.stack == old(self)@.stack.drop_last(),
            final(self)@.globals == old(self)@.globals.insert(name@, old(self)@.stack.last()),
    {
        let v: LuaValue = match self.stack.pop() {
            Some(v) => v,
            None => LuaValue::Nil,
        };
        self.globals.push((name.to_owned(), v));
        proof {
            assert(self.globals@.drop_last() =~= old(self).globals@);
            assert(self@.stack =~= old(self)@.stack.drop_last());
            assert(self@.globals =~= old(self)@.globals.insert(name@, old(self)@.stack.last()));
        }
    }

    /// Looks up the global `name`, copying out its value; an unbound global
    /// reads as `Nil`.
    fn lookup_global(&self, name: &str) -> (r: LuaValue)
        ensures
            r@ == self@.global(name@),
    {
        let key: String = name.to_owned();
        let mut i: usize = self.globals.len();
        proof {
            assert(self.globals@.take(i as int) =~= self.globals@);
        }
        while i > 0
            invariant
                i <= self.globals.len(),
                key@ == name@,
                bindings_map(self.globals@.take(i as int)).contains_key(name@)
                    ==> self@.global(name@) == bindings_map(self.globals@.take(i as int))[name@],
                !bindings_map(self.globals@.take(i as int)).contains_key(name@)
                    ==> self@.global(name@) == Value::Nil,
            decreases i,
        {
            proof {
                assert(self.globals@.take(i as int).drop_last() =~= self.globals@.take(
                    i as int - 1,
                ));
                assert(self.globals@.take(i as int).last() == self.globals@[i as int - 1]);
            }
            i = i - 1;
            let entry: &(String, LuaValue) = &self.globals[i];
            if entry.0 == key {
                return dup_value(&entry.1);
            }
        }
        proof {
            assert(self.globals@.take(0int) =~= Seq::<(String, LuaValue)>::empty());
        }
        LuaValue::Nil
    }

    /// Pushes the value of the global `name`; an unbound global pushes
    /// `Nil`.
    pub fn push_global(&mut self, name: &str)
        ensures
            final(self)@.stack == old(self)@.stack.push(old(self)@.global(name@)),
            final(self)@.globals == old(self)@.globals,
    {
        let v: LuaValue = self.lookup_global(name);
        self.stack.push(v);
        proof {
            assert(self@.stack =~= old(self)@.stack.push(old(self)@.global(name@)));
        }
    }

    /// Pops `count` slots off the stack.
    pub fn pop(&mut self, count: usize)
        requires
            count <= old(self)@.stack.len(),
        ensures
            final(self)@.stack == old(self)@.stack.take(
                old(self)@.stack.len() - count as int,
            ),
            final(self)@.globals == old(self)@.globals,
    {
        let keep: usize = self.stack.len() - count;
        self.stack.truncate(keep);
        proof {
            assert(self@.stack =~= old(self)@.stack.take(old(self)@.stack.len() - count as int));
        }
    }
}

} // verus!
