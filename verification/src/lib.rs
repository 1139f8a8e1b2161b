//! Typed marshalling between native host values and the value stack of an
//! embedded stack-based scripting virtual machine.
//!
//! The crate is organised in four layers:
//!
//! - [`text`]: the VM's decimal number ⇄ text coercion routines, specified
//!   and proved against a mathematical grammar of numeric text.
//! - [`vm`]: the VM value stack and global namespace, exposing the low-level
//!   primitive operations (push, coerce, bind, pop) with exact contracts.
//! - [`values`]: the conversion traits ([`values::Pushable`],
//!   [`values::Readable`], [`values::Index`]) and one adapter per supported
//!   native category (signed and unsigned integers, boolean, text, unit).
//! - [`globals`]: the `set`/`get` API binding adapters to named globals,
//!   proved stack-depth-neutral.
//! - [`laws`]: the round-trip and coercion laws the adapters obey.

pub mod globals;
pub mod laws;
pub mod text;
pub mod values;
pub mod vm;
