//! The logic of the Starlark value model: the mutability of containers, the default
//! comparison of values, the conversion of indices and slices, the default answers of a
//! value type to the operations it does not define, and the rules that keep data
//! structures from containing themselves.

pub mod compare;
pub mod defaults;
pub mod descendants;
pub mod error;
pub mod index;
pub mod mutability;
mod text;

pub use error::ValueError;
pub use index::IndexArg;
pub use mutability::IterableMutability;
