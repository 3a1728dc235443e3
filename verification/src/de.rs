//! Seeds that pick a type by its tag.

pub mod type_seed;

pub use self::type_seed::TypeSeed;
