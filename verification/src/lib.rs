//! Small, self-contained building blocks, each with a verified contract.

pub mod advanced_fn_closure;
pub mod advanced_traits;
pub mod advanced_types;
pub mod closures;
pub mod common_concepts;
pub mod enums;
pub mod iterators;
pub mod mock;
pub mod ownership;
pub mod pattern_matching;
pub mod reference;
pub mod smart_pointers;
pub mod structs;
pub mod testing;
pub mod text;
