//! Small, self-contained examples of everyday Rust, each with a contract that
//! Verus proves: strings and collections, structs and enums, error values,
//! traits, iterators and pattern matching.

pub mod basics;
pub mod collections;
pub mod concurrency;
pub mod custom_error;
pub mod docs;
pub mod enums;
pub mod error_libraries;
pub mod exposed_error;
pub mod functional;
pub mod generics;
pub mod greeting;
pub mod lifetimes;
pub mod mane_error;
pub mod minigrep;
pub mod objects;
pub mod opaque_error;
pub mod order;
pub mod ownership;
pub mod patterns;
pub mod question_mark;
pub mod smart_pointers;
pub mod structs;
pub mod testing;
pub mod text;
pub mod traits;
pub mod validation;
pub mod visibility;
pub mod whitespace;
