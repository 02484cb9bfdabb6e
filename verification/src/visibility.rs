//! Modules, paths and visibility: what is private to a module, what is
//! public, and how to bring names into scope.

pub mod a;
pub mod do_this;
pub mod not_this;
pub mod rename_a_symbol;
pub mod rename_a_trait;
pub mod some_module;
pub mod some_trait;
pub mod utils;
