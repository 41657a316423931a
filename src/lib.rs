//! Static analyses and rewrites that lift pointer-heavy code towards safe
//! constructs: a permission lattice for raw pointers, a two-phase pointer
//! permission inference engine, and a counting-loop lowering engine.

pub mod ast;
pub mod bindings;
pub mod lattice;
pub mod permissions;
pub mod raw_pointers;
pub mod while_loop;
