//! Static persistence of computed values as `.matrix` artifacts: the byte
//! layouts of the artifacts, the checks that accept or refuse them, the hashes
//! that identify the code that produced them, and the syntactic audit of the
//! types that may be persisted.
pub mod mold_runtime;
pub mod byte_order;
pub mod capture;
pub mod hashing;
pub mod metadata;
pub mod runtime;
pub mod pattern;
pub mod text;
pub mod shape;
pub mod forge;
pub mod internal;
