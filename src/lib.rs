//! A leaf-scalar protocol for a GraphQL-style execution engine, and the
//! borrowed `str` adapter that forwards every operation to owned `String`.

pub mod value;
pub mod future;
pub mod text;
pub mod reflect;
pub mod token;
pub mod string;
pub mod str_view;
pub mod laws;
