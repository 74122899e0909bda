//! Types for the Language Server Protocol, the `file://` URI conversions
//! that go with them, and the code generator that writes the protocol's
//! notification constants from its meta model.

use vstd::prelude::*;

pub mod codegen;
pub mod generator;
pub mod names;
pub mod spec;
pub mod text;
pub mod uri;
pub mod round_trip;

verus! {

/// A union of two types. The first variant is the default one.
#[derive(Debug, Clone)]
pub enum Or2<A, B> {
    A(A),
    B(B),
}

/// A union of three types. The first variant is the default one.
#[derive(Debug, Clone)]
pub enum Or3<A, B, C> {
    A(A),
    B(B),
    C(C),
}

impl<A: Default, B> Default for Or2<A, B> {
    /// The default union holds the default value of its first type.
    fn default() -> (r: Self)
        ensures
            r matches Or2::A(a) && call_ensures(A::default, (), a),
    {
        Or2::A(A::default())
    }
}

impl<A: Default, B, C> Default for Or3<A, B, C> {
    /// The default union holds the default value of its first type.
    fn default() -> (r: Self)
        ensures
            r matches Or3::A(a) && call_ensures(A::default, (), a),
    {
        Or3::A(A::default())
    }
}

} // verus!
