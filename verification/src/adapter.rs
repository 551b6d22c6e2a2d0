//! A basic adapter that pairs a serializer with an interner.
use vstd::prelude::*;

verus! {

/// A basic adapter that can add interning capabilities to a serializer.
///
/// While this struct is useful for ergonomics, it's best to define a custom
/// serializer when combining capabilities across many crates.
#[derive(Debug, Default)]
pub struct InterningAdapter<S, I> {
    serializer: S,
    interning: I,
}

impl<S, I> InterningAdapter<S, I> {
    /// The serializer half of the adapter.
    pub closed spec fn serializer_spec(&self) -> S {
        self.serializer
    }

    /// The interning half of the adapter.
    pub closed spec fn interning_spec(&self) -> I {
        self.interning
    }

    /// Constructs a new interning adapter from a serializer and interning.
    pub fn new(serializer: S, interning: I) -> (r: Self)
        ensures
            r.serializer_spec() == serializer,
            r.interning_spec() == interning,
    {
        Self { serializer, interning }
    }

    /// Consumes the adapter and returns the components.
    pub fn into_components(self) -> (r: (S, I))
        ensures
            r.0 == self.serializer_spec(),
            r.1 == self.interning_spec(),
    {
        (self.serializer, self.interning)
    }

    /// Consumes the adapter and returns the underlying serializer.
    pub fn into_serializer(self) -> (r: S)
        ensures
            r == self.serializer_spec(),
    {
        self.serializer
    }
}

} // verus!
