//! Checks on the vectors and points of a scene description.
//!
//! A vector is read as a sequence of numbers. Whether the sequence is
//! accepted depends on how many numbers the kind of vector may hold.

use vstd::prelude::*;

verus! {

/// A value that was read from a scene description.
pub struct Sd<V> {
    pub v: V,
}

impl<V> Sd<V> {
    /// Wraps a value.
    pub fn new(v: V) -> (sd: Sd<V>)
        ensures
            sd.v == v,
    {
        Sd { v }
    }

    /// The value inside.
    pub fn get(&self) -> (v: &V)
        ensures
            *v == self.v,
    {
        &self.v
    }

    /// Unwraps the value.
    pub fn into_inner(self) -> (v: V)
        ensures
            v == self.v,
    {
        self.v
    }
}

/// How many numbers a sequence may hold.
#[derive(Clone, Copy, Debug, PartialEq, Eq, Structural)]
pub enum SizeMode {
    Any,
    Exact(usize),
    Max(usize),
}

impl SizeMode {
    /// Whether a sequence of `size` numbers is accepted.
    pub open spec fn allows(&self, size: usize) -> bool {
        match *self {
            SizeMode::Any => true,
            SizeMode::Exact(v) => size == v,
            SizeMode::Max(v) => size <= v,
        }
    }

    /// Tests whether a sequence of `size` numbers is accepted.
    pub fn allowed(&self, size: usize) -> (ok: bool)
        ensures
            ok == self.allows(size),
    {
        match *self {
            SizeMode::Any => true,
            SizeMode::Exact(v) => size == v,
            SizeMode::Max(v) => size <= v,
        }
    }
}

/// The kinds of vector that a scene description can hold.
#[derive(Clone, Copy, Debug, PartialEq, Eq, Structural)]
pub enum VectorKind {
    /// A vector of a fixed dimension.
    Vector(usize),
    /// A point of a fixed dimension.
    Point(usize),
    /// A vector of at most this dimension.
    Bounded(usize),
    /// A vector of any dimension.
    Dynamic,
    /// A quaternion.
    Quaternion,
}

impl VectorKind {
    /// The sizes that a sequence for this kind may have.
    pub open spec fn sizes(&self) -> SizeMode {
        match *self {
            VectorKind::Vector(n) => SizeMode::Exact(n),
            VectorKind::Point(n) => SizeMode::Exact(n),
            VectorKind::Bounded(n) => SizeMode::Max(n),
            VectorKind::Dynamic => SizeMode::Any,
            VectorKind::Quaternion => SizeMode::Exact(4),
        }
    }

    /// The sizes that a sequence for this kind may have.
    pub fn size_mode(&self) -> (mode: SizeMode)
        ensures
            mode == self.sizes(),
    {
        match *self {
            VectorKind::Vector(n) => SizeMode::Exact(n),
            VectorKind::Point(n) => SizeMode::Exact(n),
            VectorKind::Bounded(n) => SizeMode::Max(n),
            VectorKind::Dynamic => SizeMode::Any,
            VectorKind::Quaternion => SizeMode::Exact(4),
        }
    }
}

/// Collects the numbers of one vector and checks how many they are.
pub struct VectorVisitor {
    pub size: SizeMode,
}

impl VectorVisitor {
    /// A visitor that accepts the given sizes.
    pub fn new(size: SizeMode) -> (visitor: VectorVisitor)
        ensures
            visitor.size == size,
    {
        VectorVisitor { size }
    }

    /// Ends a sequence: hands the numbers on if their count is accepted, and
    /// else reports the count as an invalid length.
    pub fn visit_seq<N>(&self, values: Vec<N>) -> (out: Result<Sd<Vec<N>>, usize>)
        ensures
            self.size.allows(values.len()) ==> out is Ok && out->Ok_0.v == values,
            !self.size.allows(values.len()) ==> out == Err::<Sd<Vec<N>>, usize>(values.len()),
    {
        let n: usize = values.len();
        if !self.size.allowed(n) {
            return Err(n);
        }
        Ok(Sd::new(values))
    }
}

} // verus!
