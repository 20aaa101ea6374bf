//! Fixed-size matrix containers whose entries are stored as nested arrays.

use vstd::prelude::*;

verus! {

/// A `W` by `H` block of entries: `H` inner arrays of `W` entries each.
#[derive(Clone, Copy, Debug)]
pub struct MatN<T, const W: usize, const H: usize>([[T; W]; H]);

impl<T, const W: usize, const H: usize> MatN<T, W, H> {
    /// The nested arrays that hold the entries.
    pub closed spec fn entries(self) -> [[T; W]; H] {
        self.0
    }
}

/// A two by two matrix.
#[derive(Clone, Copy, Debug)]
pub struct Mat2<T>(MatN<T, 2, 2>);

impl<T> Mat2<T> {
    /// The nested arrays that hold the entries.
    pub closed spec fn entries(self) -> [[T; 2]; 2] {
        self.0.0
    }

    pub fn new(inner: [[T; 2]; 2]) -> (r: Self)
        ensures
            r.entries() == inner,
    {
        Self(MatN(inner))
    }

    pub fn as_array(&self) -> (r: &[[T; 2]; 2])
        ensures
            *r == self.entries(),
    {
        &self.0.0
    }
}

/// A three by three matrix.
#[derive(Clone, Copy, Debug)]
pub struct Mat3<T>(MatN<T, 3, 3>);

impl<T> Mat3<T> {
    /// The nested arrays that hold the entries.
    pub closed spec fn entries(self) -> [[T; 3]; 3] {
        self.0.0
    }

    pub fn new(inner: [[T; 3]; 3]) -> (r: Self)
        ensures
            r.entries() == inner,
    {
        Self(MatN(inner))
    }

    pub fn as_array(&self) -> (r: &[[T; 3]; 3])
        ensures
            *r == self.entries(),
    {
        &self.0.0
    }
}

/// A four by four matrix.
#[derive(Clone, Copy, Debug)]
pub struct Mat4<T>(MatN<T, 4, 4>);

impl<T> Mat4<T> {
    /// The nested arrays that hold the entries.
    pub closed spec fn entries(self) -> [[T; 4]; 4] {
        self.0.0
    }

    pub fn new(inner: [[T; 4]; 4]) -> (r: Self)
        ensures
            r.entries() == inner,
    {
        Self(MatN(inner))
    }

    pub fn as_array(&self) -> (r: &[[T; 4]; 4])
        ensures
            *r == self.entries(),
    {
        &self.0.0
    }
}

} // verus!
