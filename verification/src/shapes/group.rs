//! Group: the composite shape that owns a sequence of children.
//!
//! A child's stored `local` transform is relative to its parent; its
//! `transform` is the fully resolved composition with every ancestor, kept
//! up to date on insertion and on re-transformation. Groups have no
//! material of their own and no local geometry: intersection fans out to
//! the children, and the bounds are the union of the children's transformed
//! boxes.

use super::Shape;
use crate::matrix::{eye_spec, Matrix};
use vstd::prelude::*;

verus! {

#[derive(Debug)]
pub struct Group {
    pub id: usize,
    /// Transform relative to the nearest enclosing group.
    pub local: Matrix,
    /// Fully resolved transform (object space to world space).
    pub transform: Matrix,
    /// Cached inverse of the resolved transform.
    pub inverse: Matrix,
    pub children: Vec<Shape>,
}

impl Group {
    /// An empty, untransformed group.
    pub fn new(id: usize) -> (s: Shape)
        ensures
            s is Group,
            s->Group_0.id == id,
            s->Group_0.local == eye_spec(),
            s->Group_0.transform == eye_spec(),
            s->Group_0.inverse == eye_spec(),
            s->Group_0.children@ =~= Seq::<Shape>::empty(),
    {
        Shape::Group(
            Group {
                id,
                local: Matrix::eye(),
                transform: Matrix::eye(),
                inverse: Matrix::eye(),
                children: Vec::new(),
            },
        )
    }
}

} // verus!
