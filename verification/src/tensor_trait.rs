//! The tensor capability: a container that owns an accessor for its current
//! axis, through which all indexing goes.

use vstd::prelude::*;

use crate::tensor_accessor::TensorAccessor;

verus! {

/// A dimension-aware container. It does nothing itself but hand out the
/// accessor for its current axis; every indexing operation is performed
/// through that accessor. A range slice of one axis is itself expected to
/// implement this capability, so that higher-rank indexing is composed by
/// chaining single-axis accesses through nested slices.
pub trait TensorTrait<T>: Sized {
    type Accessor: TensorAccessor<T>;

    /// The accessor this container currently presents for its axis.
    spec fn spec_accessor(&self) -> Self::Accessor;

    /// The container as it stands after its accessor has been replaced by
    /// `accessor`: how a mutation performed through the accessor is reflected
    /// in the container itself.
    spec fn spec_with_accessor(&self, accessor: Self::Accessor) -> Self;

    /// Gets the immutable accessor to the current tensor.
    fn get_accessor<'a>(&'a self) -> (r: &'a Self::Accessor)
        ensures
            *r == self.spec_accessor(),
    ;

    /// Gets the mutable accessor to the current tensor. Whatever the caller
    /// writes through the borrow is reflected in the container once the
    /// borrow expires.
    fn get_mut_accessor<'a>(&'a mut self) -> (r: &'a mut Self::Accessor)
        ensures
            *r == old(self).spec_accessor(),
            *final(self) == old(self).spec_with_accessor(*final(r)),
    ;
}

} // verus!
