//! The two extension points of the registry: opaque values that know their
//! type identity, and capabilities that transform one raw type.
use vstd::prelude::*;

verus! {

/// Identity of a concrete resource type.
pub type TypeTag = u64;

/// An opaque value: a value of one of several concrete resource types, which
/// can say which one it holds.
pub trait Erased: Sized {
    /// The identity of the concrete type that this value holds.
    spec fn type_key(&self) -> TypeTag;

    fn type_tag(&self) -> (r: TypeTag)
        ensures
            r == self.type_key(),
    ;
}

/// A transformation capability for one concrete raw type.
///
/// The typed half of a plugin: it turns a reference to a `T` into a new `R`.
pub trait Loader<T, R>: Sized {
    /// `r` is a result that `create` may return for `t`.
    spec fn creates(&self, t: T, r: R) -> bool;

    fn create(&self, t: &T) -> (r: R)
        ensures
            self.creates(*t, r),
    ;
}

/// A capability seen through opaque values: the registry routes a raw value
/// here only when the value's type is the one this capability accepts, so the
/// downcast that an implementation makes always succeeds.
pub trait LoaderRouter<V: Erased>: Sized {
    /// The raw type that this capability accepts.
    spec fn raw_key(&self) -> TypeTag;

    /// `out` is a transformed value that this capability may produce from `raw`.
    spec fn routes(&self, raw: V, out: V) -> bool;

    fn raw_type_tag(&self) -> (r: TypeTag)
        ensures
            r == self.raw_key(),
    ;

    fn enroute_create(&self, raw: &V) -> (out: V)
        requires
            raw.type_key() == self.raw_key(),
        ensures
            self.routes(*raw, out),
    ;
}

} // verus!
