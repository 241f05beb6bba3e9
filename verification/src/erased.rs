//! Type erasure for the command bus: values boxed as `Box<dyn Any>` and
//! type identifiers. Everything here is a thin layer over `std::any`; what
//! the bus proves rests on the contracts stated below.

use std::any::{Any, TypeId};
use std::marker::PhantomData;
use vstd::prelude::*;

verus! {

#[verifier::external_type_specification]
#[verifier::external_body]
pub struct ExTypeId(TypeId);

/// A value with its type erased.
#[verifier::external_body]
pub struct AnyBox(Box<dyn Any>);

/// The identifier that `TypeId::of` gives the type `T`. It is fixed by the
/// type alone; nothing else is known of it.
pub closed spec fn type_key<T: ?Sized>() -> TypeId {
    vstd::pervasive::arbitrary::<(TypeId, PhantomData<T>)>().0
}

/// What `<dyn Any>::type_id` gives for the value in the box: the identifier
/// of the type of the value it holds.
pub uninterp spec fn held_type(value: AnyBox) -> TypeId;

/// The value of type `T` that the box holds. It means something only for a
/// box whose `held_type` is `type_key::<T>()`.
pub closed spec fn held_value<T>(value: AnyBox) -> T {
    vstd::pervasive::arbitrary::<spec_fn(AnyBox) -> T>()(value)
}

/// `std::any::TypeId::of`: the identifier of the type `T`, which depends on
/// the type alone.
#[verifier::external_body]
pub fn type_id_of<T: ?Sized + 'static>() -> (k: TypeId)
    ensures
        k == type_key::<T>(),
{
    TypeId::of::<T>()
}

/// `TypeId`'s `==`: two identifiers compare equal exactly when they are the
/// same value.
#[verifier::external_body]
pub fn same_key(a: &TypeId, b: &TypeId) -> (r: bool)
    ensures
        r == (*a == *b),
{
    *a == *b
}

/// `Box::new` into a `Box<dyn Any>`: the box holds `value`, and its
/// `type_id` is that of `T`.
#[verifier::external_body]
pub fn erase<T: 'static>(value: T) -> (b: AnyBox)
    ensures
        held_type(b) == type_key::<T>(),
        held_value::<T>(b) == value,
{
    AnyBox(Box::new(value))
}

/// `Box::<dyn Any>::downcast` to `T`, on a box whose `type_id` is that of
/// `T`: the downcast succeeds and gives back the value the box holds.
#[verifier::external_body]
pub fn recover<T: 'static>(b: AnyBox) -> (value: T)
    requires
        held_type(b) == type_key::<T>(),
    ensures
        value == held_value::<T>(b),
{
    *b.0.downcast::<T>().expect("the box holds a value of the requested type")
}

} // verus!
