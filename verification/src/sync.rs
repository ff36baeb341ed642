//! Declarations of the standard-library synchronisation primitives that the
//! message containers are built on, together with the few contracts this
//! crate assumes about them.
use vstd::prelude::*;
use std::sync::Condvar;
use std::sync::Mutex;

verus! {

/// A mutual-exclusion lock, opaque to the verifier; what a `Mutex` guards is
/// only ever touched inside the trusted bodies of this crate's containers.
#[verifier::external_type_specification]
#[verifier::external_body]
#[verifier::reject_recursive_types(T)]
pub struct ExMutex<T: ?Sized>(Mutex<T>);

/// A condition variable, opaque to the verifier.
#[verifier::external_type_specification]
#[verifier::external_body]
pub struct ExCondvar(Condvar);

/// Relies on std::sync::Mutex::new: wraps a value in a new lock.
/// Nothing is stated, because a `Mutex` value is opaque here.
pub assume_specification<T>[ Mutex::<T>::new ](t: T) -> Mutex<T>;

/// Relies on std::sync::Condvar::new: creates a fresh condition variable.
pub assume_specification[ Condvar::new ]() -> Condvar;

} // verus!
