//! Checked extraction of values and checked integer conversions.
//!
//! Nothing here can fail at run time: each function states as a precondition
//! that the value it is asked for exists, and the verifier makes every caller
//! show it.

use vstd::prelude::*;
use vstd::std_specs::convert::TryIntoSpec;

verus! {

/// A container that may or may not hold a value of type `T`, from which the
/// value can be taken once the caller has shown that it is there.
pub trait CheckError<T>: Sized {
    /// Whether a value is present.
    spec fn has_value(&self) -> bool;

    /// The value that is present; meaningful only under `has_value`.
    spec fn value(self) -> T;

    /// Takes the value out. `msg` names what the caller expected to find.
    fn or_err(self, msg: &str) -> (t: T)
        requires
            self.has_value(),
        ensures
            t == self.value(),
    ;

    /// Takes the value out. `action` names the step whose outcome this is.
    fn try_to(self, action: &str) -> (t: T)
        requires
            self.has_value(),
        ensures
            t == self.value(),
    ;
}

impl<T> CheckError<T> for Option<T> {
    open spec fn has_value(&self) -> bool {
        self is Some
    }

    open spec fn value(self) -> T {
        self->0
    }

    fn or_err(self, msg: &str) -> (t: T) {
        self.unwrap()
    }

    fn try_to(self, action: &str) -> (t: T) {
        self.or_err(action)
    }
}

impl<T, E> CheckError<T> for Result<T, E> {
    open spec fn has_value(&self) -> bool {
        self is Ok
    }

    open spec fn value(self) -> T {
        self->Ok_0
    }

    fn or_err(self, msg: &str) -> (t: T) {
        match self {
            Ok(t) => t,
            Err(_) => {
                proof {
                    assert(false);
                }
                vstd::pervasive::unreached()
            },
        }
    }

    fn try_to(self, action: &str) -> (t: T) {
        self.or_err(action)
    }
}

/// Converts `x` to `u32` without change of value.
pub fn to_u32<T: TryInto<u32> + Copy>(x: T) -> (r: u32)
    requires
        T::obeys_try_into_spec(),
        x.try_into_spec() is Ok,
    ensures
        x.try_into_spec() == Ok::<u32, <T as TryInto<u32>>::Error>(r),
{
    x.try_into().ok().try_to("cast to u32")
}

/// Converts `x` to `i32` without change of value.
pub fn to_i32<T: TryInto<i32> + Copy>(x: T) -> (r: i32)
    requires
        T::obeys_try_into_spec(),
        x.try_into_spec() is Ok,
    ensures
        x.try_into_spec() == Ok::<i32, <T as TryInto<i32>>::Error>(r),
{
    x.try_into().ok().try_to("cast to i32")
}

} // verus!
