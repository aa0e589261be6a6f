//! What holds across several operations of a [`Cd`].
//!
//! Each law speaks of the operations themselves: `call_ensures(f, args, out)`
//! says that `out` is a result that `f` may give on `args`. Nothing here can
//! see inside the tracker, so each proof rests on the operations' contracts
//! and on nothing else.

use crate::Cd;
use std::ops::Deref;
use vstd::prelude::*;
use vstd::std_specs::cmp::PartialEqSpec;

verus! {

/// Whether `cd` is a tracker that one of the two constructors may make of
/// `data`.
pub open spec fn wraps<T>(cd: Cd<T>, data: T) -> bool {
    call_ensures(Cd::<T>::new, (data,), cd) || call_ensures(Cd::<T>::new_true, (data,), cd)
}

/// Wrapping a value and taking it out again gives the value back, with either
/// constructor.
pub proof fn lemma_take_undoes_wrapping<T>(data: T, cd: Cd<T>, taken: T)
    requires
        wraps(cd, data),
        call_ensures(Cd::<T>::take, (cd,), taken),
    ensures
        taken == data,
{
}

/// `cd == other` is what `T` says of the value held and `other`: two trackers
/// that hold the same value compare alike with every `other`, whatever their
/// flags are.
pub proof fn lemma_eq_ignores_flag<T: PartialEq>(a: Cd<T>, b: Cd<T>, other: T)
    requires
        a.value() == b.value(),
    ensures
        a.eq_spec(&other) == a.value().eq_spec(&other),
        a.eq_spec(&other) == b.eq_spec(&other),
{
}

/// A freshly wrapped value equals the value it was made of, with either
/// constructor: `Cd::new(data) == data`.
///
/// This needs an equality on `T` that is specified and holds between `data`
/// and itself.
pub proof fn lemma_wrapped_equals_value<T: PartialEq>(data: T, cd: Cd<T>, equal: bool)
    requires
        T::obeys_eq_spec(),
        data.eq_spec(&data),
        wraps(cd, data),
        call_ensures(<Cd<T> as PartialEq<T>>::eq, (&cd, &data), equal),
    ensures
        equal,
{
}

/// The same from the other side: `data == *Cd::new(data)`.
pub proof fn lemma_value_equals_wrapped<T: PartialEq>(data: T, cd: Cd<T>, shown: &T, equal: bool)
    requires
        T::obeys_eq_spec(),
        data.eq_spec(&data),
        wraps(cd, data),
        call_ensures(<Cd<T> as Deref>::deref, (&cd,), shown),
        call_ensures(T::eq, (&data, shown), equal),
    ensures
        equal,
{
}

} // verus!
