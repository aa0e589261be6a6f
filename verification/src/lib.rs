//! Change detection for a single value.
//!
//! [`Cd`] owns a value and a flag. Reading the value through `*cd` leaves the
//! flag alone; borrowing it for writing through `*cd` raises the flag, whether
//! or not anything is then written. The flag stays up until [`Cd::reset`]
//! clears it. [`Cd::mutate_silently`] is the way round the bookkeeping: a
//! mutable borrow that leaves the flag as it is.
//!
//! The flag follows the path by which the value was reached, never the value
//! itself: writing back the value that was already there still counts as a
//! change.
//!
//! Every operation carries a contract over two specification functions,
//! [`Cd::value`] and [`Cd::spec_changed`], and the module [`laws`] proves what
//! holds across several operations from those contracts alone.

use std::ops::{Deref, DerefMut};
use vstd::prelude::*;
use vstd::std_specs::cmp::{PartialEqSpec, PartialEqSpecImpl};

pub mod laws;

verus! {

/// A value together with a flag that tells whether the value has been borrowed
/// for writing since the tracker was made or last reset.
///
/// The two states are told apart by [`changed`](Cd::changed) alone. No
/// operation fails, and any value of `T` may be combined with either state.
#[derive(Debug)]
pub struct Cd<T> {
    data: T,
    changed: bool,
}

impl<T> Cd<T> {
    /// The value that the tracker holds.
    pub closed spec fn value(&self) -> T {
        self.data
    }

    /// The flag as contracts see it. In a contract, `cd.changed()` means this.
    pub closed spec fn spec_changed(&self) -> bool {
        self.changed
    }

    /// A tracker is nothing beyond its value and its flag: two trackers that
    /// agree on both are the same tracker.
    pub proof fn lemma_determined_by_value_and_flag(self, other: Cd<T>)
        requires
            self.value() == other.value(),
            self.changed() == other.changed(),
        ensures
            self == other,
    {
    }

    /// Wraps `data` in a tracker whose flag is down.
    pub fn new(data: T) -> (cd: Cd<T>)
        ensures
            cd.value() == data,
            !cd.changed(),
    {
        Cd { data, changed: false }
    }

    /// Wraps `data` in a tracker whose flag is already up, for a value that
    /// is to be treated as changed from the start.
    pub fn new_true(data: T) -> (cd: Cd<T>)
        ensures
            cd.value() == data,
            cd.changed(),
    {
        Cd { data, changed: true }
    }

    /// Lowers the flag, whatever it was. The value is not touched.
    pub fn reset(&mut self)
        ensures
            final(self).value() == old(self).value(),
            !final(self).changed(),
    {
        self.changed = false;
    }

    /// Gives the value back and ends the tracker: the flag is dropped with it.
    pub fn take(self) -> (data: T)
        ensures
            data == self.value(),
    {
        self.data
    }

    /// Whether the value has been borrowed for writing since the tracker was
    /// made or last reset.
    #[verifier::when_used_as_spec(spec_changed)]
    pub fn changed(&self) -> (flag: bool)
        ensures
            flag == self.spec_changed(),
    {
        self.changed
    }

    /// Borrows the value for writing and leaves the flag as it is.
    ///
    /// The tracker ends up holding whatever the borrow holds when it is given
    /// up.
    pub fn mutate_silently(&mut self) -> (data: &mut T)
        ensures
            *data == old(self).value(),
            final(self).value() == *final(data),
            final(self).changed() == old(self).changed(),
    {
        &mut self.data
    }
}

/// Reading: `*cd` shows the value. The tracker is borrowed shared, so neither
/// its value nor its flag can differ afterwards.
impl<T> Deref for Cd<T> {
    type Target = T;

    fn deref(&self) -> (data: &T)
        ensures
            *data == self.value(),
    {
        &self.data
    }
}

/// Writing: a mutable `*cd` raises the flag at the moment of the borrow, before
/// and regardless of any write through it.
impl<T> DerefMut for Cd<T> {
    fn deref_mut(&mut self) -> (data: &mut T)
        ensures
            *data == old(self).value(),
            final(self).value() == *final(data),
            final(self).changed(),
    {
        self.changed = true;
        &mut self.data
    }
}

/// `cd == value` asks `T` whether the value held equals `value`. The flag
/// takes no part in it.
impl<T: PartialEq> PartialEq<T> for Cd<T> {
    fn eq(&self, other: &T) -> (equal: bool)
        ensures
            call_ensures(T::eq, (&self.value(), other), equal),
    {
        self.data == *other
    }
}

impl<T: PartialEq> PartialEqSpecImpl<T> for Cd<T> {
    open spec fn obeys_eq_spec() -> bool {
        T::obeys_eq_spec()
    }

    open spec fn eq_spec(&self, other: &T) -> bool {
        self.value().eq_spec(other)
    }
}

/// The default tracker holds `T`'s default value, with the flag down.
impl<T: Default> Default for Cd<T> {
    fn default() -> (cd: Self)
        ensures
            call_ensures(T::default, (), cd.value()),
            !cd.changed(),
    {
        Cd { data: T::default(), changed: false }
    }
}

} // verus!
