//! The value-holder capability: a single owned value with get/set access.
//!
//! `IData` is the capability itself; `IDataRef` is the same capability
//! phrased over a backing reference slot. A type implements both
//! explicitly, so that each implementation can state not only what its
//! setter stores but also what it leaves untouched.

use vstd::prelude::*;

verus! {

/// A type that holds exactly one value of type `T`.
pub trait IData<T> {
    /// The held value, as seen by contracts.
    spec fn data_spec(&self) -> T;

    /// Reads the held value.
    fn data(&self) -> (r: &T)
        ensures
            *r == self.data_spec(),
    ;

    /// Replaces the held value; always succeeds, whatever the prior state.
    fn set_data(&mut self, value: T)
        ensures
            final(self).data_spec() == value,
    ;

    /// Reads the held value; a convenience alias for `data`.
    fn get_data(&self) -> (r: &T)
        ensures
            *r == self.data_spec(),
    {
        self.data()
    }
}

/// The same capability phrased over a backing reference slot.
pub trait IDataRef<T> {
    /// The value in the backing slot, as seen by contracts.
    spec fn data_ref_spec(&self) -> T;

    /// Reads the backing slot.
    fn data_ref(&self) -> (r: &T)
        ensures
            *r == self.data_ref_spec(),
    ;

    /// Replaces the value in the backing slot.
    fn set_data_ref(&mut self, value: T)
        ensures
            final(self).data_ref_spec() == value,
    ;

    /// Reads the backing slot; a convenience alias for `data_ref`.
    fn get_data_ref(&self) -> (r: &T)
        ensures
            *r == self.data_ref_spec(),
    {
        self.data_ref()
    }
}

/// Upcast helper: views a value through its `IData` capability.
pub trait IDataExt<T>: IData<T> {
    /// Returns the receiver itself, seen as an `IData` implementor.
    #[allow(non_snake_case)]
    fn interface_IData(&self) -> (r: &Self)
        ensures
            r == self,
    {
        self
    }
}

impl<T, I: IData<T>> IDataExt<T> for I {

}

/// Stores the value directly in a private field; implements `IData<T>`
/// and `IDataRef<T>` over that field.
pub struct DataBox<T> {
    inner: T,
}

impl<T> View for DataBox<T> {
    type V = T;

    closed spec fn view(&self) -> T {
        self.inner
    }
}

impl<T> DataBox<T> {
    /// A box holding `value`.
    pub fn new(value: T) -> (r: Self)
        ensures
            r@ == value,
    {
        DataBox { inner: value }
    }
}

impl<T> IData<T> for DataBox<T> {
    open spec fn data_spec(&self) -> T {
        self@
    }

    fn data(&self) -> (r: &T) {
        &self.inner
    }

    fn set_data(&mut self, value: T) {
        self.inner = value;
    }
}

impl<T> IDataRef<T> for DataBox<T> {
    open spec fn data_ref_spec(&self) -> T {
        self@
    }

    fn data_ref(&self) -> (r: &T) {
        &self.inner
    }

    fn set_data_ref(&mut self, value: T) {
        self.inner = value;
    }
}

} // verus!
