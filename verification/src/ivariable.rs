//! The composed variable capability and the concrete `Variable` type.
//!
//! `IVariable<D, A>` is nothing more than holding a data payload of type
//! `D` and a labeled slot of type `A` at once: any type that independently
//! satisfies both capabilities is an `IVariable<D, A>` through a blanket
//! implementation, with no further declaration.

use vstd::prelude::*;
use crate::idata::IData;
use crate::idata::IDataRef;
use crate::iattribute::IAttribute;

verus! {

/// Holds a data payload of type `D` and a labeled slot of type `A`.
pub trait IVariable<D, A>: IData<D> + IAttribute<A> {

}

impl<D, A, V: IData<D> + IAttribute<A>> IVariable<D, A> for V {

}

/// A concrete variable: a string label, a payload of type `T`, and a
/// fixed-width numeric tag slot. The payload is reachable through
/// `IData<T>`, the label and the tag slot through `IAttribute<u32>`.
#[derive(Debug, Clone)]
pub struct Variable<T> {
    pub key: String,
    pub value: T,
    pub slot: u32,
}

impl<T> Variable<T> {
    /// A variable with label `key`, payload `value` and tag slot `slot`.
    pub fn new(key: &str, value: T, slot: u32) -> (r: Self)
        ensures
            r.key@ == key@,
            r.value == value,
            r.slot == slot,
    {
        Variable { key: key.to_owned(), value, slot }
    }

    /// The tag slot read as an identifier.
    pub fn id(&self) -> (r: u32)
        ensures
            r == self.slot,
    {
        self.slot
    }

    /// Sets label and tag slot together; the payload is untouched.
    pub fn set_typed_slot(&mut self, label: &str, slot: u32)
        ensures
            final(self).key@ == label@,
            final(self).slot == slot,
            final(self).value == old(self).value,
    {
        self.key = label.to_owned();
        self.slot = slot;
    }
}

/// The payload is the held value: setting it leaves the label and the
/// tag slot untouched.
impl<T> IData<T> for Variable<T> {
    open spec fn data_spec(&self) -> T {
        self.value
    }

    fn data(&self) -> (r: &T) {
        &self.value
    }

    fn set_data(&mut self, value: T)
        ensures
            final(self).key@ == old(self).key@,
            final(self).slot == old(self).slot,
    {
        self.value = value;
    }
}

/// The payload doubles as the backing reference slot.
impl<T> IDataRef<T> for Variable<T> {
    open spec fn data_ref_spec(&self) -> T {
        self.value
    }

    fn data_ref(&self) -> (r: &T) {
        &self.value
    }

    fn set_data_ref(&mut self, value: T)
        ensures
            final(self).key@ == old(self).key@,
            final(self).slot == old(self).slot,
    {
        self.value = value;
    }
}

impl<T> IAttribute<u32> for Variable<T> {
    open spec fn label_spec(&self) -> Seq<char> {
        self.key@
    }

    open spec fn attribute_spec(&self) -> u32 {
        self.slot
    }

    fn label(&self) -> (r: &str) {
        self.key.as_str()
    }

    fn set_label(&mut self, label: &str)
        ensures
            final(self).value == old(self).value,
    {
        self.key = label.to_owned();
    }

    fn attribute(&self) -> (r: &u32) {
        &self.slot
    }

    fn set_attribute(&mut self, value: u32)
        ensures
            final(self).value == old(self).value,
    {
        self.slot = value;
    }
}

} // verus!
