//! The labeled-value capability and the keyed attribute collection.
//!
//! `IAttribute` pairs a mutable string label with a stored value; it is
//! deliberately independent of `IData`, so one type can hold a payload
//! through `IData<D>` and a separately typed tag slot through
//! `IAttribute<A>` at the same time.
//!
//! `AttributeTable` is the concrete keyed collection: a mapping from string
//! key to value whose model is a `Map<Seq<char>, T>`. A missing key is
//! reported explicitly (`None`), never papered over with a default value.

use vstd::prelude::*;
use crate::idata::IData;
use crate::idata::IDataRef;
use crate::text::str_equal;

verus! {

/// A type that can answer whether it carries an attribute under a key.
pub trait IAttributable {
    /// The set of keys under which an attribute is present.
    spec fn attribute_keys(&self) -> Set<Seq<char>>;

    /// True iff an attribute is present under `key`.
    fn has_attribute(&self, key: &str) -> (r: bool)
        ensures
            r == self.attribute_keys().contains(key@),
    ;
}

/// A labeled value: a mutable string label alongside a stored value of
/// type `A`. Label and value are independently settable; setting one
/// leaves the other unchanged.
pub trait IAttribute<A> {
    /// The label, as seen by contracts.
    spec fn label_spec(&self) -> Seq<char>;

    /// The stored value, as seen by contracts.
    spec fn attribute_spec(&self) -> A;

    /// Reads the label.
    fn label(&self) -> (r: &str)
        ensures
            r@ == self.label_spec(),
    ;

    /// Replaces the label; the stored value is untouched.
    fn set_label(&mut self, label: &str)
        ensures
            final(self).label_spec() == label@,
            final(self).attribute_spec() == old(self).attribute_spec(),
    ;

    /// Reads the stored value.
    fn attribute(&self) -> (r: &A)
        ensures
            *r == self.attribute_spec(),
    ;

    /// Replaces the stored value; the label is untouched.
    fn set_attribute(&mut self, value: A)
        ensures
            final(self).attribute_spec() == value,
            final(self).label_spec() == old(self).label_spec(),
    ;
}

/// A plain labeled value: a string key and a payload. The payload is
/// reachable through `IAttribute<T>`, `IData<T>` and `IDataRef<T>`
/// alike; every setter leaves the key untouched.
#[derive(Debug, Clone)]
pub struct Attribute<T> {
    pub key: String,
    pub value: T,
}

impl<T> Attribute<T> {
    /// A labeled value with label `key` and payload `value`.
    pub fn new(key: &str, value: T) -> (r: Self)
        ensures
            r.key@ == key@,
            r.value == value,
    {
        Attribute { key: key.to_owned(), value }
    }
}

impl<T> IData<T> for Attribute<T> {
    open spec fn data_spec(&self) -> T {
        self.value
    }

    fn data(&self) -> (r: &T) {
        &self.value
    }

    fn set_data(&mut self, value: T)
        ensures
            final(self).key@ == old(self).key@,
    {
        self.value = value;
    }
}

impl<T> IDataRef<T> for Attribute<T> {
    open spec fn data_ref_spec(&self) -> T {
        self.value
    }

    fn data_ref(&self) -> (r: &T) {
        &self.value
    }

    fn set_data_ref(&mut self, value: T)
        ensures
            final(self).key@ == old(self).key@,
    {
        self.value = value;
    }
}

impl<T> IAttribute<T> for Attribute<T> {
    open spec fn label_spec(&self) -> Seq<char> {
        self.key@
    }

    open spec fn attribute_spec(&self) -> T {
        self.value
    }

    fn label(&self) -> (r: &str) {
        self.key.as_str()
    }

    fn set_label(&mut self, label: &str) {
        self.key = label.to_owned();
    }

    fn attribute(&self) -> (r: &T) {
        &self.value
    }

    fn set_attribute(&mut self, value: T) {
        self.value = value;
    }
}

/// The mapping denoted by a sequence of key/value entries: a later entry
/// with the same key supersedes an earlier one.
spec fn entries_map<T>(s: Seq<(String, T)>) -> Map<Seq<char>, T>
    decreases s.len(),
{
    if s.len() == 0 {
        Map::empty()
    } else {
        entries_map(s.drop_last()).insert(s.last().0@, s.last().1)
    }
}

proof fn lemma_entries_map_absent<T>(s: Seq<(String, T)>, k: Seq<char>)
    requires
        forall|i: int| 0 <= i < s.len() ==> s[i].0@ != k,
    ensures
        !entries_map(s).contains_key(k),
    decreases s.len(),
{
    if s.len() > 0 {
        lemma_entries_map_absent(s.drop_last(), k);
    }
}

proof fn lemma_entries_map_found<T>(s: Seq<(String, T)>, i: int, k: Seq<char>)
    requires
        0 <= i < s.len(),
        s[i].0@ == k,
        forall|j: int| i < j < s.len() ==> s[j].0@ != k,
    ensures
        entries_map(s).contains_key(k),
        entries_map(s)[k] == s[i].1,
    decreases s.len(),
{
    if i == s.len() - 1 {
    } else {
        lemma_entries_map_found(s.drop_last(), i, k);
    }
}

/// A keyed collection of values: a mapping from string key to `T`.
/// Its model is the `Map<Seq<char>, T>` given by its view.
pub struct AttributeTable<T> {
    entries: Vec<(String, T)>,
}

impl<T> View for AttributeTable<T> {
    type V = Map<Seq<char>, T>;

    closed spec fn view(&self) -> Map<Seq<char>, T> {
        entries_map(self.entries@)
    }
}

impl<T> AttributeTable<T> {
    /// An empty collection: no key is present.
    pub fn new() -> (r: Self)
        ensures
            r@ == Map::<Seq<char>, T>::empty(),
    {
        AttributeTable { entries: Vec::new() }
    }

    /// Binds `key` to `value`, superseding any earlier binding of `key`.
    pub fn insert(&mut self, key: &str, value: T)
        ensures
            final(self)@ == old(self)@.insert(key@, value),
    {
        let ghost before = self.entries@;
        self.entries.push((key.to_owned(), value));
        proof {
            assert(self.entries@.drop_last() =~= before);
        }
    }

    /// True iff `key` is bound.
    pub fn has(&self, key: &str) -> (r: bool)
        ensures
            r == self@.contains_key(key@),
    {
        match self.try_get(key) {
            Option::Some(_) => true,
            Option::None => false,
        }
    }

    /// The value bound to `key`, or `None` if `key` is unbound; absence is
    /// always reported explicitly, never as a substituted default value.
    pub fn try_get(&self, key: &str) -> (r: Option<&T>)
        ensures
            (match r {
                Option::Some(v) => self@.contains_key(key@) && *v == self@[key@],
                Option::None => !self@.contains_key(key@),
            }),
    {
        let mut i: usize = self.entries.len();
        while i > 0
            invariant
                i <= self.entries.len(),
                forall|j: int| i <= j < self.entries@.len() ==> self.entries@[j].0@ != key@,
            decreases i,
        {
            i = i - 1;
            let pair = &self.entries[i];
            if str_equal(pair.0.as_str(), key) {
                proof {
                    lemma_entries_map_found(self.entries@, i as int, key@);
                }
                return Option::Some(&pair.1);
            }
        }
        proof {
            lemma_entries_map_absent(self.entries@, key@);
        }
        Option::None
    }
}

/// A type that owns a keyed collection of attributes of type `T`.
pub trait IAttributes<T>: IAttributable {
    /// The owned mapping, as seen by contracts.
    spec fn collection_spec(&self) -> Map<Seq<char>, T>;

    /// The attribute keys are exactly the keys of the owned mapping.
    proof fn attribute_keys_are_collection_keys(&self)
        ensures
            self.attribute_keys() == self.collection_spec().dom(),
    ;

    /// Reads the owned collection.
    fn collection(&self) -> (r: &AttributeTable<T>)
        ensures
            r@ == self.collection_spec(),
    ;

    /// The value bound to `key` in the owned collection, or `None` if
    /// `key` is unbound.
    fn try_get_attribute(&self, key: &str) -> (r: Option<&T>)
        ensures
            (match r {
                Option::Some(v) => self.collection_spec().contains_key(key@)
                    && *v == self.collection_spec()[key@],
                Option::None => !self.collection_spec().contains_key(key@),
            }),
    {
        self.collection().try_get(key)
    }
}

impl<T> IAttributable for AttributeTable<T> {
    open spec fn attribute_keys(&self) -> Set<Seq<char>> {
        self@.dom()
    }

    fn has_attribute(&self, key: &str) -> (r: bool) {
        self.has(key)
    }
}

impl<T> IAttributes<T> for AttributeTable<T> {
    open spec fn collection_spec(&self) -> Map<Seq<char>, T> {
        self@
    }

    proof fn attribute_keys_are_collection_keys(&self) {
    }

    fn collection(&self) -> (r: &AttributeTable<T>) {
        self
    }
}

/// Upcast helper: views a value through its `IAttributes` capability.
pub trait IAttributesExt<T>: IAttributes<T> {
    /// Returns the receiver itself, seen as an `IAttributes` implementor.
    #[allow(non_snake_case)]
    fn interface_IAttributes(&self) -> (r: &Self)
        ensures
            r == self,
    {
        self
    }
}

impl<T, A: IAttributes<T>> IAttributesExt<T> for A {

}

/// An attribute collection specialized to boolean values.
pub trait IAttributesBool: IAttributes<bool> {

}

impl<A: IAttributes<bool>> IAttributesBool for A {

}

/// An attribute collection specialized to signed integer values.
pub trait IAttributesInt: IAttributes<i32> {

}

impl<A: IAttributes<i32>> IAttributesInt for A {

}

} // verus!
