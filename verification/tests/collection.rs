use supers::iattribute::AttributeTable;
use supers::iattribute::IAttributable;
use supers::iattribute::IAttributes;
use supers::iattribute::IAttributesBool;
use supers::iattribute::IAttributesExt;
use supers::iattribute::IAttributesInt;

fn wants_bools<A: IAttributesBool>(a: &A) -> bool {
    a.has_attribute("flag")
}

fn wants_ints<A: IAttributesInt>(a: &A) -> Option<&i32> {
    a.try_get_attribute("count")
}

#[test]
fn empty_table_has_no_keys() {
    let t: AttributeTable<i32> = AttributeTable::new();
    assert!(!t.has("anything"));
    assert!(t.try_get("anything").is_none());
}

#[test]
fn inserted_key_is_present() {
    let mut t: AttributeTable<i32> = AttributeTable::new();
    t.insert("alpha", 7);
    assert!(t.has("alpha"));
    assert_eq!(t.try_get("alpha"), Some(&7));
}

#[test]
fn uninserted_key_is_reported_absent() {
    let mut t: AttributeTable<i32> = AttributeTable::new();
    t.insert("alpha", 7);
    t.insert("beta", 8);
    assert!(!t.has("gamma"));
    assert_eq!(t.try_get("gamma"), None);
    assert!(!t.has(""));
    assert_eq!(t.try_get(""), None);
}

#[test]
fn insert_supersedes_earlier_binding() {
    let mut t: AttributeTable<i32> = AttributeTable::new();
    t.insert("alpha", 1);
    t.insert("beta", 2);
    t.insert("alpha", 3);
    assert_eq!(t.try_get("alpha"), Some(&3));
    assert_eq!(t.try_get("beta"), Some(&2));
}

#[test]
fn trait_accessors_agree_with_table() {
    let mut t: AttributeTable<String> = AttributeTable::new();
    t.insert("name", String::from("ada"));
    assert!(t.has_attribute("name"));
    assert!(!t.has_attribute("missing"));
    assert_eq!(t.try_get_attribute("name").map(|s| s.as_str()), Some("ada"));
    assert_eq!(t.try_get_attribute("missing"), None);
    let same = t.interface_IAttributes();
    assert!(same.has_attribute("name"));
    assert_eq!(same.collection().try_get("name").map(|s| s.as_str()), Some("ada"));
}

#[test]
fn bool_and_int_specializations_apply() {
    let mut flags: AttributeTable<bool> = AttributeTable::new();
    flags.insert("flag", true);
    assert!(wants_bools(&flags));

    let mut counts: AttributeTable<i32> = AttributeTable::new();
    counts.insert("count", 5);
    assert_eq!(wants_ints(&counts), Some(&5));
}
