use supers::iattribute::Attribute;
use supers::iattribute::IAttribute;
use supers::idata::DataBox;
use supers::idata::IData;
use supers::idata::IDataExt;
use supers::idata::IDataRef;

#[test]
fn data_box_new_then_get() {
    let b = DataBox::new(42);
    assert_eq!(*b.get_data(), 42);
    assert_eq!(*b.data(), 42);
    assert_eq!(*b.data_ref(), 42);
    assert_eq!(*b.get_data_ref(), 42);
}

#[test]
fn data_box_new_then_get_string() {
    let b = DataBox::new(String::from("hello"));
    assert_eq!(b.get_data().as_str(), "hello");
}

#[test]
fn data_box_set_overrides_prior_state() {
    let mut b = DataBox::new(1);
    b.set_data(2);
    assert_eq!(*b.get_data(), 2);
    b.set_data(3);
    assert_eq!(*b.get_data(), 3);
    b.set_data_ref(100);
    assert_eq!(*b.get_data(), 100);
}

#[test]
fn data_box_interface_upcast_is_identity() {
    let b = DataBox::new(9);
    let same: &DataBox<i32> = b.interface_IData();
    assert_eq!(*same.get_data(), 9);
}

#[test]
fn attribute_new_holds_label_and_value() {
    let a = Attribute::new("speed", 12);
    assert_eq!(a.label(), "speed");
    assert_eq!(*a.attribute(), 12);
    assert_eq!(*a.get_data(), 12);
    assert_eq!(a.key, "speed");
    assert_eq!(a.value, 12);
}

#[test]
fn attribute_set_label_keeps_value() {
    let mut a = Attribute::new("speed", 12);
    a.set_label("velocity");
    assert_eq!(a.label(), "velocity");
    assert_eq!(*a.attribute(), 12);
}

#[test]
fn attribute_set_value_keeps_label() {
    let mut a = Attribute::new("speed", 12);
    a.set_attribute(99);
    assert_eq!(a.label(), "speed");
    assert_eq!(*a.attribute(), 99);
    a.set_data(7);
    assert_eq!(*a.attribute(), 7);
    assert_eq!(a.label(), "speed");
}
