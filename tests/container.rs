use std::any::Any;

use board_model::spaces::{ContainerSpace, NoElementError, Space};

fn is<T: 'static>(obj: &dyn Any) -> bool {
    obj.is::<T>()
}

#[test]
fn no_element_err_to_str() {
    assert_eq!(NoElementError.to_string(), "The space did not have an element");
}

#[test]
fn container_new() {
    let cut = ContainerSpace::<u8>::new();
    assert_eq!(cut.as_option(), &None);
}

#[test]
fn container_with_element() {
    const ELEMENT: char = 'a';
    let cut = ContainerSpace::with_element(ELEMENT);
    assert!(cut.as_option().is_some());
    assert!(is::<char>(&cut.as_option().unwrap()));
    assert_eq!(cut.as_option().unwrap(), ELEMENT);
}

#[test]
fn as_option() {
    // test with None
    let element = None;
    let cut = ContainerSpace::<u8>::from(element);
    assert_eq!(cut.as_option(), &element);

    // test with a value
    let element = Some(5);
    let cut = ContainerSpace::from(element);
    assert_eq!(cut.as_option(), &element);
}

#[test]
fn container_element() {
    // test with None
    let element = None;
    let cut = ContainerSpace::<u8>::from(element);
    assert!(cut.element().is_err());
    assert_eq!(cut.element(), Err(NoElementError));

    // test with a value
    const VALUE: u8 = 5;
    let cut = ContainerSpace::from(Some(VALUE));
    assert!(cut.element().is_ok());
    assert_eq!(cut.element().unwrap(), VALUE);
}

#[test]
fn container_is_empty() {
    // test true
    let cut = ContainerSpace::<u8>::from(None);
    assert!(cut.is_empty());

    // test false
    let element = Some(5);
    let cut = ContainerSpace::from(element);
    assert!(!cut.is_empty());
}

#[test]
fn container_has_element() {
    // test truth
    let element = Some(5);
    let cut = ContainerSpace::from(element);
    assert!(cut.has_element());

    // test falsity
    let cut = ContainerSpace::<u8>::from(None);
    assert!(!cut.has_element());
}

#[test]
fn container_set_optional_element() {
    // test with None
    let mut cut = ContainerSpace::new();
    let element = None;
    cut.set_optional_element(element);
    assert_eq!(cut.as_option(), &element);

    // test with 5
    let element = Some(5);
    cut.set_optional_element(element);
    assert_eq!(cut.as_option(), &element);
}

#[test]
fn container_set_element() {
    const ELEMENT: u8 = 5;
    let mut cut = ContainerSpace::new();
    cut.set_element(ELEMENT);
    assert!(cut.as_option().is_some());
    assert_eq!(cut.as_option().unwrap(), ELEMENT);
}

#[test]
fn container_clear() {
    let mut cut = ContainerSpace::<u8>::from(Some(67));
    cut.clear();
    assert_eq!(cut.as_option(), &None);
}

#[test]
fn container_to_string() {
    // test None
    let cut = ContainerSpace::<u8>::from(None);
    assert_eq!(cut.to_string(), String::from("| |"));

    // test 5
    let cut = ContainerSpace::<u8>::from(Some(5));
    assert_eq!(cut.to_string(), String::from("|5|"));
}

#[test]
fn container_from_option() {
    // test None
    let element: Option<u8> = None;
    let cut = ContainerSpace::from(element);
    assert_eq!(cut.as_option(), &element);

    // test 5
    let element = Some(5);
    let cut = ContainerSpace::from(element);
    assert_eq!(cut.as_option(), &element);
}

#[test]
fn round_trip_through_option() {
    for v in [None, Some(0u8), Some(9), Some(255)] {
        assert_eq!(*ContainerSpace::from(v).as_option(), v);
        assert_eq!(*ContainerSpace::from_option(v).as_option(), v);
    }
}

#[test]
fn empty_and_occupied_disagree() {
    for cut in [ContainerSpace::<u8>::new(), ContainerSpace::with_element(3)] {
        assert_ne!(cut.is_empty(), cut.has_element());
    }
}

#[test]
fn set_then_read_back() {
    let mut cut = ContainerSpace::with_element('a');
    cut.set_element('b');
    assert!(cut.has_element());
    assert_eq!(cut.element(), Ok('b'));
}

#[test]
fn clear_then_element_fails() {
    let mut cut = ContainerSpace::with_element(7u8);
    cut.clear();
    assert!(cut.is_empty());
    assert_eq!(cut.element(), Err(NoElementError));
}

#[test]
fn repeated_clear_and_set() {
    let mut cut = ContainerSpace::with_element(4u8);
    cut.clear();
    assert!(cut.is_empty());
    cut.clear();
    assert!(cut.is_empty());
    cut.set_element(8);
    cut.set_element(8);
    assert_eq!(cut.element(), Ok(8));
}

#[test]
fn container_default_is_empty() {
    assert!(ContainerSpace::<u8>::default().is_empty());
}

#[test]
fn both_slot_kinds_render_alike() {
    for v in [None, Some(-3i32), Some(40)] {
        assert_eq!(
            ContainerSpace::from(v).to_string(),
            board_model::space::Space::from(v).to_string()
        );
    }
    assert_eq!(
        ContainerSpace::<u8>::new().to_string(),
        board_model::spaces::EmptySpace::new().to_string()
    );
}
