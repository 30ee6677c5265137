use std::any::Any;

use board_model::space::Space;

fn is<T: 'static>(obj: &dyn Any) -> bool {
    obj.is::<T>()
}

#[test]
fn space_new() {
    let cut = Space::<u8>::new();
    assert_eq!(cut.element(), &None);
}

#[test]
fn space_with_element() {
    const ELEMENT: char = 'a';
    let cut = Space::with_element(ELEMENT);
    assert!(cut.element().is_some());
    assert!(is::<char>(&cut.element().unwrap()));
    assert_eq!(cut.element().unwrap(), ELEMENT);
}

#[test]
fn space_element() {
    // test with None
    let element = None;
    let cut = Space::<u8>::from(element);
    assert_eq!(cut.element(), &element);

    // test with a value
    let element = Some(5);
    let cut = Space::from(element);
    assert_eq!(cut.element(), &element);
}

#[test]
fn space_is_empty() {
    // test true
    let cut = Space::<u8>::from(None);
    assert!(cut.is_empty());

    // test false
    let element = Some(5);
    let cut = Space::from(element);
    assert!(!cut.is_empty());
}

#[test]
fn space_has_element() {
    // test truth
    let element = Some(5);
    let cut = Space::from(element);
    assert!(cut.has_element());

    // test falsity
    let cut = Space::<u8>::from(None);
    assert!(!cut.has_element());
}

#[test]
fn space_set_optional_element() {
    // test with None
    let mut cut = Space::new();
    let element = None;
    cut.set_optional_element(element);
    assert_eq!(cut.element(), &element);

    // test with 5
    let element = Some(5);
    cut.set_optional_element(element);
    assert_eq!(cut.element(), &element);
}

#[test]
fn space_set_element() {
    const ELEMENT: u8 = 5;
    let mut cut = Space::new();
    cut.set_element(ELEMENT);
    assert!(cut.element().is_some());
    assert_eq!(cut.element().unwrap(), ELEMENT);
}

#[test]
fn space_clear() {
    let mut cut = Space::<u8>::from(Some(67));
    cut.clear();
    assert_eq!(cut.element(), &None);
}

#[test]
fn space_to_string() {
    // test None
    let cut = Space::<u8>::from(None);
    assert_eq!(cut.to_string(), String::from("| |"));

    // test 5
    let cut = Space::<u8>::from(Some(5));
    assert_eq!(cut.to_string(), String::from("|5|"));
}

#[test]
fn space_from_option() {
    // test None
    let element: Option<u8> = None;
    let cut = Space::from(element);
    assert_eq!(cut.element(), &element);

    // test 5
    let element = Some(5);
    let cut = Space::from(element);
    assert_eq!(cut.element(), &element);
}

#[test]
fn space_default_is_empty() {
    let cut = Space::<char>::default();
    assert!(cut.is_empty());
    assert_eq!(cut, Space::new());
}

#[test]
fn space_renders_multi_digit_and_char() {
    assert_eq!(Space::with_element(120u8).to_string(), "|120|");
    assert_eq!(Space::with_element(0u32).to_string(), "|0|");
    assert_eq!(Space::with_element(18446744073709551615u64).to_string(), "|18446744073709551615|");
    assert_eq!(Space::with_element('X').to_string(), "|X|");
}

#[test]
fn space_renders_signed_and_bool() {
    assert_eq!(Space::with_element(-12i32).to_string(), "|-12|");
    assert_eq!(Space::with_element(7i8).to_string(), "|7|");
    assert_eq!(Space::with_element(i64::MIN).to_string(), "|-9223372036854775808|");
    assert_eq!(Space::with_element(-1isize).to_string(), "|-1|");
    assert_eq!(Space::with_element(0i16).to_string(), "|0|");
    assert_eq!(Space::with_element(true).to_string(), "|true|");
    assert_eq!(Space::with_element(false).to_string(), "|false|");
}

#[test]
fn space_constructors_agree_with_from() {
    assert_eq!(Space::with_element('a'), Space::from(Some('a')));
    assert_eq!(Space::<u8>::new(), Space::from(None));
    let mut cut = Space::with_element(3u8);
    cut.set_optional_element(Some(9));
    assert_eq!(cut, Space::from(Some(9)));
}
