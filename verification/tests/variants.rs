use cervine::Cow;

#[test]
fn borrowed_is_borrowed_and_not_owned() {
    let borrowed: Cow<String, str> = Cow::Borrowed("borrowed");
    assert!(borrowed.is_borrowed());
    assert!(!borrowed.is_owned());
}

#[test]
fn owned_is_owned_and_not_borrowed() {
    let owned: Cow<String, str> = Cow::Owned("owned".to_string());
    assert!(owned.is_owned());
    assert!(!owned.is_borrowed());
}

#[test]
fn predicates_need_no_capability() {
    struct Opaque;
    let value = Opaque;
    let borrowed: Cow<u8, Opaque> = Cow::Borrowed(&value);
    let owned: Cow<u8, Opaque> = Cow::Owned(1);
    assert!(borrowed.is_borrowed());
    assert!(owned.is_owned());
}

#[test]
fn default_is_owned() {
    let text: Cow<String, str> = Cow::default();
    assert!(text.is_owned());
    assert!(!text.is_borrowed());
    assert_eq!(text.into_owned(), String::new());

    let number: Cow<u32, u32> = Cow::default();
    assert!(number.is_owned());
    assert!(matches!(number, Cow::Owned(0)));
}

#[test]
fn string_scenario() {
    let borrowed: Cow<String, str> = Cow::Borrowed("borrowed");
    assert!(borrowed == *"borrowed");

    let owned: Cow<String, str> = Cow::Owned("owned".into());
    assert!(owned.is_owned());

    let promoted: String = borrowed.into_owned();
    assert_eq!(promoted, "borrowed");
    assert_eq!(promoted, String::from("borrowed"));
}

#[test]
fn same_type_on_both_sides() {
    let data = [true, false];
    let mut cow: Cow<[bool; 2], [bool; 2]> = Cow::Borrowed(&data);
    let shown: &[bool; 2] = cow.as_ref();
    assert_eq!(shown, &[true, false]);
    assert!(cow.is_borrowed());

    cow = Cow::Owned([false, true]);
    let shown: &[bool; 2] = cow.as_ref();
    assert_eq!(shown, &[false, true]);
    assert!(cow.is_owned());
}

#[test]
fn debug_names_the_variant() {
    let borrowed: Cow<String, str> = Cow::Borrowed("b");
    let owned: Cow<String, str> = Cow::Owned("o".to_string());
    assert_eq!(format!("{:?}", borrowed), "Borrowed(\"b\")");
    assert_eq!(format!("{:?}", owned), "Owned(\"o\")");
}
