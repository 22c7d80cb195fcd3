use user_directory::validator::{validate_password, validate_phone, validate_username};

#[test]
fn phone_accepts_ten_digits_starting_with_zero() {
    assert!(validate_phone("0791234567"));
    assert!(validate_phone("0784539872"));
    assert!(validate_phone("0000000000"));
}

#[test]
fn phone_rejects_wrong_shapes() {
    assert!(!validate_phone(""));
    assert!(!validate_phone("079123456"));
    assert!(!validate_phone("07912345678"));
    assert!(!validate_phone("1791234567"));
    assert!(!validate_phone("07912345a7"));
    assert!(!validate_phone("+41791234567"));
}

#[test]
fn username_accepts_word_characters_up_to_thirty_two() {
    assert!(validate_username("alice"));
    assert!(validate_username("al_ice_9"));
    assert!(validate_username("A"));
    assert!(validate_username("abcdefghijklmnopqrstuvwxyz012345"));
}

#[test]
fn username_rejects_empty_long_and_symbols() {
    assert!(!validate_username(""));
    assert!(!validate_username("abcdefghijklmnopqrstuvwxyz0123456"));
    assert!(!validate_username("bad-name"));
    assert!(!validate_username("has space"));
    assert!(!validate_username("caf\u{e9}"));
}

#[test]
fn password_accepts_mixed_classes() {
    assert!(validate_password("Strong1!"));
    assert!(validate_password("Test1234."));
    assert!(validate_password("aB3{xxxxx"));
}

#[test]
fn password_rejects_missing_classes_and_bad_lengths() {
    assert!(!validate_password("Short1!"));
    assert!(!validate_password("nouppercase1!"));
    assert!(!validate_password("NOLOWERCASE1!"));
    assert!(!validate_password("NoDigitsHere!"));
    assert!(!validate_password("NoSpecials123"));
    let mut long = String::from("Aa1!");
    for _ in 0..61 {
        long.push('x');
    }
    assert_eq!(long.chars().count(), 65);
    assert!(!validate_password(&long));
}
