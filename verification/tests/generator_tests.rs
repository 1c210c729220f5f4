use password_generator::EmptyCharsetError;
use password_generator::PasswordGenerator;
use password_generator::PasswordGeneratorBuilder;

fn expected_lowercase() -> Vec<char> {
    (b'a'..b'z').map(|c| c as char).collect()
}

fn expected_uppercase() -> Vec<char> {
    (b'A'..b'Z').map(|c| c as char).collect()
}

fn expected_digits() -> Vec<char> {
    (b'0'..b'9').map(|c| c as char).collect()
}

fn expected_special() -> Vec<char> {
    vec![
        '!', '@', '#', '$', '%', '^', '&', '*', '(', ')', '-', '+', '=', '{', '}', '[', ']', '\\',
    ]
}

fn full_generator() -> PasswordGenerator {
    PasswordGeneratorBuilder::new()
        .with_lowercase(true)
        .with_uppercase(true)
        .with_numbers(true)
        .with_special(true)
        .build()
}

#[test]
fn lowercase_category_excludes_final_letter() {
    let charset = PasswordGeneratorBuilder::new().with_lowercase(true).create_charset();
    assert_eq!(charset, expected_lowercase());
    assert_eq!(charset.len(), 25);
    assert!(!charset.contains(&'z'));
}

#[test]
fn uppercase_category_excludes_final_letter() {
    let charset = PasswordGeneratorBuilder::new().with_uppercase(true).create_charset();
    assert_eq!(charset, expected_uppercase());
    assert_eq!(charset.len(), 25);
    assert!(!charset.contains(&'Z'));
}

#[test]
fn digit_category_excludes_final_digit() {
    let charset = PasswordGeneratorBuilder::new().with_numbers(true).create_charset();
    assert_eq!(charset, expected_digits());
    assert_eq!(charset.len(), 9);
    assert!(!charset.contains(&'9'));
}

#[test]
fn special_category_is_the_fixed_symbol_list() {
    let charset = PasswordGeneratorBuilder::new().with_special(true).create_charset();
    assert_eq!(charset, expected_special());
    assert_eq!(charset.len(), 18);
}

#[test]
fn new_builder_has_every_category_disabled() {
    let charset = PasswordGeneratorBuilder::new().create_charset();
    assert!(charset.is_empty());
}

#[test]
fn generated_password_has_requested_length_and_allowed_characters() {
    let generator = full_generator();
    let allowed = generator.charset().clone();
    for length in [0usize, 1, 2, 16, 100] {
        let password = generator.generate_password(length).unwrap();
        assert_eq!(password.chars().count(), length);
        for c in password.chars() {
            assert!(allowed.contains(&c));
        }
    }
}

#[test]
fn empty_charset_fails_at_nonzero_length() {
    let generator = PasswordGeneratorBuilder::new().build();
    assert_eq!(generator.generate_password(1), Err(EmptyCharsetError));
    assert_eq!(generator.generate_password(16), Err(EmptyCharsetError));
}

#[test]
fn empty_charset_yields_empty_string_at_length_zero() {
    let generator = PasswordGeneratorBuilder::new().build();
    assert_eq!(generator.generate_password(0), Ok(String::new()));
}

#[test]
fn equal_configurations_yield_equal_charsets() {
    let first = PasswordGeneratorBuilder::new()
        .with_lowercase(true)
        .with_numbers(true)
        .create_charset();
    let second = PasswordGeneratorBuilder::new()
        .with_lowercase(true)
        .with_numbers(true)
        .create_charset();
    assert_eq!(first, second);
}

#[test]
fn repeated_generation_yields_different_strings() {
    let generator = full_generator();
    let first = generator.generate_password(32).unwrap();
    let second = generator.generate_password(32).unwrap();
    assert_ne!(first, second);
}

#[test]
fn digits_only_generator_emits_digits_only() {
    let generator = PasswordGeneratorBuilder::new().with_numbers(true).build();
    for _ in 0..200 {
        let password = generator.generate_password(8).unwrap();
        for c in password.chars() {
            assert!(('0'..='8').contains(&c));
            assert!(!c.is_alphabetic());
        }
    }
}

#[test]
fn full_charset_concatenates_categories_in_fixed_order() {
    let generator = full_generator();
    let charset = generator.charset();
    assert_eq!(charset.len(), 77);
    assert_eq!(&charset[0..25], expected_lowercase().as_slice());
    assert_eq!(&charset[25..50], expected_uppercase().as_slice());
    assert_eq!(&charset[50..59], expected_digits().as_slice());
    assert_eq!(&charset[59..77], expected_special().as_slice());
}

#[test]
fn lowercase_only_scenario_holds_over_a_thousand_calls() {
    let generator = PasswordGeneratorBuilder::new().with_lowercase(true).build();
    for _ in 0..1000 {
        let password = generator.generate_password(5).unwrap();
        assert_eq!(password.chars().count(), 5);
        for c in password.chars() {
            assert!(('a'..='y').contains(&c));
        }
    }
}

#[test]
fn all_disabled_scenario_fails_with_named_error() {
    let generator = PasswordGeneratorBuilder::new()
        .with_lowercase(false)
        .with_uppercase(false)
        .with_numbers(false)
        .with_special(false)
        .build();
    assert_eq!(generator.generate_password(16), Err(EmptyCharsetError));
}
