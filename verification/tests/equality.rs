use std::collections::hash_map::DefaultHasher;
use std::hash::{Hash, Hasher};
use time::{ComponentRangeError, ConversionRangeError, Error, IndeterminateOffsetError, ParseError};

fn base() -> ComponentRangeError {
    ComponentRangeError::new("day", 1, 31, 32, vec![("month", 2), ("year", 2021)])
}

fn hash_of(error: &ComponentRangeError) -> u64 {
    let mut hasher = DefaultHasher::new();
    error.hash(&mut hasher);
    hasher.finish()
}

#[test]
fn component_range_eq_is_reflexive() {
    let a = base();
    assert!(a == a);
    let empty = ComponentRangeError::new("", 0, 0, 0, vec![]);
    assert!(empty == empty);
}

#[test]
fn component_range_eq_is_symmetric() {
    let a = base();
    let b = base();
    let c = ComponentRangeError::new("day", 1, 31, 33, vec![("month", 2), ("year", 2021)]);
    assert!(a == b && b == a);
    assert!(a != c && c != a);
}

#[test]
fn component_range_eq_is_transitive() {
    let a = base();
    let b = base();
    let c = b.clone();
    assert!(a == b);
    assert!(b == c);
    assert!(a == c);
}

#[test]
fn component_range_eq_reads_the_name() {
    let other = ComponentRangeError::new("hour", 1, 31, 32, vec![("month", 2), ("year", 2021)]);
    assert_ne!(base(), other);
    let same_length = ComponentRangeError::new("dax", 1, 31, 32, vec![("month", 2), ("year", 2021)]);
    assert_ne!(base(), same_length);
}

#[test]
fn component_range_eq_reads_the_minimum() {
    let other = ComponentRangeError::new("day", 0, 31, 32, vec![("month", 2), ("year", 2021)]);
    assert_ne!(base(), other);
}

#[test]
fn component_range_eq_reads_the_maximum() {
    let other = ComponentRangeError::new("day", 1, 30, 32, vec![("month", 2), ("year", 2021)]);
    assert_ne!(base(), other);
}

#[test]
fn component_range_eq_reads_the_value() {
    let other = ComponentRangeError::new("day", 1, 31, -32, vec![("month", 2), ("year", 2021)]);
    assert_ne!(base(), other);
}

#[test]
fn component_range_eq_reads_the_given_values() {
    let other_name = ComponentRangeError::new("day", 1, 31, 32, vec![("month", 2), ("era", 2021)]);
    let other_value = ComponentRangeError::new("day", 1, 31, 32, vec![("month", 3), ("year", 2021)]);
    let shorter = ComponentRangeError::new("day", 1, 31, 32, vec![("month", 2)]);
    let longer = ComponentRangeError::new(
        "day",
        1,
        31,
        32,
        vec![("month", 2), ("year", 2021), ("era", 1)],
    );
    let none = ComponentRangeError::new("day", 1, 31, 32, vec![]);
    assert_ne!(base(), other_name);
    assert_ne!(base(), other_value);
    assert_ne!(base(), shorter);
    assert_ne!(base(), longer);
    assert_ne!(base(), none);
}

#[test]
fn component_range_eq_reads_the_order_of_the_given_values() {
    let swapped = ComponentRangeError::new("day", 1, 31, 32, vec![("year", 2021), ("month", 2)]);
    assert_ne!(base(), swapped);
    assert_ne!(swapped, base());
}

#[test]
fn component_range_eq_compares_names_by_their_text() {
    // Two names that are equal as text but are not the same string in memory.
    let first: &'static str = Box::leak(String::from("jour férié").into_boxed_str());
    let second: &'static str = Box::leak(String::from("jour férié").into_boxed_str());
    let other: &'static str = Box::leak(String::from("jour ferié").into_boxed_str());
    assert!(!std::ptr::eq(first.as_ptr(), second.as_ptr()));
    let a = ComponentRangeError::new(first, 1, 2, 3, vec![(first, 4)]);
    let b = ComponentRangeError::new(second, 1, 2, 3, vec![(second, 4)]);
    let c = ComponentRangeError::new(other, 1, 2, 3, vec![(second, 4)]);
    let d = ComponentRangeError::new(first, 1, 2, 3, vec![(other, 4)]);
    assert_eq!(a, b);
    assert_ne!(a, c);
    assert_ne!(a, d);
}

#[test]
fn equal_component_range_errors_hash_alike() {
    assert_eq!(hash_of(&base()), hash_of(&base()));
    assert_eq!(hash_of(&base()), hash_of(&base().clone()));
}

#[test]
fn component_range_clone_is_equal() {
    let original = base();
    let copy = original.clone();
    assert_eq!(copy, original);
    assert_eq!(copy.to_string(), original.to_string());
    let none = ComponentRangeError::new("hour", 0, 23, 24, vec![]);
    assert_eq!(none.clone(), none);
}

#[test]
fn component_range_clone_is_independent() {
    let mut given: Vec<(&'static str, i64)> = vec![("month", 2)];
    let first = ComponentRangeError::new("day", 1, 28, 29, given.clone());
    // The list goes on changing while the next error is made.
    given.push(("year", 2021));
    let second = ComponentRangeError::new("day", 1, 28, 29, given);
    assert_eq!(first.to_string(), "day must be in the range 1..=28 given month=2 (was 29)");
    assert_ne!(first, second);

    let copy = second.clone();
    drop(second);
    assert_eq!(
        copy.to_string(),
        "day must be in the range 1..=28 given month=2, year=2021 (was 29)"
    );
}

#[test]
fn marker_errors_are_always_equal() {
    assert_eq!(ConversionRangeError, ConversionRangeError);
    assert_eq!(IndeterminateOffsetError, IndeterminateOffsetError);
    let conversion = ConversionRangeError;
    let offset = IndeterminateOffsetError;
    assert_eq!(conversion.clone(), conversion);
    assert_eq!(offset.clone(), offset);
    assert!(conversion <= ConversionRangeError && conversion >= ConversionRangeError);
    assert!(offset <= IndeterminateOffsetError && offset >= IndeterminateOffsetError);
}

#[test]
fn parse_error_eq_and_clone() {
    let a = ParseError::new(String::from("invalid month"));
    let b = ParseError::new(String::from("invalid month"));
    let c = ParseError::new(String::from("invalid day"));
    assert_eq!(a, a);
    assert_eq!(a, b);
    assert_eq!(b, a);
    assert_ne!(a, c);
    assert_eq!(a.clone(), a);
}

#[test]
fn unified_eq_tells_variants_apart() {
    let all = [
        Error::ConversionRange,
        Error::from(base()),
        Error::from(ParseError::new(String::from("invalid month"))),
        Error::IndeterminateOffset,
    ];
    for (i, a) in all.iter().enumerate() {
        for (j, b) in all.iter().enumerate() {
            assert_eq!(a == b, i == j);
        }
    }
}

#[test]
fn unified_eq_reads_the_payload() {
    let swapped = ComponentRangeError::new("day", 1, 31, 32, vec![("year", 2021), ("month", 2)]);
    assert_eq!(Error::from(base()), Error::from(base()));
    assert_ne!(Error::from(base()), Error::from(swapped));
    assert_ne!(
        Error::from(ParseError::new(String::from("invalid month"))),
        Error::from(ParseError::new(String::from("invalid day")))
    );
}

#[test]
fn unified_clone_is_equal_and_independent() {
    let all = [
        Error::ConversionRange,
        Error::from(base()),
        Error::from(ParseError::new(String::from("invalid month"))),
        Error::IndeterminateOffset,
    ];
    for original in all {
        let copy = original.clone();
        assert_eq!(copy, original);
        let text = original.to_string();
        drop(original);
        assert_eq!(copy.to_string(), text);
    }
}
