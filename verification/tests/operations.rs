//! The construction, inspection, transformation and conversion operations.

use fallible_option::Fallible;
use fallible_option::Fallible::{Fail, Success};

#[test]
fn result_maps_fail_to_err_and_success_to_ok() {
    assert_eq!(Fail("error").result(), Err("error"));
    assert_eq!(Success::<&str>.result(), Ok(()));
}

#[test]
fn err_or_supplies_the_success_payload() {
    assert_eq!(Fail("some error").err_or(10u32), Err("some error"));
    assert_eq!(Success::<&str>.err_or(10u32), Ok(10));
}

#[test]
fn result_round_trips_through_fallible() {
    assert_eq!(Fallible::<u8>::from(Ok::<(), u8>(())).result(), Ok(()));
    assert_eq!(Fallible::<u8>::from(Err::<(), u8>(5)).result(), Err(5));
}

#[test]
fn take_is_destructive_once_from_fail() {
    let mut x = Fail("something went wrong");
    let first = x.take();
    assert_eq!(first, Some("something went wrong"));
    let second = x.take();
    assert_eq!(second, None);
    assert!(x.is_successful());
}

#[test]
fn take_is_destructive_once_from_success() {
    let mut x: Fallible<&str> = Success;
    let first = x.take();
    assert_eq!(first, None);
    let second = x.take();
    assert_eq!(second, None);
    assert!(x.is_successful());
}

#[test]
fn flatten_collapses_one_level() {
    assert_eq!(Fail(Fail(5u8)).flatten(), Fail(5u8));
    assert_eq!(Fail(Success::<u8>).flatten(), Success);
    assert_eq!(Success::<Fallible<u8>>.flatten(), Success);
}

#[test]
fn map_with_identity_is_identity() {
    let fail: Fallible<u8> = Fail(3);
    assert_eq!(fail.map(|e| e), Fail(3));
    let success: Fallible<u8> = Success;
    assert_eq!(success.map(|e| e), Success);
}

#[test]
fn map_applies_the_function_to_the_error() {
    let fail = Fail("hello");
    assert_eq!(fail.map(|e| format!("{e} world!")), Fail("hello world!".to_owned()));
}

#[test]
fn contains_compares_against_the_error() {
    assert!(Fail("a").contains(&"a"));
    assert!(!Fail("a").contains(&"b"));
    assert!(!Success::<&str>.contains(&"a"));
}

#[test]
fn is_successful_and_is_fail_are_exclusive_and_exhaustive() {
    assert!(!Fail("some error").is_successful());
    assert!(Fail("some error").is_fail());
    assert!(Success::<&str>.is_successful());
    assert!(!Success::<&str>.is_fail());
}

#[test]
fn unwrap_fail_yields_the_error() {
    assert_eq!(Fail(70u8).unwrap_fail(), 70);
}

#[test]
fn unwrap_passes_on_success() {
    let success: Fallible<()> = Success;
    success.unwrap();
}

#[test]
fn err_borrows_the_error() {
    let fail = Fail("error occurred");
    assert_eq!(fail.err(), Some(&"error occurred"));
    assert_eq!(Success::<&str>.err(), None);
}

#[test]
fn as_ref_borrows_in_place() {
    let fail = Fail("uh oh!");
    assert_eq!(fail.as_ref().map(|e| e.len()), Fail(6));
    assert_eq!(Success::<&str>.as_ref(), Success);
}

#[test]
fn as_mut_writes_through_to_the_original() {
    let mut fail = Fail("uh oh!".to_owned());
    match fail.as_mut() {
        Fail(e) => e.make_ascii_uppercase(),
        Success => {}
    }
    assert_eq!(fail, Fail("UH OH!".to_owned()));
}

#[test]
fn as_deref_borrows_through_the_error() {
    let fail: Fallible<String> = Fail("something went wrong".to_owned());
    assert_eq!(fail.as_deref(), Fail("something went wrong"));
    assert_eq!(Success::<String>.as_deref(), Success);
}

#[test]
fn as_deref_mut_writes_through_to_the_original() {
    let mut fail = Fail("uh oh!".to_owned());
    match fail.as_deref_mut() {
        Fail(e) => e.make_ascii_uppercase(),
        Success => {}
    }
    assert_eq!(fail, Fail("UH OH!".to_owned()));
}

#[test]
fn cloned_materializes_a_borrowed_error() {
    let owned = Fail("oops".to_owned());
    let cloned: Fallible<String> = owned.as_ref().cloned();
    assert_eq!(cloned, owned);
    assert_eq!(Success::<String>.as_ref().cloned(), Success);
}

#[test]
fn copied_materializes_a_borrowed_error() {
    let fail = Fail(7u8);
    let copied: Fallible<u8> = fail.as_ref().copied();
    assert_eq!(copied, Fail(7));
    assert_eq!(Success::<u8>.as_ref().copied(), Success);
}

#[test]
fn cloned_materializes_a_mutably_borrowed_error() {
    let mut owned = Fail("oops".to_owned());
    let cloned: Fallible<String> = owned.as_mut().cloned();
    assert_eq!(cloned, Fail("oops".to_owned()));
    assert_eq!(owned, Fail("oops".to_owned()));
}

#[test]
fn copied_materializes_a_mutably_borrowed_error() {
    let mut fail = Fail(7u8);
    let copied: Fallible<u8> = fail.as_mut().copied();
    assert_eq!(copied, Fail(7));
    assert_eq!(fail, Fail(7));
}

#[test]
fn from_a_bare_error_yields_fail() {
    assert_eq!(Fallible::from(5u8), Fail(5));
}

#[test]
fn from_a_reference_borrows_in_place() {
    let fail = Fail(5u8);
    assert_eq!(Fallible::from(&fail), Fail(&5u8));
    let success: Fallible<u8> = Success;
    assert_eq!(Fallible::from(&success), Success::<&u8>);
}

#[test]
fn default_is_success() {
    assert_eq!(Fallible::<u8>::default(), Success);
}

#[test]
fn clone_preserves_the_value() {
    let fail = Fail("error".to_owned());
    assert_eq!(fail.clone(), fail);
    let success: Fallible<String> = Success;
    assert_eq!(success.clone(), success);
}
