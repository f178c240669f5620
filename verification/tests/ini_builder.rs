//! The INI configuration builder.

use php_ext_bridge::Error;
use php_ext_bridge::ini::IniBuilder;

#[test]
fn untouched_builder_finishes_to_nothing() {
    let builder = IniBuilder::new();
    assert_eq!(builder.finish(), None);
}

#[test]
fn single_define_returns_exactly_that_line() {
    let mut builder = IniBuilder::new();
    builder.define(b"memory_limit=128M").unwrap();
    assert_eq!(builder.finish(), Some(b"memory_limit=128M\n".to_vec()));
}

#[test]
fn unquoted_appends_name_equals_value() {
    let mut builder = IniBuilder::new();
    builder.unquoted(b"foo", b"bar").unwrap();
    assert_eq!(builder.finish(), Some(b"foo=bar\n".to_vec()));
}

#[test]
fn quoted_appends_name_equals_quoted_value() {
    let mut builder = IniBuilder::new();
    builder.quoted(b"foo", b"bar").unwrap();
    assert_eq!(builder.finish(), Some(b"foo=\"bar\"\n".to_vec()));
}

#[test]
fn prepend_places_text_in_front() {
    let mut builder = IniBuilder::new();
    builder.unquoted(b"a", b"1").unwrap();
    builder.prepend(b"; generated\n").unwrap();
    assert_eq!(builder.finish(), Some(b"; generated\na=1\n".to_vec()));
}

#[test]
fn operations_accumulate_in_order() {
    let mut builder = IniBuilder::new();
    builder.define(b"x=1").unwrap();
    builder.quoted(b"name", b"v a l").unwrap();
    builder.unquoted(b"y", b"2").unwrap();
    assert_eq!(
        builder.finish(),
        Some(b"x=1\nname=\"v a l\"\ny=2\n".to_vec())
    );
}

#[test]
fn empty_prepend_still_counts_as_written() {
    let mut builder = IniBuilder::new();
    builder.prepend(b"").unwrap();
    assert_eq!(builder.finish(), Some(Vec::new()));
}

#[test]
fn define_with_terminator_fails_and_leaves_builder_unchanged() {
    let mut builder = IniBuilder::new();
    builder.define(b"kept=1").unwrap();
    let r = builder.define(b"bad\0directive");
    assert_eq!(r.unwrap_err(), Error::StringConversionFailure);
    assert_eq!(builder.finish(), Some(b"kept=1\n".to_vec()));
}

#[test]
fn unquoted_with_terminator_in_name_fails() {
    let mut builder = IniBuilder::new();
    let r = builder.unquoted(b"na\0me", b"value");
    assert_eq!(r.unwrap_err(), Error::StringConversionFailure);
    assert_eq!(builder.finish(), None);
}

#[test]
fn quoted_with_terminator_in_value_fails() {
    let mut builder = IniBuilder::new();
    let r = builder.quoted(b"name", b"val\0ue");
    assert_eq!(r.unwrap_err(), Error::StringConversionFailure);
    assert_eq!(builder.finish(), None);
}

#[test]
fn prepend_with_terminator_fails_and_mutates_nothing() {
    let mut builder = IniBuilder::new();
    let r = builder.prepend(b"\0");
    assert_eq!(r.unwrap_err(), Error::StringConversionFailure);
    assert_eq!(builder.finish(), None);
}
