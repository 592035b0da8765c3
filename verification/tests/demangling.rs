use symbol_info::demangler::demangle;
use symbol_info::demangler::demangle_or_raw;

#[test]
fn demangle_simple_function() {
    assert_eq!(demangle("_Z3foov").unwrap(), "foo");
}

#[test]
fn demangle_namespaced_function_elides_params() {
    assert_eq!(demangle("_ZN5space3fooEibc").unwrap(), "space::foo");
}

#[test]
fn demangle_plain_name_fails() {
    assert!(demangle("plain_name").is_err());
}

#[test]
fn demangle_or_raw_falls_back_unchanged() {
    assert_eq!(demangle_or_raw("plain_name"), "plain_name");
    assert_eq!(demangle_or_raw("foo"), "foo");
    assert_eq!(demangle_or_raw(""), "");
}

#[test]
fn demangle_or_raw_uses_demangled_form() {
    assert_eq!(demangle_or_raw("_Z3foov"), "foo");
}
