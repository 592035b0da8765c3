use symbol_info::path_resolver::resolve;

#[test]
fn resolve_no_extension() {
    let r = resolve(&b"/bin/foo".to_vec());
    assert_eq!(r.unwrap(), b"/usr/lib/debug/bin/foo.debug".to_vec());
}

#[test]
fn resolve_with_extension() {
    let r = resolve(&b"/usr/lib/libc.so".to_vec());
    assert_eq!(r.unwrap(), b"/usr/lib/debug/usr/lib/libc.so.debug".to_vec());
}

#[test]
fn resolve_multiple_dots_uses_final_extension() {
    let r = resolve(&b"/opt/pkg/tool-1.2.bin".to_vec());
    assert_eq!(r.unwrap(), b"/usr/lib/debug/opt/pkg/tool-1.2.bin.debug".to_vec());
}

#[test]
fn resolve_hidden_file() {
    let r = resolve(&b"/home/user/.local-tool".to_vec());
    assert_eq!(r.unwrap(), b"/usr/lib/debug/home/user/.local-tool.debug".to_vec());
}

#[test]
fn resolve_relative_path_fails() {
    assert!(resolve(&b"bin/foo".to_vec()).is_none());
}

#[test]
fn resolve_empty_path_fails() {
    assert!(resolve(&b"".to_vec()).is_none());
}

#[test]
fn resolve_strips_exactly_one_separator() {
    // the single leading separator goes; every later one stays
    let r = resolve(&b"/a/b".to_vec());
    assert_eq!(r.unwrap(), b"/usr/lib/debug/a/b.debug".to_vec());
}
