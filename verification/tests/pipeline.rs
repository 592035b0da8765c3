use symbol_info::descriptors::DataType;
use symbol_info::descriptors::DebugFunctionInfoBuilder;
use symbol_info::descriptors::DebugInfo;
use symbol_info::parser::add_data;
use symbol_info::parser::add_function;
use symbol_info::parser::get_symbols;
use symbol_info::parser::parse_info;
use symbol_info::parser::ParseError;
use symbol_info::parser::ReadOutcome;
use symbol_info::symbols::RawSymbol;
use symbol_info::symbols::SymbolKind;

use object::write::Object;
use object::write::StandardSection;
use object::write::Symbol;
use object::write::SymbolSection;
use object::Architecture;
use object::BinaryFormat;
use object::Endianness;
use object::SymbolFlags;
use object::SymbolScope;

/// Build a little-endian x86-64 ELF relocatable object holding the given
/// symbols: (name bytes, address, kind, defined).
fn build_elf(syms: &[(&[u8], u64, object::SymbolKind, bool)]) -> Vec<u8> {
    let mut obj = Object::new(BinaryFormat::Elf, Architecture::X86_64, Endianness::Little);
    let text = obj.section_id(StandardSection::Text);
    for (name, value, kind, defined) in syms {
        let section = if *defined {
            SymbolSection::Section(text)
        } else {
            SymbolSection::Undefined
        };
        obj.add_symbol(Symbol {
            name: name.to_vec(),
            value: *value,
            size: 0,
            kind: *kind,
            scope: SymbolScope::Linkage,
            weak: false,
            section,
            flags: SymbolFlags::None,
        });
    }
    obj.write().expect("building the test object failed")
}

#[test]
fn builder_starts_empty() {
    let descriptor = DebugFunctionInfoBuilder::new().build();
    assert!(descriptor.short_name.is_none());
    assert!(descriptor.full_name.is_none());
    assert!(descriptor.raw_name.is_none());
    assert!(descriptor.return_type.is_none());
    assert!(descriptor.address.is_none());
}

#[test]
fn builder_accumulates_fields() {
    let descriptor = DebugFunctionInfoBuilder::new()
        .short_name(String::from("f"))
        .full_name(String::from("foo"))
        .raw_name(String::from("_Z3foov"))
        .address(0x1000)
        .build();
    assert_eq!(descriptor.short_name.as_deref(), Some("f"));
    assert_eq!(descriptor.full_name.as_deref(), Some("foo"));
    assert_eq!(descriptor.raw_name.as_deref(), Some("_Z3foov"));
    assert!(descriptor.return_type.is_none());
    assert_eq!(descriptor.address, Some(0x1000));
}

#[test]
fn add_function_round_trip() {
    let mut registry = DebugInfo::new();
    let symbol = RawSymbol {
        name: Some(String::from("_Z3foov")),
        address: 0x1000,
        kind: SymbolKind::Text,
        defined: true,
    };
    assert!(add_function(&mut registry, &symbol).is_ok());
    assert_eq!(registry.functions.len(), 1);
    let f = &registry.functions[0];
    assert_eq!(f.raw_name.as_deref(), Some("_Z3foov"));
    assert_eq!(f.full_name.as_deref(), Some("foo"));
    assert_eq!(f.address, Some(0x1000));
    assert!(f.short_name.is_none());
    assert!(registry.data_variables.is_empty());
}

#[test]
fn add_function_unreadable_name_fails() {
    let mut registry = DebugInfo::new();
    let symbol = RawSymbol { name: None, address: 0x1000, kind: SymbolKind::Text, defined: true };
    assert_eq!(add_function(&mut registry, &symbol), Err(ParseError::SymbolReadError));
    assert!(registry.functions.is_empty());
}

#[test]
fn add_data_uses_void_placeholder() {
    let mut registry = DebugInfo::new();
    let symbol = RawSymbol {
        name: Some(String::from("counter")),
        address: 0x2000,
        kind: SymbolKind::Data,
        defined: true,
    };
    assert!(add_data(&mut registry, &symbol).is_ok());
    assert_eq!(registry.data_variables.len(), 1);
    let d = &registry.data_variables[0];
    assert_eq!(d.address, 0x2000);
    assert_eq!(d.ty, DataType::Void);
    assert_eq!(d.name.as_deref(), Some("counter"));
    assert!(registry.functions.is_empty());
}

#[test]
fn elf_round_trip_registers_demangled_function() {
    let data = build_elf(&[(b"_Z3foov", 0x1000, object::SymbolKind::Text, true)]);
    let mut registry = DebugInfo::new();
    assert!(get_symbols(&mut registry, &data).is_ok());
    assert_eq!(registry.functions.len(), 1);
    let f = &registry.functions[0];
    assert_eq!(f.raw_name.as_deref(), Some("_Z3foov"));
    assert_eq!(f.full_name.as_deref(), Some("foo"));
    assert_eq!(f.address, Some(0x1000));
    assert!(registry.data_variables.is_empty());
}

#[test]
fn classification_routes_each_symbol_once() {
    let data = build_elf(&[
        (b"_Z3foov", 0x1000, object::SymbolKind::Text, true),
        (b"counter", 0x2000, object::SymbolKind::Data, true),
        (b"external_ref", 0, object::SymbolKind::Text, false),
    ]);
    let mut registry = DebugInfo::new();
    assert!(get_symbols(&mut registry, &data).is_ok());
    assert_eq!(registry.functions.len(), 1);
    assert_eq!(registry.data_variables.len(), 1);
    assert_eq!(registry.functions[0].raw_name.as_deref(), Some("_Z3foov"));
    assert_eq!(registry.data_variables[0].name.as_deref(), Some("counter"));
}

#[test]
fn failure_isolation_keeps_earlier_registrations() {
    let data = build_elf(&[
        (b"_Z3foov", 0x1000, object::SymbolKind::Text, true),
        (b"\xff\xfe", 0x2000, object::SymbolKind::Data, true),
        (b"after_the_failure", 0x3000, object::SymbolKind::Text, true),
    ]);
    let mut registry = DebugInfo::new();
    assert_eq!(get_symbols(&mut registry, &data), Err(ParseError::SymbolReadError));
    // what was registered before the undecodable name stays registered
    assert_eq!(registry.functions.len(), 1);
    assert_eq!(registry.functions[0].raw_name.as_deref(), Some("_Z3foov"));
    assert!(registry.data_variables.is_empty());
}

#[test]
fn format_error_on_unrecognized_container() {
    let mut registry = DebugInfo::new();
    let garbage = vec![0u8, 1, 2, 3, 4, 5, 6, 7];
    assert_eq!(get_symbols(&mut registry, &garbage), Err(ParseError::FormatError));
    assert!(registry.functions.is_empty());
    assert!(registry.data_variables.is_empty());
}

#[test]
fn parse_info_reports_missing_debug_file() {
    let mut registry = DebugInfo::new();
    assert_eq!(parse_info(&mut registry, ReadOutcome::Missing), Err(ParseError::FileNotFound));
    assert!(registry.functions.is_empty());
    assert!(registry.data_variables.is_empty());
}

#[test]
fn parse_info_reports_unresolvable_path() {
    let mut registry = DebugInfo::new();
    assert_eq!(
        parse_info(&mut registry, ReadOutcome::NoPath),
        Err(ParseError::PathResolutionFailure)
    );
}

#[test]
fn parse_info_reports_open_failure() {
    let mut registry = DebugInfo::new();
    assert_eq!(parse_info(&mut registry, ReadOutcome::OpenFailed), Err(ParseError::IoError));
}

#[test]
fn parse_info_loads_mapped_bytes() {
    let data = build_elf(&[(b"_ZN5space3fooEibc", 0x40, object::SymbolKind::Text, true)]);
    let mut registry = DebugInfo::new();
    assert!(parse_info(&mut registry, ReadOutcome::Mapped(data)).is_ok());
    assert_eq!(registry.functions.len(), 1);
    assert_eq!(registry.functions[0].full_name.as_deref(), Some("space::foo"));
}
