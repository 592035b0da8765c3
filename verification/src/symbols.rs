//! Raw symbols: the entries read from a debug file's native symbol table,
//! and the trusted reading of them through the object-format parser.

use vstd::prelude::*;
use object::Object;
use object::ObjectSymbol;

verus! {

/// The kind tag carried by one symbol-table entry: code, data, or anything
/// else (sections, files, labels, ...), which the pipeline ignores.
#[derive(Clone, Copy, PartialEq, Eq, Structural, Debug)]
pub enum SymbolKind {
    Text,
    Data,
    Other,
}

/// One entry of the debug file's symbol table, reduced to what the pipeline
/// reads: the name (nothing when the underlying record's name could not be
/// decoded), the address, the kind tag, and whether the entry is a
/// definition rather than an undefined reference.
#[derive(Clone, Debug)]
pub struct RawSymbol {
    pub name: Option<String>,
    pub address: u64,
    pub kind: SymbolKind,
    pub defined: bool,
}

/// The mathematical value of one raw symbol.
pub struct RawSymbolV {
    pub name: Option<Seq<char>>,
    pub address: u64,
    pub kind: SymbolKind,
    pub defined: bool,
}

impl View for RawSymbol {
    type V = RawSymbolV;

    open spec fn view(&self) -> RawSymbolV {
        RawSymbolV {
            name: match self.name {
                Some(n) => Some(n@),
                None => None,
            },
            address: self.address,
            kind: self.kind,
            defined: self.defined,
        }
    }
}

/// What parsing a byte image as an object file yields: the symbol-table
/// entries in the container's enumeration order, or nothing when the
/// container format is unrecognized or corrupt.  Parsing reads nothing but
/// the bytes, so the outcome is a function of them alone.
pub uninterp spec fn object_symbols(data: Seq<u8>) -> Option<Seq<RawSymbolV>>;

/// Relies on object::File::parse and the object::read::Object and
/// ObjectSymbol accessors symbols, name, address, kind and is_definition:
/// they parse the byte image and enumerate its symbol table in container
/// order, reading nothing but the bytes, so the outcome is a function of
/// the bytes alone.
#[verifier::external_body]
pub(crate) fn parse_object_symbols(data: &Vec<u8>) -> (r: Option<Vec<RawSymbol>>)
    ensures
        match r {
            Some(v) => object_symbols(data@) == Some(v@.map_values(|s: RawSymbol| s@)),
            None => object_symbols(data@) is None,
        },
{
    let file = match object::File::parse(data.as_slice()) {
        Ok(f) => f,
        Err(_) => return None,
    };
    let syms = file.symbols().map(|sym| RawSymbol {
        name: sym.name().ok().map(|n| n.to_string()),
        address: sym.address(),
        kind: match sym.kind() {
            object::SymbolKind::Text => SymbolKind::Text,
            object::SymbolKind::Data => SymbolKind::Data,
            _ => SymbolKind::Other,
        },
        defined: sym.is_definition(),
    });
    Some(syms.collect())
}

} // verus!
