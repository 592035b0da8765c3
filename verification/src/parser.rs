//! The symbol extractor and parser orchestrator: parse a debug file's byte
//! image, walk its symbol table in container order, route every defined
//! symbol to the function path, the data path, or nowhere, and register the
//! built descriptors.  Registration is non-transactional: descriptors
//! registered before a failing symbol stay registered.

use vstd::prelude::*;
use crate::demangler::demangle_or_raw;
use crate::demangler::fallback_name;
use crate::descriptors::DataDescriptorV;
use crate::descriptors::DataType;
use crate::descriptors::DebugFunctionInfoBuilder;
use crate::descriptors::DebugInfo;
use crate::descriptors::DebugInfoV;
use crate::descriptors::FunctionDescriptorV;
use crate::symbols::object_symbols;
use crate::symbols::parse_object_symbols;
use crate::symbols::RawSymbol;
use crate::symbols::RawSymbolV;
use crate::symbols::SymbolKind;

verus! {

/// Why a parse failed.  Demangling failure is no member: it is recovered
/// locally by falling back to the raw name and never propagates.
#[derive(Clone, Copy, PartialEq, Eq, Structural, Debug)]
pub enum ParseError {
    /// Canonicalization or root-stripping of the binary path failed: treated
    /// as "no debug info available".
    PathResolutionFailure,
    /// The resolved debug path does not exist on disk.
    FileNotFound,
    /// Opening or mapping an existing debug file failed.
    IoError,
    /// The container format of the debug file is unrecognized or corrupt.
    FormatError,
    /// A symbol-table entry's name could not be decoded.
    SymbolReadError,
}

/// What reading the resolved debug file produced, handed in by the caller
/// who performs the filesystem work: no resolvable path at all, a path that
/// does not exist, a file that would not open or map, or the mapped bytes.
pub enum ReadOutcome {
    NoPath,
    Missing,
    OpenFailed,
    Mapped(Vec<u8>),
}

/// A defined code symbol with a readable name: routed to the function path.
pub open spec fn routed_function(s: RawSymbolV) -> bool {
    s.defined && s.kind == SymbolKind::Text && s.name is Some
}

/// A defined data symbol with a readable name: routed to the data path.
pub open spec fn routed_data(s: RawSymbolV) -> bool {
    s.defined && s.kind == SymbolKind::Data && s.name is Some
}

/// A defined code or data symbol whose name could not be decoded: it fails
/// the whole parse.
pub open spec fn unreadable(s: RawSymbolV) -> bool {
    s.defined && (s.kind == SymbolKind::Text || s.kind == SymbolKind::Data) && s.name is None
}

/// A symbol the pipeline skips: an undefined reference, or any kind other
/// than code and data.
pub open spec fn ignored(s: RawSymbolV) -> bool {
    !s.defined || s.kind == SymbolKind::Other
}

/// The function descriptor built for one routed code symbol: raw name as in
/// the table, full name demangled with fallback to the raw name, the
/// symbol's address; everything else left unset.
pub open spec fn function_descriptor_of(s: RawSymbolV) -> FunctionDescriptorV
    recommends
        s.name is Some,
{
    FunctionDescriptorV {
        short_name: None,
        full_name: Some(fallback_name(s.name->Some_0)),
        raw_name: Some(s.name->Some_0),
        return_type: None,
        address: Some(s.address),
    }
}

/// The data descriptor built for one routed data symbol: the symbol's
/// address, the untyped void placeholder, and the demangled-or-raw name.
pub open spec fn data_descriptor_of(s: RawSymbolV) -> DataDescriptorV
    recommends
        s.name is Some,
{
    DataDescriptorV {
        address: s.address,
        ty: DataType::Void,
        name: Some(fallback_name(s.name->Some_0)),
    }
}

/// The function descriptors registered for a run of symbols, in table order.
pub open spec fn functions_registered(syms: Seq<RawSymbolV>) -> Seq<FunctionDescriptorV>
    decreases syms.len(),
{
    if syms.len() == 0 {
        Seq::empty()
    } else if routed_function(syms.last()) {
        functions_registered(syms.drop_last()).push(function_descriptor_of(syms.last()))
    } else {
        functions_registered(syms.drop_last())
    }
}

/// The data descriptors registered for a run of symbols, in table order.
pub open spec fn data_registered(syms: Seq<RawSymbolV>) -> Seq<DataDescriptorV>
    decreases syms.len(),
{
    if syms.len() == 0 {
        Seq::empty()
    } else if routed_data(syms.last()) {
        data_registered(syms.drop_last()).push(data_descriptor_of(syms.last()))
    } else {
        data_registered(syms.drop_last())
    }
}

/// How many symbols are processed before the parse stops: all of them, or
/// exactly those before the first one with an undecodable name.
pub open spec fn good_len(syms: Seq<RawSymbolV>) -> int
    decreases syms.len(),
{
    if syms.len() == 0 {
        0
    } else if unreadable(syms.first()) {
        0
    } else {
        1 + good_len(syms.skip(1))
    }
}

proof fn lemma_good_len_at(syms: Seq<RawSymbolV>, i: int)
    requires
        0 <= i <= syms.len(),
        forall|j: int| 0 <= j < i ==> !unreadable(syms[j]),
        i == syms.len() || unreadable(syms[i]),
    ensures
        good_len(syms) == i,
    decreases syms.len(),
{
    if i == 0 {
        if syms.len() > 0 {
            assert(unreadable(syms.first()));
        }
    } else {
        assert(!unreadable(syms[0]));
        let rest = syms.skip(1);
        assert forall|j: int| 0 <= j < i - 1 implies !unreadable(rest[j]) by {
            assert(rest[j] == syms[j + 1]);
        }
        if i < syms.len() {
            assert(rest[i - 1] == syms[i]);
        }
        lemma_good_len_at(rest, i - 1);
    }
}

/// The processed run of symbols stops exactly at the first unreadable one:
/// every symbol before `good_len` is readable, and when the parse stops
/// before the table's end, the symbol it stopped at is unreadable.
pub proof fn lemma_good_len_bounds(syms: Seq<RawSymbolV>)
    ensures
        0 <= good_len(syms) <= syms.len(),
        forall|j: int| 0 <= j < good_len(syms) ==> !unreadable(syms[j]),
        good_len(syms) < syms.len() ==> unreadable(syms[good_len(syms)]),
    decreases syms.len(),
{
    if syms.len() > 0 && !unreadable(syms.first()) {
        let rest = syms.skip(1);
        lemma_good_len_bounds(rest);
        assert forall|j: int| 0 <= j < good_len(syms) implies !unreadable(syms[j]) by {
            if j > 0 {
                assert(syms[j] == rest[j - 1]);
            }
        }
        if good_len(syms) < syms.len() {
            assert(syms[good_len(syms)] == rest[good_len(rest)]);
        }
    }
}

/// What loading symbols from a byte image does to the registry: nothing on a
/// container-format failure; otherwise the descriptors of every symbol
/// before the first unreadable one are appended in table order, and the
/// parse succeeds exactly when no symbol is unreadable.
pub open spec fn symbols_loaded(
    pre: DebugInfoV,
    post: DebugInfoV,
    data: Seq<u8>,
    r: Result<(), ParseError>,
) -> bool {
    match object_symbols(data) {
        None => post == pre && r == Err::<(), ParseError>(ParseError::FormatError),
        Some(syms) => {
            let k = good_len(syms);
            &&& post.functions == pre.functions + functions_registered(syms.take(k))
            &&& post.data_variables == pre.data_variables + data_registered(syms.take(k))
            &&& (r is Ok <==> k == syms.len())
            &&& (r is Err ==> r == Err::<(), ParseError>(ParseError::SymbolReadError))
        },
    }
}

/// Build and register the function descriptor for one symbol: raw name as
/// read, full name demangled with fallback, the symbol's address.  Fails,
/// registering nothing, exactly when the name could not be decoded.
pub fn add_function(debug_info: &mut DebugInfo, symbol: &RawSymbol) -> (r: Result<(), ParseError>)
    ensures
        symbol@.name is Some ==> r is Ok && final(debug_info)@.functions == old(debug_info)@.functions.push(function_descriptor_of(symbol@)) && final(debug_info)@.data_variables
            == old(debug_info)@.data_variables,
        symbol@.name is None ==> r == Err::<(), ParseError>(ParseError::SymbolReadError) && final(debug_info)@ == old(debug_info)@,
{
    let name = match &symbol.name {
        Some(n) => n,
        None => {
            return Err(ParseError::SymbolReadError);
        },
    };
    let demangled = demangle_or_raw(name.as_str());
    let function = DebugFunctionInfoBuilder::new().raw_name(name.clone()).full_name(
        demangled,
    ).address(symbol.address).build();
    proof {
        assert(function@ == function_descriptor_of(symbol@));
    }
    debug_info.add_function(function);
    Ok(())
}

/// Register one data variable for one symbol: the symbol's address, the
/// untyped void placeholder, and the demangled-or-raw name.  Fails,
/// registering nothing, exactly when the name could not be decoded.
pub fn add_data(debug_info: &mut DebugInfo, symbol: &RawSymbol) -> (r: Result<(), ParseError>)
    ensures
        symbol@.name is Some ==> r is Ok && final(debug_info)@.data_variables == old(debug_info)@.data_variables.push(data_descriptor_of(symbol@)) && final(debug_info)@.functions == old(debug_info)@.functions,
        symbol@.name is None ==> r == Err::<(), ParseError>(ParseError::SymbolReadError) && final(debug_info)@ == old(debug_info)@,
{
    let name = match &symbol.name {
        Some(n) => n,
        None => {
            return Err(ParseError::SymbolReadError);
        },
    };
    let demangled = demangle_or_raw(name.as_str());
    debug_info.add_data_variable(symbol.address, DataType::Void, Some(demangled));
    Ok(())
}

/// Parse a byte image as an object file and register descriptors for its
/// defined code and data symbols, in the order the symbol table enumerates
/// them.  Stops at the first symbol whose name cannot be decoded, keeping
/// everything registered before it.
pub fn get_symbols(debug_info: &mut DebugInfo, data: &Vec<u8>) -> (r: Result<(), ParseError>)
    ensures
        symbols_loaded(old(debug_info)@, final(debug_info)@, data@, r),
{
    let symbols = match parse_object_symbols(data) {
        Some(v) => v,
        None => {
            return Err(ParseError::FormatError);
        },
    };
    let ghost syms = symbols@.map_values(|s: RawSymbol| s@);
    let ghost pre = debug_info@;
    let mut i: usize = 0;
    while i < symbols.len()
        invariant
            0 <= i <= symbols@.len(),
            syms == symbols@.map_values(|s: RawSymbol| s@),
            syms.len() == symbols@.len(),
            object_symbols(data@) == Some(syms),
            pre == old(debug_info)@,
            forall|j: int| 0 <= j < i ==> !unreadable(syms[j]),
            debug_info@.functions == pre.functions + functions_registered(syms.take(i as int)),
            debug_info@.data_variables == pre.data_variables + data_registered(
                syms.take(i as int),
            ),
        decreases symbols@.len() - i,
    {
        let symbol = &symbols[i];
        proof {
            assert(syms[i as int] == symbols@[i as int]@);
            assert(syms.take(i + 1).drop_last() =~= syms.take(i as int));
            assert(syms.take(i + 1).last() == syms[i as int]);
        }
        if symbol.defined {
            match symbol.kind {
                SymbolKind::Text => {
                    match add_function(debug_info, symbol) {
                        Ok(_) => {
                            proof {
                                assert((pre.functions + functions_registered(
                                    syms.take(i as int),
                                )).push(function_descriptor_of(syms[i as int])) =~= pre.functions
                                    + functions_registered(syms.take(i as int)).push(
                                    function_descriptor_of(syms[i as int]),
                                ));
                            }
                        },
                        Err(e) => {
                            proof {
                                lemma_good_len_at(syms, i as int);
                            }
                            return Err(e);
                        },
                    }
                },
                SymbolKind::Data => {
                    match add_data(debug_info, symbol) {
                        Ok(_) => {
                            proof {
                                assert((pre.data_variables + data_registered(
                                    syms.take(i as int),
                                )).push(data_descriptor_of(syms[i as int])) =~= pre.data_variables
                                    + data_registered(syms.take(i as int)).push(
                                    data_descriptor_of(syms[i as int]),
                                ));
                            }
                        },
                        Err(e) => {
                            proof {
                                lemma_good_len_at(syms, i as int);
                            }
                            return Err(e);
                        },
                    }
                },
                SymbolKind::Other => {},
            }
        }
        i += 1;
    }
    proof {
        assert(syms.take(syms.len() as int) =~= syms);
        lemma_good_len_at(syms, syms.len() as int);
    }
    Ok(())
}

/// The parse operation as the host drives it: map the outcome of resolving
/// and reading the debug file to its error, or load symbols from the mapped
/// bytes.  Every failure leaves the registry exactly as it was, except a
/// symbol-read failure, which keeps what was registered before it.
pub fn parse_info(debug_info: &mut DebugInfo, outcome: ReadOutcome) -> (r: Result<
    (),
    ParseError,
>)
    ensures
        outcome is NoPath ==> r == Err::<(), ParseError>(ParseError::PathResolutionFailure)
            && final(debug_info)@ == old(debug_info)@,
        outcome is Missing ==> r == Err::<(), ParseError>(ParseError::FileNotFound) && final(debug_info)@ == old(debug_info)@,
        outcome is OpenFailed ==> r == Err::<(), ParseError>(ParseError::IoError) && final(debug_info)@ == old(debug_info)@,
        outcome matches ReadOutcome::Mapped(data) ==> symbols_loaded(
            old(debug_info)@,
            final(debug_info)@,
            data@,
            r,
        ),
{
    match outcome {
        ReadOutcome::NoPath => Err(ParseError::PathResolutionFailure),
        ReadOutcome::Missing => Err(ParseError::FileNotFound),
        ReadOutcome::OpenFailed => Err(ParseError::IoError),
        ReadOutcome::Mapped(data) => get_symbols(debug_info, &data),
    }
}

/// Classification is total and exclusive: every symbol-table entry falls in
/// exactly one of the four routes -- the function path, the data path, the
/// unreadable-name failure, or being ignored -- so no symbol is registered
/// twice.
pub proof fn lemma_classification_total(s: RawSymbolV)
    ensures
        routed_function(s) || routed_data(s) || unreadable(s) || ignored(s),
        routed_function(s) ==> !routed_data(s) && !unreadable(s) && !ignored(s),
        routed_data(s) ==> !routed_function(s) && !unreadable(s) && !ignored(s),
        unreadable(s) ==> !routed_function(s) && !routed_data(s) && !ignored(s),
        ignored(s) ==> !routed_function(s) && !routed_data(s) && !unreadable(s),
{
}

/// What gets registered is a partition of the routed symbols: the function
/// descriptors are exactly those of the symbols routed to the function path,
/// in table order, the data descriptors exactly those of the symbols routed
/// to the data path, and together they never outnumber the symbols.
pub proof fn lemma_registration_partition(syms: Seq<RawSymbolV>)
    ensures
        functions_registered(syms) == syms.filter(|s: RawSymbolV| routed_function(s)).map_values(
            |s: RawSymbolV| function_descriptor_of(s),
        ),
        data_registered(syms) == syms.filter(|s: RawSymbolV| routed_data(s)).map_values(
            |s: RawSymbolV| data_descriptor_of(s),
        ),
        functions_registered(syms).len() + data_registered(syms).len() <= syms.len(),
    decreases syms.len(),
{
    reveal(Seq::filter);
    if syms.len() == 0 {
        assert(syms.filter(|s: RawSymbolV| routed_function(s)).map_values(
            |s: RawSymbolV| function_descriptor_of(s),
        ) =~= Seq::<FunctionDescriptorV>::empty());
        assert(syms.filter(|s: RawSymbolV| routed_data(s)).map_values(
            |s: RawSymbolV| data_descriptor_of(s),
        ) =~= Seq::<DataDescriptorV>::empty());
    } else {
        let prefix = syms.drop_last();
        let last = syms.last();
        lemma_registration_partition(prefix);
        lemma_classification_total(last);
        if routed_function(last) {
            assert(syms.filter(|s: RawSymbolV| routed_function(s)).map_values(
                |s: RawSymbolV| function_descriptor_of(s),
            ) =~= prefix.filter(|s: RawSymbolV| routed_function(s)).map_values(
                |s: RawSymbolV| function_descriptor_of(s),
            ).push(function_descriptor_of(last)));
        } else {
            assert(syms.filter(|s: RawSymbolV| routed_function(s)) == prefix.filter(
                |s: RawSymbolV| routed_function(s),
            ));
        }
        if routed_data(last) {
            assert(syms.filter(|s: RawSymbolV| routed_data(s)).map_values(
                |s: RawSymbolV| data_descriptor_of(s),
            ) =~= prefix.filter(|s: RawSymbolV| routed_data(s)).map_values(
                |s: RawSymbolV| data_descriptor_of(s),
            ).push(data_descriptor_of(last)));
        } else {
            assert(syms.filter(|s: RawSymbolV| routed_data(s)) == prefix.filter(
                |s: RawSymbolV| routed_data(s),
            ));
        }
    }
}

} // verus!
