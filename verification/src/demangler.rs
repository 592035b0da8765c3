//! Demangling of C++-ABI-mangled symbol names, with parameter lists and
//! return types elided.  Demangling failure is never fatal: callers fall back
//! to the raw name unchanged.

use vstd::prelude::*;
use vstd::string::StringExecFns;

verus! {

/// Demangling could not interpret the name as a mangled identifier.
#[derive(Clone, Copy, PartialEq, Eq, Structural, Debug)]
pub struct DemangleError;

/// What demangling a name yields: the demangled display form, or nothing
/// when the name is not a well-formed mangled identifier.  Demangling is a
/// function of the characters of the name alone.
pub uninterp spec fn demangled(s: Seq<char>) -> Option<Seq<char>>;

/// The display name a symbol ends up with: the demangled form when
/// demangling succeeds, the raw name unchanged when it fails.
pub open spec fn fallback_name(s: Seq<char>) -> Seq<char> {
    match demangled(s) {
        Some(d) => d,
        None => s,
    }
}

/// Relies on cpp_demangle::Symbol::new and Symbol::demangle_with_options,
/// called with the no_params and no_return_type options: parsing and
/// demangling read nothing but the name's bytes, so the outcome is a
/// function of the name alone; a name that does not parse, or does not
/// demangle, yields nothing.
#[verifier::external_body]
fn demangle_raw(s: &str) -> (r: Option<String>)
    ensures
        match r {
            Some(d) => demangled(s@) == Some(d@),
            None => demangled(s@) is None,
        },
{
    let options = cpp_demangle::DemangleOptions::new().no_params().no_return_type();
    match cpp_demangle::Symbol::new(s.as_bytes()) {
        Ok(sym) => sym.demangle_with_options(&options).ok(),
        Err(_) => None,
    }
}

/// Attempt to demangle a raw symbol name.  Succeeds exactly on well-formed
/// mangled identifiers; the caller recovers from the error by keeping the
/// raw name (see `demangle_or_raw`).
pub fn demangle(s: &str) -> (r: Result<String, DemangleError>)
    ensures
        match r {
            Ok(d) => demangled(s@) == Some(d@),
            Err(_) => demangled(s@) is None,
        },
{
    match demangle_raw(s) {
        Some(d) => Ok(d),
        None => Err(DemangleError),
    }
}

/// The display form of a raw name: its demangling when that succeeds, the
/// raw name itself unchanged otherwise.  Never fails and never panics,
/// whatever the name holds.
pub fn demangle_or_raw(s: &str) -> (r: String)
    ensures
        r@ == fallback_name(s@),
{
    match demangle(s) {
        Ok(d) => d,
        Err(_) => String::from_str(s),
    }
}

/// Fallback law: a name that does not demangle is passed through unchanged,
/// so feeding an already-demangled (or otherwise unmangled) name leaves it
/// exactly as it was.
pub proof fn lemma_demangle_fallback(s: Seq<char>)
    ensures
        demangled(s) is None ==> fallback_name(s) == s,
        demangled(s) is Some ==> fallback_name(s) == demangled(s)->Some_0,
{
}

} // verus!
