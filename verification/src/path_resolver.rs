//! Debug-path resolution: given the canonical absolute path of a binary,
//! compute the expected location of its split debug-info file under the
//! fixed debug root `/usr/lib/debug`.
//!
//! Paths are handled as byte strings, the form the operating system reports
//! them in.  The caller canonicalizes the binary path before handing it here;
//! this module performs no filesystem access of its own.

use vstd::prelude::*;

verus! {

/// Path separator byte, `/`.
pub const SEP: u8 = 47;

/// Extension separator byte, `.`.
pub const DOT: u8 = 46;

/// The fixed debug root, `/usr/lib/debug`, as a byte sequence.
pub open spec fn debug_root() -> Seq<u8> {
    seq![
        47u8, 117u8, 115u8, 114u8, 47u8, 108u8, 105u8, 98u8, 47u8, 100u8, 101u8, 98u8, 117u8,
        103u8,
    ]
}

/// The literal `debug`, as a byte sequence.
pub open spec fn debug_word() -> Seq<u8> {
    seq![100u8, 101u8, 98u8, 117u8, 103u8]
}

/// The literal `.debug`, as a byte sequence.
pub open spec fn dot_debug() -> Seq<u8> {
    seq![DOT] + debug_word()
}

/// A canonical path is absolute when it starts with the root separator.
pub open spec fn is_absolute(p: Seq<u8>) -> bool {
    p.len() > 0 && p[0] == SEP
}

/// Index of the first byte of the path's file name: just past the last
/// separator, or 0 when the path holds no separator at all.
pub open spec fn file_name_start(p: Seq<u8>) -> int
    decreases p.len(),
{
    if p.len() == 0 {
        0
    } else if p[p.len() - 1] == SEP {
        p.len() as int
    } else {
        file_name_start(p.drop_last())
    }
}

/// Index of the last `.` in the path, or -1 when there is none.
pub open spec fn last_dot(p: Seq<u8>) -> int
    decreases p.len(),
{
    if p.len() == 0 {
        -1
    } else if p[p.len() - 1] == DOT {
        p.len() - 1
    } else {
        last_dot(p.drop_last())
    }
}

/// A path has an extension when its file name holds a `.` past its first
/// byte: the extension is the suffix after the last such dot.  A file name
/// that only starts with a dot (a hidden file) has no extension.
pub open spec fn has_extension(p: Seq<u8>) -> bool {
    last_dot(p) > file_name_start(p)
}

/// Where the stem ends: at the extension's dot, or at the end of the path
/// when there is no extension.
pub open spec fn stem_end(p: Seq<u8>) -> int {
    if has_extension(p) {
        last_dot(p)
    } else {
        p.len() as int
    }
}

/// The extension rule: an existing extension `ext` becomes `ext.debug`; a
/// path without an extension gets the extension `debug`.
pub open spec fn new_extension(p: Seq<u8>) -> Seq<u8> {
    if has_extension(p) {
        p.subrange(last_dot(p) + 1, p.len() as int) + dot_debug()
    } else {
        debug_word()
    }
}

/// The path with its extension substituted by the extension rule.
pub open spec fn with_new_extension(p: Seq<u8>) -> Seq<u8> {
    p.subrange(0, stem_end(p)) + seq![DOT] + new_extension(p)
}

/// The debug root, one separator, and the canonical path with exactly its
/// one leading separator stripped.
pub open spec fn joined(p: Seq<u8>) -> Seq<u8>
    recommends
        is_absolute(p),
{
    debug_root() + seq![SEP] + p.skip(1)
}

/// The resolved debug path: the canonical binary path mirrored under the
/// debug root, with the extension rule applied.
pub open spec fn debug_path_of(p: Seq<u8>) -> Seq<u8>
    recommends
        is_absolute(p),
{
    with_new_extension(joined(p))
}

proof fn lemma_file_name_start_props(p: Seq<u8>)
    ensures
        0 <= file_name_start(p) <= p.len(),
    decreases p.len(),
{
    if p.len() > 0 && p[p.len() - 1] != SEP {
        lemma_file_name_start_props(p.drop_last());
    }
}

proof fn lemma_last_dot_props(p: Seq<u8>)
    ensures
        -1 <= last_dot(p) < p.len(),
        last_dot(p) >= 0 ==> p[last_dot(p)] == DOT,
    decreases p.len(),
{
    if p.len() > 0 && p[p.len() - 1] != DOT {
        lemma_last_dot_props(p.drop_last());
        if last_dot(p.drop_last()) >= 0 {
            assert(p.drop_last()[last_dot(p.drop_last())] == DOT);
        }
    }
}

/// Substituting the new extension always amounts to appending `.debug`: when
/// an extension is present it is kept and `.debug` follows it; when none is
/// present the new `.debug` suffix is itself the appended extension.
pub proof fn lemma_with_new_extension_is_append(p: Seq<u8>)
    ensures
        with_new_extension(p) == p + dot_debug(),
{
    if has_extension(p) {
        lemma_last_dot_props(p);
        lemma_file_name_start_props(p);
        let ld = last_dot(p);
        assert(with_new_extension(p) =~= p + dot_debug());
    } else {
        assert(with_new_extension(p) =~= p + dot_debug());
    }
}

/// The resolver strips exactly one leading separator before joining onto the
/// debug root, so the resolved path is the debug root, the whole canonical
/// path, and the `.debug` suffix.
pub proof fn lemma_debug_path_append(p: Seq<u8>)
    requires
        is_absolute(p),
    ensures
        debug_path_of(p) == debug_root() + p + dot_debug(),
{
    lemma_with_new_extension_is_append(joined(p));
    assert(joined(p) =~= debug_root() + p);
    assert(debug_path_of(p) =~= debug_root() + p + dot_debug());
}

/// The debug root `/usr/lib/debug` as a byte vector.
fn debug_root_vec() -> (r: Vec<u8>)
    ensures
        r@ == debug_root(),
{
    let mut v: Vec<u8> = Vec::new();
    v.push(47);
    v.push(117);
    v.push(115);
    v.push(114);
    v.push(47);
    v.push(108);
    v.push(105);
    v.push(98);
    v.push(47);
    v.push(100);
    v.push(101);
    v.push(98);
    v.push(117);
    v.push(103);
    proof {
        assert(v@ =~= debug_root());
    }
    v
}

/// Debug-path resolver: compute the expected split debug-info path for a
/// canonicalized binary path.  Returns nothing when the path is not absolute
/// (canonicalization itself, with its own failure cases, is the caller's
/// business); performs no existence check.
pub fn resolve(canonical: &Vec<u8>) -> (r: Option<Vec<u8>>)
    ensures
        r is Some <==> is_absolute(canonical@),
        r is Some ==> r->Some_0@ == debug_path_of(canonical@),
{
    if canonical.len() == 0 {
        return None;
    }
    if canonical[0] != SEP {
        return None;
    }
    let mut out = debug_root_vec();
    let mut i: usize = 0;
    while i < canonical.len()
        invariant
            0 <= i <= canonical@.len(),
            out@ == debug_root() + canonical@.take(i as int),
        decreases canonical@.len() - i,
    {
        out.push(canonical[i]);
        proof {
            assert(canonical@.take(i + 1) =~= canonical@.take(i as int).push(
                canonical@[i as int],
            ));
            assert(out@ =~= debug_root() + canonical@.take(i + 1));
        }
        i += 1;
    }
    proof {
        assert(canonical@.take(canonical@.len() as int) =~= canonical@);
    }
    out.push(DOT);
    out.push(100);
    out.push(101);
    out.push(98);
    out.push(117);
    out.push(103);
    proof {
        lemma_debug_path_append(canonical@);
        assert(out@ =~= debug_root() + canonical@ + dot_debug());
    }
    Some(out)
}

} // verus!
