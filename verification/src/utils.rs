//! Text and path helpers.
use vstd::prelude::*;
use vstd::string::StrSliceExecFns;
use crate::select::opt_view;

verus! {

/// `s` with every `from` replaced by `to`.
pub open spec fn replaced(s: Seq<char>, from: char, to: char) -> Seq<char> {
    s.map_values(|c: char| if c == from { to } else { c })
}

/// Appends one character to a string (`String::push`).
#[verifier::external_body]
fn push_char(s: &mut String, c: char)
    ensures
        final(s)@ == old(s)@.push(c),
{
    s.push(c);
}

/// Copies `s` with every `from` replaced by `to`.
pub fn replace_char(s: &str, from: char, to: char) -> (r: String)
    ensures
        r@ == replaced(s@, from, to),
{
    let n = s.unicode_len();
    let mut r = String::new();
    let mut i: usize = 0;
    while i < n
        invariant
            i <= n,
            n == s@.len(),
            r@ == replaced(s@.take(i as int), from, to),
        decreases n - i,
    {
        let c = s.get_char(i);
        push_char(&mut r, if c == from { to } else { c });
        assert(s@.take(i + 1) =~= s@.take(i as int).push(c));
        assert(r@ =~= replaced(s@.take(i + 1), from, to));
        i = i + 1;
    }
    assert(s@.take(i as int) =~= s@);
    r
}

/// The name of a package or target, as a Rust module name: every `-` becomes `_`.
pub open spec fn module_name(name: Seq<char>) -> Seq<char> {
    replaced(name, '-', '_')
}

/// The module name of a package or target: every `-` becomes `_`.
pub fn sanitize_module_name(name: &str) -> (r: String)
    ensures
        r@ == module_name(name@),
{
    replace_char(name, '-', '_')
}

/// A path written with `/` only: every `\` becomes `/`.
pub open spec fn unix_path(p: Seq<char>) -> Seq<char> {
    replaced(p, '\\', '/')
}

/// What `pathdiff::diff_paths(path, base)` gives, as text: the path of `path` relative to
/// `base`, read by the path rules of the platform the crate is built for.
pub uninterp spec fn relative_path(path: Seq<char>, base: Seq<char>) -> Option<Seq<char>>;

/// Calls `pathdiff::diff_paths(path, base)` and gives its result as text. The contract names
/// the result and claims nothing else of it.
#[verifier::external_body]
pub(crate) fn diff_paths(path: &str, base: &str) -> (r: Option<String>)
    ensures
        opt_view(r) == relative_path(path@, base@),
{
    match pathdiff::diff_paths(path, base) {
        Some(p) => Some(p.to_string_lossy().into_owned()),
        None => None,
    }
}

/// What `std::path::Path::parent` gives for the path `p`, as text, read by the path rules
/// of the platform the crate is built for.
pub uninterp spec fn parent_dir(p: Seq<char>) -> Option<Seq<char>>;

/// Calls `std::path::Path::new(p).parent()` and gives its result as text. The contract names
/// the result, and says what the documentation says of the empty path: it has no parent.
#[verifier::external_body]
pub(crate) fn path_parent(p: &str) -> (r: Option<String>)
    ensures
        opt_view(r) == parent_dir(p@),
        p@.len() == 0 ==> r is None,
{
    match std::path::Path::new(p).parent() {
        Some(d) => Some(d.to_string_lossy().into_owned()),
        None => None,
    }
}

/// What `textwrap::dedent(s)` gives: `s` with the whitespace prefix that its non-blank lines
/// share taken off each line.
pub uninterp spec fn dedented(s: Seq<char>) -> Seq<char>;

/// Calls `textwrap::dedent(s)`. The contract names the result and claims nothing else of it.
#[verifier::external_body]
pub(crate) fn dedent(s: &str) -> (r: String)
    ensures
        r@ == dedented(s@),
{
    textwrap::dedent(s)
}

} // verus!
